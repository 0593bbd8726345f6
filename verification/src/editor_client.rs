//! The decisions of the level editor: which physics bodies are selected,
//! the drag-selection rectangle, jointing, copy-paste and the physics toggle.
//! Bodies are identified by integer handles; points are whatever the caller
//! uses for positions (the editor only stores them).
use vstd::prelude::*;

verus! {

/// The editor's selection and input state. `P` is the type of a point in the
/// world.
pub struct EditorClient<P> {
    pub enable_physics: bool,
    /// Selected bodies, in the order in which they were selected.
    pub selected_physics_objects: Vec<u64>,
    pub first_point: Option<P>,
    pub second_point: Option<P>,
    /// Whether the left mouse button was up since the last drag.
    pub released: bool,
    /// Whether the paste shortcut is being held after a paste.
    pub pasted: bool,
    /// The bodies of the structures copied last, in the level's order.
    pub clipboard: Vec<u64>,
    /// Where the copy was made: the first corner of the selection rectangle.
    pub copy_mouse_position: P,
}

/// `sel` after adding, in order, each element of `found` that it does not
/// hold yet.
pub open spec fn add_new(sel: Seq<u64>, found: Seq<u64>) -> Seq<u64>
    decreases found.len(),
{
    if found.len() == 0 {
        sel
    } else {
        let prev = add_new(sel, found.drop_last());
        if prev.contains(found.last()) { prev } else { prev.push(found.last()) }
    }
}

/// The elements of `s` that `keep` holds, in order.
pub open spec fn keep_only(s: Seq<u64>, keep: Seq<u64>) -> Seq<u64> {
    s.filter(|x: u64| keep.contains(x))
}

/// The selection after a drag-select that found the bodies `found`: the
/// bodies selected before that were found again, in their order, then the
/// newly found ones in the order they were found.
pub open spec fn merged_selection(sel: Seq<u64>, found: Seq<u64>) -> Seq<u64> {
    keep_only(add_new(sel, found), found)
}

/// Consecutive pairs of a selection: the first with the second, the second
/// with the third, and so on.
pub open spec fn consecutive_pairs(s: Seq<u64>) -> Seq<(u64, u64)> {
    if s.len() == 0 {
        Seq::empty()
    } else {
        Seq::new((s.len() - 1) as nat, |i: int| (s[i], s[i + 1]))
    }
}

proof fn lemma_add_new_props(sel: Seq<u64>, found: Seq<u64>)
    ensures
        add_new(sel, found).len() >= sel.len(),
        add_new(sel, found).subrange(0, sel.len() as int) == sel,
        forall|x: u64| add_new(sel, found).contains(x) <==> (sel.contains(x) || found.contains(x)),
        forall|i: int| sel.len() <= i < add_new(sel, found).len() ==> found.contains(#[trigger] add_new(sel, found)[i]),
        sel.no_duplicates() ==> add_new(sel, found).no_duplicates(),
    decreases found.len(),
{
    if found.len() > 0 {
        let prev = add_new(sel, found.drop_last());
        lemma_add_new_props(sel, found.drop_last());
        assert forall|x: u64| found.drop_last().contains(x) implies found.contains(x) by {
            let j = choose|j: int| 0 <= j < found.drop_last().len() && found.drop_last()[j] == x;
            assert(found[j] == x);
        }
        assert forall|x: u64| found.contains(x) implies (found.drop_last().contains(x) || x == found.last()) by {
            let j = choose|j: int| 0 <= j < found.len() && found[j] == x;
            if j < found.len() - 1 {
                assert(found.drop_last()[j] == x);
            }
        }
        assert(found.contains(found.last())) by {
            assert(found[found.len() - 1] == found.last());
        }
        if !prev.contains(found.last()) {
            let next = prev.push(found.last());
            assert(next.subrange(0, sel.len() as int) =~= prev.subrange(0, sel.len() as int));
            assert forall|x: u64| next.contains(x) <==> (prev.contains(x) || x == found.last()) by {
                if next.contains(x) {
                    let j = choose|j: int| 0 <= j < next.len() && next[j] == x;
                    if j < prev.len() {
                        assert(prev[j] == x);
                    }
                }
                if prev.contains(x) {
                    let j = choose|j: int| 0 <= j < prev.len() && prev[j] == x;
                    assert(next[j] == x);
                }
                if x == found.last() {
                    assert(next[prev.len() as int] == x);
                }
            }
        }
    }
}

/// After a drag-select, exactly the bodies it found are selected, each once
/// (when the selection held each body once before), and the bodies that stay
/// selected keep their order.
pub proof fn lemma_merged_selection(sel: Seq<u64>, found: Seq<u64>)
    ensures
        forall|x: u64| merged_selection(sel, found).contains(x) <==> found.contains(x),
        sel.no_duplicates() ==> merged_selection(sel, found).no_duplicates(),
        keep_only(sel, found).is_prefix_of(merged_selection(sel, found)),
{
    lemma_add_new_props(sel, found);
    let a = add_new(sel, found);
    let pred = |x: u64| found.contains(x);
    assert forall|x: u64| merged_selection(sel, found).contains(x) <==> found.contains(x) by {
        let m = a.filter(pred);
        assert(merged_selection(sel, found) == m);
        if m.contains(x) {
            let j = choose|j: int| 0 <= j < m.len() && m[j] == x;
            a.lemma_filter_pred(pred, j);
        }
        if found.contains(x) {
            assert(a.contains(x));
            let j = choose|j: int| 0 <= j < a.len() && a[j] == x;
            a.lemma_filter_contains(pred, j);
        }
    }
    if sel.no_duplicates() {
        lemma_filter_no_duplicates(a, pred);
    }
    // the kept prefix: filtering `a = sel + rest` keeps sel's survivors first
    let rest = a.subrange(sel.len() as int, a.len() as int);
    assert(a =~= sel + rest);
    Seq::filter_distributes_over_add(sel, rest, pred);
    assert(keep_only(sel, found).is_prefix_of(merged_selection(sel, found))) by {
        let k = sel.filter(pred);
        assert(merged_selection(sel, found) == k + rest.filter(pred));
        assert((k + rest.filter(pred)).subrange(0, k.len() as int) =~= k);
    }
}

/// One call of the paste decision: whether to paste, and whether the paste
/// shortcut counts as held afterwards, given whether it was held and whether
/// it is down now.
pub open spec fn paste_step(pasted: bool, keys_down: bool) -> (bool, bool) {
    (keys_down && !pasted, keys_down)
}

/// What successive calls of the paste decision return, starting with the
/// shortcut counted as held or not (`pasted`), when the shortcut is down or
/// up at each call as `keys` says.
pub open spec fn paste_results(pasted: bool, keys: Seq<bool>) -> Seq<bool>
    decreases keys.len(),
{
    if keys.len() == 0 {
        Seq::empty()
    } else {
        seq![paste_step(pasted, keys[0]).0] + paste_results(paste_step(pasted, keys[0]).1, keys.drop_first())
    }
}

proof fn lemma_paste_held(n: nat)
    ensures
        paste_results(true, Seq::new(n, |i: int| true)) == Seq::new(n, |i: int| false),
    decreases n,
{
    if n > 0 {
        let keys = Seq::new(n, |i: int| true);
        lemma_paste_held((n - 1) as nat);
        assert(keys.drop_first() =~= Seq::new((n - 1) as nat, |i: int| true));
        assert(paste_results(true, keys) =~= Seq::new(n, |i: int| false));
    }
}

/// Holding the paste shortcut for `k` calls after a call where it was up
/// pastes exactly once, at the first of those calls, whatever came before.
pub proof fn lemma_paste_once_per_press(pasted: bool, k: nat)
    requires
        k >= 1,
    ensures
        paste_results(pasted, seq![false] + Seq::new(k, |i: int| true)) == Seq::new(k + 1, |i: int| i == 1),
{
    let held = Seq::new(k, |i: int| true);
    let keys = seq![false] + held;
    assert(keys[0] == false);
    assert(keys.drop_first() =~= held);
    assert(held.drop_first() =~= Seq::new((k - 1) as nat, |i: int| true));
    lemma_paste_held((k - 1) as nat);
    assert(paste_results(false, held) =~= seq![true] + Seq::new((k - 1) as nat, |i: int| false));
    assert(paste_results(pasted, keys) =~= Seq::new(k + 1, |i: int| i == 1));
}

/// A structure is despawned (or copied, or outlined) exactly when it is in
/// the level and selected.
pub proof fn lemma_keep_only_exact(structures: Seq<u64>, sel: Seq<u64>)
    ensures
        forall|x: u64| keep_only(structures, sel).contains(x) <==> (structures.contains(x) && sel.contains(x)),
{
    let pred = |x: u64| sel.contains(x);
    assert forall|x: u64| keep_only(structures, sel).contains(x) <==> (structures.contains(x) && sel.contains(x)) by {
        let m = structures.filter(pred);
        if m.contains(x) {
            let j = choose|j: int| 0 <= j < m.len() && m[j] == x;
            structures.lemma_filter_pred(pred, j);
            structures.lemma_filter_contains_rev(pred, x);
        }
        if structures.contains(x) && sel.contains(x) {
            let j = choose|j: int| 0 <= j < structures.len() && structures[j] == x;
            structures.lemma_filter_contains(pred, j);
        }
    }
}

proof fn lemma_filter_no_duplicates(s: Seq<u64>, pred: spec_fn(u64) -> bool)
    requires
        s.no_duplicates(),
    ensures
        s.filter(pred).no_duplicates(),
    decreases s.len(),
{
    reveal(Seq::filter);
    if s.len() > 0 {
        lemma_filter_no_duplicates(s.drop_last(), pred);
        if pred(s.last()) {
            let f = s.drop_last().filter(pred);
            assert(s.filter(pred) == f.push(s.last()));
            if f.contains(s.last()) {
                s.drop_last().lemma_filter_contains_rev(pred, s.last());
                let j = choose|j: int| 0 <= j < s.drop_last().len() && s.drop_last()[j] == s.last();
                assert(s[j] == s[s.len() - 1]);
            }
            assert forall|i: int, j: int| 0 <= i < j < f.push(s.last()).len() implies f.push(s.last())[i] != f.push(s.last())[j] by {
                if j == f.len() {
                    assert(f.contains(f.push(s.last())[i])) by { assert(f[i] == f.push(s.last())[i]); }
                }
            }
        }
    }
}

fn vec_contains(v: &Vec<u64>, x: u64) -> (r: bool)
    ensures
        r == v@.contains(x),
{
    let mut i: usize = 0;
    while i < v.len()
        invariant
            i <= v@.len(),
            forall|j: int| 0 <= j < i ==> v@[j] != x,
        decreases v@.len() - i,
    {
        if v[i] == x {
            proof {
                assert(v@[i as int] == x);
            }
            return true;
        }
        i = i + 1;
    }
    false
}

/// The elements of `structures` that `sel` holds, in order.
fn filter_selected(sel: &Vec<u64>, structures: &Vec<u64>) -> (r: Vec<u64>)
    ensures
        r@ == keep_only(structures@, sel@),
{
    let mut kept: Vec<u64> = Vec::new();
    let mut j: usize = 0;
    while j < structures.len()
        invariant
            j <= structures@.len(),
            kept@ == keep_only(structures@.subrange(0, j as int), sel@),
        decreases structures@.len() - j,
    {
        proof {
            let s = structures@.subrange(0, j + 1);
            assert(s.drop_last() =~= structures@.subrange(0, j as int));
            reveal(Seq::filter);
        }
        let body = structures[j];
        if vec_contains(sel, body) {
            kept.push(body);
        }
        j = j + 1;
    }
    proof {
        assert(structures@.subrange(0, j as int) =~= structures@);
    }
    kept
}

impl<P: Copy> EditorClient<P> {
    /// The editor as it starts: physics off, nothing selected or copied, no
    /// selection rectangle, the mouse button counted as released, and
    /// `origin` as the copy position.
    pub fn new(origin: P) -> (e: Self)
        ensures
            !e.enable_physics,
            e.selected_physics_objects@ == Seq::<u64>::empty(),
            e.first_point is None,
            e.second_point is None,
            e.released,
            !e.pasted,
            e.clipboard@ == Seq::<u64>::empty(),
            e.copy_mouse_position == origin,
    {
        EditorClient {
            enable_physics: false,
            selected_physics_objects: Vec::new(),
            first_point: None,
            second_point: None,
            released: true,
            pasted: false,
            clipboard: Vec::new(),
            copy_mouse_position: origin,
        }
    }

    /// Switches physics simulation on or off when the toggle key was released.
    pub fn toggle_physics(&mut self, toggle_key_released: bool)
        ensures
            final(self).enable_physics == (old(self).enable_physics != toggle_key_released),
            final(self).selected_physics_objects@ == old(self).selected_physics_objects@,
            final(self).first_point == old(self).first_point,
            final(self).second_point == old(self).second_point,
            final(self).released == old(self).released,
            final(self).pasted == old(self).pasted,
            final(self).clipboard@ == old(self).clipboard@,
            final(self).copy_mouse_position == old(self).copy_mouse_position,
    {
        if toggle_key_released {
            self.enable_physics = !self.enable_physics;
        }
    }

    /// Updates the drag-selection rectangle from the input of this frame:
    /// Escape clears it; with Shift held, pressing the left button after a
    /// release starts a rectangle at the mouse, and holding it moves the
    /// rectangle's second corner to the mouse.
    pub fn create_drag_select(&mut self, escape_down: bool, shift_down: bool, left_down: bool, mouse_pos: P)
        ensures
            final(self).enable_physics == old(self).enable_physics,
            final(self).selected_physics_objects@ == old(self).selected_physics_objects@,
            final(self).pasted == old(self).pasted,
            final(self).clipboard@ == old(self).clipboard@,
            final(self).copy_mouse_position == old(self).copy_mouse_position,
            ({
                let f0 = if escape_down { None } else { old(self).first_point };
                let s0 = if escape_down { None } else { old(self).second_point };
                if !shift_down {
                    final(self).first_point == f0 && final(self).second_point == s0
                        && final(self).released == old(self).released
                } else {
                    let f1 = if left_down && old(self).released { Some(mouse_pos) } else { f0 };
                    &&& final(self).first_point == f1
                    &&& final(self).second_point == (if left_down && f1 is Some { Some(mouse_pos) } else { s0 })
                    &&& final(self).released == (if left_down { if f1 is Some { false } else { old(self).released } } else { true })
                }
            }),
    {
        if escape_down {
            self.first_point = None;
            self.second_point = None;
        }
        if !shift_down {
            return;
        }
        if left_down && self.released == true {
            self.first_point = Some(mouse_pos);
        }
        if left_down && self.first_point.is_some() {
            self.second_point = Some(mouse_pos);
            self.released = false;
        }
        if !left_down {
            self.released = true;
        }
    }

    /// Updates the selection from the drag-selection rectangle. Without both
    /// corners the selection is cleared, whatever `found` holds. Otherwise
    /// `found` are the bodies that the rectangle between the corners touches
    /// (in the order the physics query reports them): bodies found again
    /// stay, in their order, then newly found bodies follow in the order
    /// found.
    pub fn select_physics_objects(&mut self, found: &Vec<u64>)
        ensures
            final(self).enable_physics == old(self).enable_physics,
            final(self).first_point == old(self).first_point,
            final(self).second_point == old(self).second_point,
            final(self).released == old(self).released,
            final(self).pasted == old(self).pasted,
            final(self).clipboard@ == old(self).clipboard@,
            final(self).copy_mouse_position == old(self).copy_mouse_position,
            final(self).selected_physics_objects@ == (if old(self).first_point is None
                || old(self).second_point is None {
                Seq::<u64>::empty()
            } else {
                merged_selection(old(self).selected_physics_objects@, found@)
            }),
    {
        if self.first_point.is_none() || self.second_point.is_none() {
            self.selected_physics_objects.clear();
            return;
        }
        let selections = found;
        let ghost old_sel = self.selected_physics_objects@;
        let mut i: usize = 0;
        while i < selections.len()
            invariant
                i <= selections@.len(),
                self.selected_physics_objects@ == add_new(old_sel, selections@.subrange(0, i as int)),
                self.enable_physics == old(self).enable_physics,
                self.first_point == old(self).first_point,
                self.second_point == old(self).second_point,
                self.released == old(self).released,
                self.pasted == old(self).pasted,
                self.clipboard@ == old(self).clipboard@,
                self.copy_mouse_position == old(self).copy_mouse_position,
            decreases selections@.len() - i,
        {
            proof {
                let s = selections@.subrange(0, i + 1);
                assert(s.drop_last() =~= selections@.subrange(0, i as int));
            }
            let selection = selections[i];
            if !vec_contains(&self.selected_physics_objects, selection) {
                self.selected_physics_objects.push(selection);
            }
            i = i + 1;
        }
        proof {
            assert(selections@.subrange(0, i as int) =~= selections@);
        }
        let kept = filter_selected(selections, &self.selected_physics_objects);
        self.selected_physics_objects = kept;
    }

    /// The pairs of bodies that jointing the selection connects: each
    /// selected body with the one selected after it.
    pub fn joint_selected_bodies(&self) -> (pairs: Vec<(u64, u64)>)
        ensures
            pairs@ == consecutive_pairs(self.selected_physics_objects@),
    {
        let sel = &self.selected_physics_objects;
        let mut pairs: Vec<(u64, u64)> = Vec::new();
        let mut index: usize = 0;
        while index < sel.len()
            invariant
                index <= sel@.len(),
                pairs@.len() == (if index == 0 { 0 } else if index == sel@.len() { index - 1 } else { index as int }),
                forall|k: int| 0 <= k < pairs@.len() ==> pairs@[k] == (sel@[k], sel@[k + 1]),
                index < sel@.len() ==> pairs@.len() == index,
            decreases sel@.len() - index,
        {
            if index == sel.len() - 1 {
                index = index + 1;
                continue;
            }
            pairs.push((sel[index], sel[index + 1]));
            index = index + 1;
        }
        proof {
            assert(pairs@ =~= consecutive_pairs(sel@));
        }
        pairs
    }

    /// The structures to outline as selected: those, among the bodies
    /// `structures` of the level in its order, that the selection holds.
    pub fn highlight_selected_physics_objects(&self, structures: &Vec<u64>) -> (outlined: Vec<u64>)
        ensures
            outlined@ == keep_only(structures@, self.selected_physics_objects@),
    {
        filter_selected(&self.selected_physics_objects, structures)
    }

    /// The structures to despawn this frame: when the delete key was
    /// released, those among `structures` that are selected (in the level's
    /// order); otherwise none. The selection itself stays as it is.
    pub fn delete_selected_structures(&self, delete_key_released: bool, structures: &Vec<u64>) -> (despawned: Vec<u64>)
        ensures
            despawned@ == (if delete_key_released {
                keep_only(structures@, self.selected_physics_objects@)
            } else {
                Seq::<u64>::empty()
            }),
    {
        if !delete_key_released {
            return Vec::new();
        }
        filter_selected(&self.selected_physics_objects, structures)
    }

    /// Copies the selected structures when the copy shortcut is held: the
    /// clipboard becomes those among `structures` that are selected, in the
    /// level's order, and the copy position becomes the first corner of the
    /// selection rectangle, which must then exist. Without the shortcut
    /// nothing changes.
    pub fn copy_selected_structures(&mut self, copy_keys_down: bool, structures: &Vec<u64>)
        requires
            copy_keys_down ==> old(self).first_point is Some,
        ensures
            copy_keys_down ==> final(self).clipboard@ == keep_only(structures@, old(self).selected_physics_objects@),
            copy_keys_down ==> final(self).copy_mouse_position == old(self).first_point->0,
            !copy_keys_down ==> final(self).clipboard@ == old(self).clipboard@,
            !copy_keys_down ==> final(self).copy_mouse_position == old(self).copy_mouse_position,
            final(self).enable_physics == old(self).enable_physics,
            final(self).selected_physics_objects@ == old(self).selected_physics_objects@,
            final(self).first_point == old(self).first_point,
            final(self).second_point == old(self).second_point,
            final(self).released == old(self).released,
            final(self).pasted == old(self).pasted,
    {
        if !copy_keys_down {
            return;
        }
        if let Some(p) = self.first_point {
            self.copy_mouse_position = p;
        }
        self.clipboard = filter_selected(&self.selected_physics_objects, structures);
    }

    /// Whether to paste the copied structures this frame: once each time the
    /// paste shortcut goes down, not again while it is held.
    pub fn paste_copied_structures(&mut self, paste_keys_down: bool) -> (paste: bool)
        ensures
            (paste, final(self).pasted) == paste_step(old(self).pasted, paste_keys_down),
            final(self).enable_physics == old(self).enable_physics,
            final(self).selected_physics_objects@ == old(self).selected_physics_objects@,
            final(self).first_point == old(self).first_point,
            final(self).second_point == old(self).second_point,
            final(self).released == old(self).released,
            final(self).clipboard@ == old(self).clipboard@,
            final(self).copy_mouse_position == old(self).copy_mouse_position,
    {
        if !paste_keys_down {
            self.pasted = false;
            return false;
        }
        if self.pasted == true {
            return false;
        }
        self.pasted = true;
        true
    }
}

} // verus!
