use liquidators::entities::{update_grabbing, Damagable, HasOwner, Scale, Tree, Wood};
use liquidators::grenade::Grenade;
use liquidators::ids::Uuid;
use liquidators::player::Facing;
use liquidators::time::Time;
use liquidators::{random_file, screen_shake_seeds, EntityKey};

#[test]
fn tree_takes_damage() {
    let mut t = Tree::new();
    assert_eq!(t.get_health(), 100);
    assert_eq!(t.get_scale(), 2);
    assert_eq!(t.texture_path, "assets/structure/tree.png");
    t.damage(10);
    assert_eq!(t.get_health(), 90);
    t.damage(95);
    assert_eq!(t.get_health(), -5);
    t.set_highlighted(true);
    assert!(t.get_highlighted());
}

#[test]
fn wood_changes_owner() {
    let mut w = Wood::new("alice".to_string());
    assert_eq!(w.get_owner(), "alice");
    assert_eq!(w.get_scale(), 2);
    w.set_owner("bob".to_string());
    assert_eq!(w.get_owner(), "bob");
    w.set_dragging(true);
    assert!(w.get_dragging());
}

#[test]
fn grenade_goes_off_once_after_three_seconds() {
    let mut g = Grenade::new(Time::new(1_000));
    assert!(!g.tick(Time::new(3_999)));
    assert!(!g.exploded);
    assert!(g.tick(Time::new(4_000)));
    assert!(g.exploded);
    assert!(!g.tick(Time::new(9_000)));
}

#[test]
fn uuid_bytes_roundtrip() {
    let bytes = [3u8; 16];
    assert_eq!(Uuid::from_bytes(bytes).into_bytes(), bytes);
}

#[test]
fn facing_flips_left() {
    assert!(Facing::Left.flip_x());
    assert!(!Facing::Right.flip_x());
}

#[test]
fn shake_seed_defaults() {
    assert_eq!(screen_shake_seeds(None, None), (69420, 42069));
    assert_eq!(screen_shake_seeds(Some(1), None), (1, 42069));
    assert_eq!(screen_shake_seeds(None, Some(2)), (69420, 2));
}

#[test]
fn random_file_picks_one_of_them() {
    assert_eq!(random_file(&vec![]), None);
    let files = vec!["a.wav".to_string(), "b.wav".to_string()];
    for _ in 0..20 {
        let pick = random_file(&files).unwrap();
        assert!(files.contains(&pick));
    }
    assert_eq!(random_file(&vec!["only.png".to_string()]), Some("only.png".to_string()));
}

#[test]
fn entity_key_exists() {
    let _key = EntityKey {};
}

#[test]
fn grabbing_rule() {
    let mut g = false;
    // mouse on it with the button down: grabbed
    update_grabbing(&mut g, false, false, true, true);
    assert!(g);
    // the mouse leaves it while the button stays down: still grabbed
    update_grabbing(&mut g, false, false, true, false);
    assert!(g);
    // too far along x: let go
    update_grabbing(&mut g, true, false, true, true);
    assert!(!g);
    g = true;
    // too far along y: let go
    update_grabbing(&mut g, false, true, true, true);
    assert!(!g);
    g = true;
    // button up: let go
    update_grabbing(&mut g, false, false, false, true);
    assert!(!g);
    // not grabbed and mouse elsewhere: stays let go
    update_grabbing(&mut g, false, false, true, false);
    assert!(!g);
}
