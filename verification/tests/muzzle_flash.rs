use liquidators::muzzle_flash::MuzzleFlash;
use liquidators::time::Time;

#[test]
fn new_flash_is_not_flashed() {
    let m = MuzzleFlash::new("assets/flash.png".to_string(), 100_000_000);
    assert_eq!(m.last_flash, Time::new(0));
    assert_eq!(m.sprite, "assets/flash.png");
    assert_eq!(m.duration_nanos, 100_000_000);
    assert!(!m.is_visible(Time::new(1_000)));
}

#[test]
fn flash_is_visible_for_its_duration() {
    let mut m = MuzzleFlash::new("assets/flash.png".to_string(), 100_000_000);
    m.flash(Time::new(5_000));
    assert_eq!(m.last_flash, Time::new(5_000));
    assert!(m.is_visible(Time::new(5_000)));
    assert!(m.is_visible(Time::new(5_100)));
    assert!(!m.is_visible(Time::new(5_101)));
}

#[test]
fn diff_of_equal_flashes_is_empty() {
    let a = MuzzleFlash::new("a.png".to_string(), 5);
    let b = MuzzleFlash::new("a.png".to_string(), 5);
    let d = a.diff(&b);
    assert!(!d.flash);
    assert!(d.sprite.is_none());
    assert!(d.duration_nanos.is_none());
}

#[test]
fn apply_diff_reproduces_target() {
    let mut a = MuzzleFlash::new("a.png".to_string(), 5);
    let mut b = MuzzleFlash::new("b.png".to_string(), 9);
    b.flash(Time::new(42));
    let d = a.diff(&b);
    assert!(d.flash);
    assert_eq!(d.sprite.as_deref(), Some("b.png"));
    assert_eq!(d.duration_nanos, Some(9));
    a.apply(&d, Time::new(77));
    assert_eq!(a.sprite, "b.png");
    assert_eq!(a.duration_nanos, 9);
    // a flash in the difference flashes the copy at the time it is applied
    assert_eq!(a.last_flash, Time::new(77));
}

#[test]
fn identity_is_blank() {
    let m = MuzzleFlash::identity();
    assert_eq!(m.last_flash, Time::new(0));
    assert_eq!(m.sprite, "");
    assert_eq!(m.duration_nanos, 0);
}
