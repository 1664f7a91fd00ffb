use selene::voice::Voice;

#[test]
fn new_uses_default_velocity() {
    let v = Voice::new(64);
    assert_eq!(v.note, 64);
    assert_eq!(v.velocity, 100);
    assert_eq!(v.t, 0);
    assert!(!v.released);
}

#[test]
fn new_with_velocity_sets_fields() {
    let v = Voice::new_with_velocity(69, 127);
    assert_eq!(v.note, 69);
    assert_eq!(v.velocity, 127);
    assert_eq!(v.t, 0);
    assert!(!v.released);
}

#[test]
fn tick_accumulates_age() {
    let mut v = Voice::new_with_velocity(60, 90);
    v.tick(5);
    assert_eq!(v.t, 5);
    v.tick(3);
    assert_eq!(v.t, 8);
    assert_eq!(v.note, 60);
    assert_eq!(v.velocity, 90);
}
