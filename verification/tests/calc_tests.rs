use spin_apps::calc::Component;

#[test]
fn add_gives_the_sum() {
    assert_eq!(Component::add(1, 2), 3);
    assert_eq!(Component::add(-7, 4), -3);
    assert_eq!(Component::add(i32::MAX, 0), i32::MAX);
    assert_eq!(Component::add(i32::MIN, 0), i32::MIN);
}

#[test]
fn sub_gives_the_difference() {
    assert_eq!(Component::sub(3, 1), 2);
    assert_eq!(Component::sub(1, 3), -2);
    assert_eq!(Component::sub(i32::MIN, -1), i32::MIN + 1);
}

#[test]
fn sub_undoes_add() {
    for (x, y) in [(5, 9), (-100, 42), (0, 0), (i32::MAX - 10, 10)] {
        assert_eq!(Component::sub(Component::add(x, y), y), x);
        assert_eq!(Component::add(Component::sub(x, y), y), x);
    }
}
