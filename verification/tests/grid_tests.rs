use tribe_terra::grid::Char;

#[test]
fn new_char_keeps_its_fields() {
    let c = Char::new("player".to_string(), 3, -4);
    assert_eq!(c.x, 3);
    assert_eq!(c.y, -4);
    assert_eq!(c.account, "player".to_string());
}

#[test]
fn unit_steps_move_the_char() {
    let mut c = Char::new("player".to_string(), 0, 0);
    c.move_char(1, 0);
    assert_eq!((c.x, c.y), (1, 0));
    c.move_char(0, -1);
    assert_eq!((c.x, c.y), (1, -1));
    c.move_char(-1, 0);
    assert_eq!((c.x, c.y), (0, -1));
    c.move_char(0, 1);
    assert_eq!((c.x, c.y), (0, 0));
}

#[test]
fn other_deltas_are_ignored() {
    let mut c = Char::new("player".to_string(), 5, 5);
    c.move_char(1, 1);
    c.move_char(2, 0);
    c.move_char(0, 0);
    c.move_char(-3, 7);
    assert_eq!((c.x, c.y), (5, 5));
}

#[test]
fn reset_returns_to_origin() {
    let mut c = Char::new("player".to_string(), 9, -9);
    c.reset_position();
    assert_eq!((c.x, c.y), (0, 0));
    assert_eq!(c.account, "player".to_string());
}
