use peacock::{Vector2, Vector2i, Vector2u};

#[test]
fn it_can_use_the_addition_operator() {
    assert_eq!(
        Vector2i::new(1, 2) + Vector2i::new(3, 4),
        Vector2i::new(4, 6)
    );
}

#[test]
fn vectors_subtract_multiply_and_divide_componentwise() {
    assert_eq!(Vector2i::new(5, 7) - Vector2i::new(2, 10), Vector2i::new(3, -3));
    assert_eq!(Vector2i::new(2, -3) * Vector2i::new(4, 5), Vector2i::new(8, -15));
    assert_eq!(Vector2i::new(9, -8) / Vector2i::new(2, 4), Vector2i::new(4, -2));
    assert_eq!(Vector2u::new(9, 8) / Vector2u::new(3, 8), Vector2u::new(3, 1));
}

#[test]
fn vectors_combine_with_scalars_on_either_side() {
    assert_eq!(Vector2i::new(1, 2) + 10, Vector2i::new(11, 12));
    assert_eq!(Vector2i::new(1, 2) - 1, Vector2i::new(0, 1));
    assert_eq!(Vector2i::new(1, 2) * 3, Vector2i::new(3, 6));
    assert_eq!(Vector2i::new(8, 6) / 2, Vector2i::new(4, 3));
    assert_eq!(10 + Vector2i::new(1, 2), Vector2i::new(11, 12));
    assert_eq!(10 - Vector2i::new(1, 2), Vector2i::new(9, 8));
    assert_eq!(3u32 * Vector2u::new(1, 2), Vector2u::new(3, 6));
    assert_eq!(12u32 / Vector2u::new(4, 3), Vector2u::new(3, 4));
}

#[test]
fn vectors_negate_and_convert_from_pairs() {
    assert_eq!(-Vector2i::new(3, -4), Vector2i::new(-3, 4));
    assert_eq!(Vector2::from((7u32, 9u32)), Vector2u::new(7, 9));
    let v: Vector2i = (1, -1).into();
    assert_eq!(v.x, 1);
    assert_eq!(v.y, -1);
}

#[test]
fn vectors_default_to_zero_and_order_by_x_then_y() {
    assert_eq!(Vector2i::default(), Vector2i::new(0, 0));
    assert!(Vector2i::new(1, 5) < Vector2i::new(2, 0));
    assert!(Vector2i::new(1, 5) > Vector2i::new(1, 4));
}
