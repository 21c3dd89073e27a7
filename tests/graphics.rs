use peacock::graphics::{Color, Rectangle};
use peacock::input::Key;

#[test]
fn rgb_colors_are_opaque() {
    let c = Color::rgb(10, 20, 30);
    assert_eq!((c.r, c.g, c.b, c.a), (10, 20, 30, 255));
    assert_eq!(Color::rgba(10, 20, 30, 40), Color { r: 10, g: 20, b: 30, a: 40 });
    assert_ne!(Color::rgb(1, 2, 3), Color::rgba(1, 2, 3, 0));
}

#[test]
fn rectangle_edges_follow_its_corner_and_size() {
    let r = Rectangle::new(3, 4, 10, 20);
    assert_eq!(r.left(), 3);
    assert_eq!(r.top(), 4);
    assert_eq!(r.right(), 13);
    assert_eq!(r.bottom(), 24);
    let n = Rectangle::new(-5, -5, 2, 3);
    assert_eq!((n.right(), n.bottom()), (-3, -2));
}

#[test]
fn keys_compare_by_declaration_order() {
    assert!(Key::A < Key::B);
    assert!(Key::Unknown < Key::A);
    assert_eq!(Key::Space, Key::Space);
    assert_ne!(Key::Left, Key::Right);
}
