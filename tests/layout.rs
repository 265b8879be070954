use qrview::layout::{centered_on, code_destination, label_destination, sprite, Placement};

#[test]
fn code_fills_a_window_of_its_own_size() {
    assert_eq!(code_destination(600, 600), Placement { x: 0, y: 0, width: 600, height: 600 });
}

#[test]
fn code_is_centered_on_a_larger_window() {
    let r = code_destination(800, 1000);
    assert_eq!(r, Placement { x: 100, y: 200, width: 600, height: 600 });
    assert_eq!(r.x + (r.width / 2) as i32, 400);
    assert_eq!(r.y + (r.height / 2) as i32, 500);
}

#[test]
fn code_is_centered_on_an_odd_window() {
    let r = code_destination(601, 999);
    assert_eq!(r, Placement { x: 0, y: 199, width: 600, height: 600 });
}

#[test]
fn code_is_centered_on_the_largest_window() {
    let r = code_destination(u32::MAX, u32::MAX);
    assert_eq!(r.x, i32::MAX - 300);
    assert_eq!(r.y, i32::MAX - 300);
}

#[test]
fn label_is_centered_on_its_anchor() {
    assert_eq!(label_destination(400, 57), Placement { x: 100, y: 0, width: 400, height: 57 });
    assert_eq!(label_destination(701, 40), Placement { x: -50, y: 0, width: 701, height: 40 });
}

#[test]
fn sprite_is_the_origin_square() {
    assert_eq!(sprite(), Placement { x: 0, y: 0, width: 600, height: 600 });
}

#[test]
fn centered_on_puts_the_center_on_the_point() {
    assert_eq!(centered_on(10, 20, 5, 8), Placement { x: 8, y: 16, width: 5, height: 8 });
    assert_eq!(centered_on(0, 0, 0, 0), Placement { x: 0, y: 0, width: 0, height: 0 });
}
