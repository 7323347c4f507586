use gyeol::event::MouseButton;
use gyeol::view::{Capture, Pointer, Release};

#[test]
fn press_and_release_on_the_same_element_is_a_click() {
    let mut p = Pointer::new();
    p.press(MouseButton::Left, Some(1), Some(1), false, 0, 1);
    assert_eq!(p.release(MouseButton::Left, Some(1)), Release { up: None, click: Some(1) });
    assert_eq!(p, Pointer::new());
}

#[test]
fn dragging_off_the_element_before_release_is_no_click() {
    let mut p = Pointer::new();
    p.press(MouseButton::Left, Some(1), Some(1), false, 0, 1);
    assert_eq!(p.release(MouseButton::Left, Some(3)).click, None);
    p.press(MouseButton::Left, Some(1), Some(1), false, 0, 1);
    assert_eq!(p.release(MouseButton::Left, Some(1)).click, Some(1));
}

#[test]
fn clicking_where_nothing_listens_does_nothing() {
    let mut p = Pointer::new();
    p.press(MouseButton::Left, None, None, false, 0, 1);
    assert_eq!(p.release(MouseButton::Left, None), Release { up: None, click: None });
}

#[test]
fn only_the_primary_button_clicks() {
    let mut p = Pointer::new();
    p.press(MouseButton::Right, Some(1), Some(1), false, 0, 1);
    assert_eq!(p.release(MouseButton::Right, Some(1)).click, None);
}

#[test]
fn a_capturing_press_gets_drags_and_its_release_then_nothing() {
    let mut p = Pointer::new();
    p.press(MouseButton::Left, None, Some(2), true, 77, 2);
    let grab = Capture { key: 77, button: MouseButton::Left, click_count: 2 };
    assert_eq!(p.drag_target(), Some(grab));
    assert_eq!(p.release(MouseButton::Right, None).up, None);
    assert_eq!(p.drag_target(), Some(grab));
    assert_eq!(p.release(MouseButton::Left, Some(5)), Release { up: Some(grab), click: None });
    assert_eq!(p.drag_target(), None);
}

#[test]
fn a_press_handler_alone_does_not_capture() {
    let mut p = Pointer::new();
    p.press(MouseButton::Left, None, Some(3), false, 9, 1);
    assert_eq!(p.drag_target(), None);
    assert_eq!(p.release(MouseButton::Left, None).up, None);
}
