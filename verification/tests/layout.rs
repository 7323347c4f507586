use gyeol::element::Cursor;
use gyeol::layout::{paint_fill, HitNode, Laid};

fn node(parent: Option<usize>, clickable: bool, cursor: Cursor) -> HitNode {
    HitNode { parent, clickable, cursor }
}

/// root(0) > [box(1, clickable) > inner(2)], [box(3)] > text(4, text cursor)
fn tree() -> Laid {
    let mut laid = Laid::new();
    laid.push(node(None, false, Cursor::Default));
    laid.push(node(Some(0), true, Cursor::Pointer));
    laid.push(node(Some(1), false, Cursor::Default));
    laid.push(node(Some(0), false, Cursor::Default));
    laid.push(node(Some(3), false, Cursor::Text));
    laid
}

#[test]
fn the_frontmost_hit_is_the_last_painted() {
    let laid = tree();
    assert_eq!(laid.topmost_at(&vec![true, true, true, false, false]), Some(2));
    assert_eq!(laid.topmost_at(&vec![true, false, false, true, false]), Some(3));
    assert_eq!(laid.topmost_at(&vec![false; 5]), None);
}

#[test]
fn a_click_on_an_inner_child_bubbles_up_to_the_handler() {
    let laid = tree();
    assert_eq!(laid.click_target(&vec![true, true, true, false, false]), Some(1));
    assert_eq!(laid.click_target(&vec![true, true, false, false, false]), Some(1));
}

#[test]
fn a_click_where_no_handler_listens_goes_nowhere() {
    let laid = tree();
    assert_eq!(laid.click_target(&vec![true, false, false, true, true]), None);
    assert_eq!(laid.click_target(&vec![false; 5]), None);
}

#[test]
fn the_cursor_comes_from_the_innermost_element_asking_for_one() {
    let laid = tree();
    assert_eq!(laid.cursor_at(&vec![true, true, true, false, false]), Cursor::Pointer);
    assert_eq!(laid.cursor_at(&vec![true, false, false, true, true]), Cursor::Text);
    assert_eq!(laid.cursor_at(&vec![true, false, false, true, false]), Cursor::Default);
    assert_eq!(laid.cursor_at(&vec![false; 5]), Cursor::Default);
}

#[test]
fn the_hovered_elements_are_the_frontmost_and_its_ancestors() {
    let laid = tree();
    assert_eq!(laid.hovered(&vec![true, true, true, false, false]), vec![2, 1, 0]);
    assert_eq!(laid.hovered(&vec![true, false, false, true, true]), vec![4, 3, 0]);
    assert_eq!(laid.hovered(&vec![false; 5]), Vec::<usize>::new());
    assert_eq!(laid.chain(Some(4)), vec![4, 3, 0]);
    assert_eq!(laid.chain(None), Vec::<usize>::new());
    assert_eq!(laid.chain(Some(9)), Vec::<usize>::new());
}

#[test]
fn hover_paints_the_hover_fill_falling_back_to_the_plain_one() {
    assert_eq!(paint_fill(true, Some(2), Some(1)), Some(2));
    assert_eq!(paint_fill(true, None, Some(1)), Some(1));
    assert_eq!(paint_fill(false, Some(2), Some(1)), Some(1));
    assert_eq!(paint_fill::<u8>(false, Some(2), None), None);
}

#[test]
fn handlers_and_sizes_are_reported() {
    let laid = tree();
    assert_eq!(laid.len(), 5);
    assert!(laid.handler(1));
    assert!(!laid.handler(2));
}
