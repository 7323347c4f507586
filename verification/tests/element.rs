use std::collections::hash_map::DefaultHasher;
use std::hash::{Hash, Hasher};

use gyeol::element::{Cursor, ElementId, Overflow};

fn std_hash(name: &str) -> u64 {
    let mut hasher = DefaultHasher::new();
    name.hash(&mut hasher);
    hasher.finish()
}

#[test]
fn an_id_is_the_default_hash_of_its_name() {
    for name in ["rows", "big", "pad", "files", "", "결"] {
        assert_eq!(ElementId::new(name), ElementId(std_hash(name)));
    }
}

#[test]
fn equal_names_give_equal_ids_and_different_names_differ() {
    assert_eq!(ElementId::new("rows"), ElementId::new(&String::from("rows")));
    assert_ne!(ElementId::new("rows"), ElementId::new("row"));
    assert_ne!(ElementId::new("ab"), ElementId::new("a"));
}

#[test]
fn clipping_one_axis_hides_the_other() {
    assert_eq!(Overflow::Visible.max_hidden(), Overflow::Hidden);
    assert_eq!(Overflow::Hidden.max_hidden(), Overflow::Hidden);
    assert_eq!(Overflow::Scroll.max_hidden(), Overflow::Scroll);
}

#[test]
fn the_default_cursor_is_the_arrow() {
    assert_eq!(Cursor::default(), Cursor::Default);
}

use gyeol::element::OverflowAxes;

#[test]
fn scrolling_one_axis_clips_the_other() {
    let v = OverflowAxes::visible();
    assert_eq!(v.scroll_y(), OverflowAxes { x: Overflow::Hidden, y: Overflow::Scroll });
    assert_eq!(v.scroll_x(), OverflowAxes { x: Overflow::Scroll, y: Overflow::Hidden });
    assert_eq!(v.scroll_x().scroll_y(), OverflowAxes { x: Overflow::Scroll, y: Overflow::Scroll });
    assert_eq!(v.scroll_y().hidden(), OverflowAxes { x: Overflow::Hidden, y: Overflow::Hidden });
}
