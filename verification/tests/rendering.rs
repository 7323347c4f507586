use gyeol::gpu::GrowCapacity;
use gyeol::list::overscan_rows;
use gyeol::renderer::{plan_batches, scissor, Batch, BatchKind};
use gyeol::scene::hex_channels;
use gyeol::shaper::{caret_glyph, hit, GlyphSpan};

fn item(kind: BatchKind, start: u32, end: u32, clip: u64) -> Batch {
    Batch { kind, start, end, clip }
}

#[test]
fn neighbouring_items_of_one_kind_and_clip_share_a_draw_call() {
    let items = vec![
        item(BatchKind::Quads, 0, 1, 0),
        item(BatchKind::Quads, 1, 2, 0),
        item(BatchKind::Glyphs, 0, 5, 0),
        item(BatchKind::Glyphs, 5, 5, 0),
        item(BatchKind::Glyphs, 5, 9, 1),
        item(BatchKind::Quads, 2, 3, 1),
        item(BatchKind::Paths, 0, 6, 1),
        item(BatchKind::Paths, 6, 12, 1),
    ];
    assert_eq!(
        plan_batches(&items),
        vec![
            item(BatchKind::Quads, 0, 2, 0),
            item(BatchKind::Glyphs, 0, 5, 0),
            item(BatchKind::Glyphs, 5, 9, 1),
            item(BatchKind::Quads, 2, 3, 1),
            item(BatchKind::Paths, 0, 12, 1),
        ]
    );
    assert_eq!(plan_batches(&Vec::new()), Vec::new());
}

#[test]
fn a_gap_in_the_buffer_starts_a_new_batch() {
    let items = vec![item(BatchKind::Quads, 0, 1, 0), item(BatchKind::Quads, 2, 3, 0)];
    assert_eq!(plan_batches(&items).len(), 2);
}

#[test]
fn scissors_are_cut_to_the_target() {
    assert_eq!(scissor(None, 800, 600), Some((0, 0, 800, 600)));
    assert_eq!(scissor(Some((10, 20, 110, 70)), 800, 600), Some((10, 20, 100, 50)));
    assert_eq!(scissor(Some((700, 500, 900, 700)), 800, 600), Some((700, 500, 100, 100)));
    assert_eq!(scissor(Some((900, 0, 1000, 10)), 800, 600), None);
    assert_eq!(scissor(Some((10, 10, 10, 20)), 800, 600), None);
}

#[test]
fn buffers_grow_to_powers_of_two_and_never_shrink() {
    let mut g = GrowCapacity::new();
    assert_eq!(g.capacity(), 4096);
    assert!(!g.reserve(100));
    assert_eq!(g.capacity(), 4096);
    assert!(g.reserve(4097));
    assert_eq!(g.capacity(), 8192);
    assert!(!g.reserve(8192));
    assert!(g.reserve(100_000));
    assert_eq!(g.capacity(), 131_072);
    assert!(!g.reserve(0));
    assert_eq!(g.capacity(), 131_072);
}

#[test]
fn lists_build_two_spare_rows_on_each_side() {
    assert_eq!(overscan_rows(0, 5, 100_000), 0..7);
    assert_eq!(overscan_rows(500, 505, 100_000), 498..507);
    assert_eq!(overscan_rows(99_995, 100_000, 100_000), 99_993..100_000);
    assert_eq!(overscan_rows(1, 3, 2), 0..2);
}

#[test]
fn hex_colors_split_into_bytes() {
    assert_eq!(hex_channels(0xff8800), (0xff, 0x88, 0x00));
    assert_eq!(hex_channels(0x123456), (0x12, 0x34, 0x56));
    assert_eq!(hex_channels(0xab123456), (0x12, 0x34, 0x56));
}

/// "a한b": a = byte 0, 한 = bytes 1..4, b = byte 4.
fn glyphs() -> Vec<GlyphSpan> {
    vec![GlyphSpan { start: 0, end: 1 }, GlyphSpan { start: 1, end: 4 }, GlyphSpan { start: 4, end: 5 }]
}

#[test]
fn the_caret_sits_before_the_glyph_holding_its_byte() {
    let g = glyphs();
    assert_eq!(caret_glyph(&g, 0), Some(0));
    assert_eq!(caret_glyph(&g, 1), Some(1));
    assert_eq!(caret_glyph(&g, 2), Some(1), "inside a cluster snaps to its start");
    assert_eq!(caret_glyph(&g, 4), Some(2));
    assert_eq!(caret_glyph(&g, 5), None, "past the last glyph: the end of the line");
    assert_eq!(caret_glyph(&Vec::new(), 0), None);
}

#[test]
fn a_click_lands_before_the_first_glyph_whose_middle_is_right_of_it() {
    let g = glyphs();
    assert_eq!(hit(&g, &vec![true, true, true], 5), 0);
    assert_eq!(hit(&g, &vec![false, true, true], 5), 1);
    assert_eq!(hit(&g, &vec![false, false, true], 5), 4);
    assert_eq!(hit(&g, &vec![false, false, false], 5), 5, "past the end lands at the end");
    assert_eq!(hit(&Vec::new(), &Vec::new(), 0), 0);
    assert_eq!(hit(&g, &vec![false, false, true], 3), 3, "never past the text");
}
