use gyeol::atlas::{Atlas, ATLAS_SIZE};

#[test]
fn first_glyphs_share_the_top_shelf_one_texel_apart() {
    let mut atlas = Atlas::new();
    assert_eq!(atlas.allocate(10, 12), Some((0, 0)));
    assert_eq!(atlas.allocate(20, 5), Some((11, 0)));
    assert_eq!(atlas.allocate(7, 30), Some((32, 0)));
}

#[test]
fn a_glyph_that_does_not_fit_the_shelf_starts_a_new_one_below_the_tallest() {
    let mut atlas = Atlas::new();
    assert_eq!(atlas.allocate(2040, 12), Some((0, 0)));
    assert_eq!(atlas.allocate(10, 30), Some((0, 13)));
    assert_eq!(atlas.allocate(10, 5), Some((11, 13)));
    // 11 + 10 + 1 = 22; a 2030-wide glyph does not fit after it.
    assert_eq!(atlas.allocate(2030, 4), Some((0, 44)));
}

#[test]
fn a_full_atlas_refuses_glyphs() {
    let mut atlas = Atlas::new();
    // A glyph as wide as the atlas never fits on a shelf's remainder: it goes one texel down.
    assert_eq!(atlas.allocate(ATLAS_SIZE, 2045), Some((0, 1)));
    // The next shelf starts at 2047: only a zero-height area fits there.
    assert_eq!(atlas.allocate(5, 5), None);
    assert_eq!(atlas.allocate(5, 1), None);
    assert_eq!(atlas.allocate(5, 0), Some((0, 2047)));
}

#[test]
fn a_glyph_wider_than_the_atlas_never_fits() {
    let mut atlas = Atlas::new();
    assert_eq!(atlas.allocate(ATLAS_SIZE + 1, 10), None);
    assert_eq!(atlas.allocate(u32::MAX, u32::MAX), None);
    assert_eq!(atlas.allocate(10, 10), Some((0, 2)));
}

#[test]
fn only_coverage_masks_with_area_get_a_slot() {
    let mut atlas = Atlas::new();
    assert_eq!(atlas.place_glyph(false, 10, 10), None);
    assert_eq!(atlas.place_glyph(true, 0, 10), None);
    assert_eq!(atlas.place_glyph(true, 10, 0), None);
    assert_eq!(atlas.place_glyph(true, 10, 10), Some((0, 0)));
    assert_eq!(atlas.place_glyph(true, 3, 3), Some((11, 0)));
}

#[test]
fn many_glyphs_never_overlap() {
    let mut atlas = Atlas::new();
    let mut placed: Vec<(u32, u32, u32, u32)> = Vec::new();
    for i in 0..3000u32 {
        let (w, h) = (5 + i % 37, 3 + (i * 7) % 41);
        if let Some((x, y)) = atlas.allocate(w, h) {
            assert!(x + w <= ATLAS_SIZE && y + h < ATLAS_SIZE);
            placed.push((x, y, w, h));
        }
    }
    assert!(placed.len() > 100);
    for (i, a) in placed.iter().enumerate() {
        for b in &placed[i + 1..] {
            let apart = a.0 + a.2 < b.0 || b.0 + b.2 < a.0 || a.1 + a.3 < b.1 || b.1 + b.3 < a.1;
            assert!(apart, "{a:?} and {b:?} overlap");
        }
    }
}
