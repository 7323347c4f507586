//! Packing glyph bitmaps into one square texture, in rows ("shelves").
//!
//! The atlas hands out the top-left corner of a free `w`×`h` area. Areas are placed left to
//! right on the current shelf with one texel of space between them; when a glyph does not fit in
//! what is left of the shelf, a new shelf starts one texel below the tallest glyph of the old one.
//! When the texture is full, placing fails and glyphs stop being drawn.
use vstd::prelude::*;

verus! {

/// Side length of the (square) glyph texture, in texels.
pub const ATLAS_SIZE: u32 = 2048;

/// A placed area: `(x, y, w, h)` in texels.
pub type Area = (int, int, int, int);

/// `a` lies inside the texture.
pub open spec fn area_inside(a: Area) -> bool {
    &&& 0 <= a.0
    &&& 0 <= a.1
    &&& 0 <= a.2
    &&& 0 <= a.3
    &&& a.0 + a.2 <= ATLAS_SIZE
    &&& a.1 + a.3 < ATLAS_SIZE
}

/// `a` and `b` do not overlap and do not even touch: at least one texel lies between them.
pub open spec fn areas_apart(a: Area, b: Area) -> bool {
    ||| a.0 + a.2 < b.0
    ||| b.0 + b.2 < a.0
    ||| a.1 + a.3 < b.1
    ||| b.1 + b.3 < a.1
}

/// The height of the tallest area in `areas` whose top edge is at `y` (0 when there is none):
/// the height of the shelf at `y`.
pub open spec fn tallest_at(areas: Seq<Area>, y: int) -> int
    decreases areas.len(),
{
    if areas.len() == 0 {
        0
    } else {
        let rest = tallest_at(areas.drop_last(), y);
        let a = areas.last();
        if a.1 == y && a.3 > rest {
            a.3
        } else {
            rest
        }
    }
}

/// Where the next area on the shelf at `y` goes: one texel right of the right edge of the areas
/// already there (0 when there is none).
pub open spec fn shelf_end(areas: Seq<Area>, y: int) -> int
    decreases areas.len(),
{
    if areas.len() == 0 {
        0
    } else {
        let rest = shelf_end(areas.drop_last(), y);
        let a = areas.last();
        if a.1 == y && a.0 + a.2 + 1 > rest {
            a.0 + a.2 + 1
        } else {
            rest
        }
    }
}

proof fn shelf_end_after_push(areas: Seq<Area>, a: Area, y: int)
    ensures
        shelf_end(areas.push(a), y) == if a.1 == y && a.0 + a.2 + 1 > shelf_end(areas, y) {
            a.0 + a.2 + 1
        } else {
            shelf_end(areas, y)
        },
{
    assert(areas.push(a).drop_last() =~= areas);
}

proof fn shelf_end_of_empty_row(areas: Seq<Area>, y: int)
    requires
        forall|i: int| 0 <= i < areas.len() ==> (#[trigger] areas[i]).1 != y,
    ensures
        shelf_end(areas, y) == 0,
    decreases areas.len(),
{
    if areas.len() > 0 {
        shelf_end_of_empty_row(areas.drop_last(), y);
    }
}

proof fn shelf_end_nonneg(areas: Seq<Area>, y: int)
    ensures
        shelf_end(areas, y) >= 0,
    decreases areas.len(),
{
    if areas.len() > 0 {
        shelf_end_nonneg(areas.drop_last(), y);
    }
}

proof fn tallest_after_push(areas: Seq<Area>, a: Area, y: int)
    ensures
        tallest_at(areas.push(a), y) == if a.1 == y && a.3 > tallest_at(areas, y) {
            a.3
        } else {
            tallest_at(areas, y)
        },
{
    assert(areas.push(a).drop_last() =~= areas);
}

proof fn tallest_of_empty_row(areas: Seq<Area>, y: int)
    requires
        forall|i: int| 0 <= i < areas.len() ==> (#[trigger] areas[i]).1 != y,
    ensures
        tallest_at(areas, y) == 0,
    decreases areas.len(),
{
    if areas.len() > 0 {
        tallest_of_empty_row(areas.drop_last(), y);
    }
}

/// Where the packing stands: next free x on the current shelf, the shelf's top, and the
/// height of its tallest glyph.
pub struct Shelf {
    pub x: int,
    pub y: int,
    pub row_height: int,
}

/// The shelf after moving to a fresh one below the current shelf. A shelf that would start
/// below the texture is recorded as starting at its bottom edge: nothing fits there either way.
pub open spec fn next_shelf(s: Shelf) -> Shelf {
    let below = s.y + s.row_height + 1;
    Shelf { x: 0, y: if below > ATLAS_SIZE { ATLAS_SIZE as int } else { below }, row_height: 0 }
}

/// The shelf that a `w`-wide request is tried on: the current one if `w` fits in what is left
/// of it (with the one-texel space), else a fresh one.
pub open spec fn shelf_for(s: Shelf, w: int) -> Shelf {
    if s.x + w + 1 > ATLAS_SIZE { next_shelf(s) } else { s }
}

/// Whether a `w`×`h` request succeeds from packing state `s`.
pub open spec fn fits(s: Shelf, w: int, h: int) -> bool {
    let t = shelf_for(s, w);
    t.y + h + 1 <= ATLAS_SIZE && w <= ATLAS_SIZE
}

/// The packing state after a `w`×`h` request from `s`.
pub open spec fn after_request(s: Shelf, w: int, h: int) -> Shelf {
    let t = shelf_for(s, w);
    if fits(s, w, h) {
        Shelf { x: t.x + w + 1, y: t.y, row_height: if h > t.row_height { h } else { t.row_height } }
    } else {
        t
    }
}

/// Packs glyph bitmaps into a square texture of [`ATLAS_SIZE`] texels.
pub struct Atlas {
    x: u32,
    y: u32,
    row_height: u32,
    /// Every area handed out so far, in order.
    placed: Ghost<Seq<Area>>,
}

impl Atlas {
    /// The packing state.
    pub closed spec fn shelf(&self) -> Shelf {
        Shelf { x: self.x as int, y: self.y as int, row_height: self.row_height as int }
    }

    /// Every area handed out so far, oldest first.
    pub closed spec fn placed(&self) -> Seq<Area> {
        self.placed@
    }

    /// The packing invariant: each placed area lies inside the texture, above the current
    /// shelf or to the left of the cursor on it, and any two of them are apart.
    pub closed spec fn wf(&self) -> bool {
        &&& self.x <= ATLAS_SIZE + 1
        &&& self.y <= ATLAS_SIZE
        &&& self.row_height < ATLAS_SIZE
        &&& self.row_height == tallest_at(self.placed@, self.y as int)
        &&& self.x == shelf_end(self.placed@, self.y as int)
        &&& forall|i: int| 0 <= i < self.placed@.len() ==> #[trigger] area_inside(self.placed@[i])
        &&& forall|i: int|
            0 <= i < self.placed@.len() ==> {
                let a = #[trigger] self.placed@[i];
                ||| a.1 + a.3 < self.y
                ||| (a.1 == self.y && a.0 + a.2 < self.x && a.3 <= self.row_height)
            }
        &&& forall|i: int, j: int|
            0 <= i < self.placed@.len() && 0 <= j < self.placed@.len() && i != j ==> areas_apart(
                #[trigger] self.placed@[i],
                #[trigger] self.placed@[j],
            )
    }

    /// An empty atlas.
    pub fn new() -> (a: Atlas)
        ensures
            a.wf(),
            a.shelf() == (Shelf { x: 0, y: 0, row_height: 0 }),
            a.placed() == Seq::<Area>::empty(),
    {
        Atlas { x: 0, y: 0, row_height: 0, placed: Ghost(Seq::empty()) }
    }

    /// Finds room for a `w`×`h` bitmap and returns its top-left corner, or `None` when the
    /// texture has no room left for it.
    pub fn allocate(&mut self, w: u32, h: u32) -> (at: Option<(u32, u32)>)
        requires
            old(self).wf(),
        ensures
            final(self).wf(),
            final(self).shelf() == after_request(old(self).shelf(), w as int, h as int),
            at is Some <==> fits(old(self).shelf(), w as int, h as int),
            at matches Some((ax, ay)) ==> {
                let t = shelf_for(old(self).shelf(), w as int);
                &&& ax == if ay == old(self).shelf().y {
                    shelf_end(old(self).placed(), old(self).shelf().y)
                } else {
                    0
                }
                &&& (ay != old(self).shelf().y ==> ay == old(self).shelf().y + tallest_at(
                    old(self).placed(),
                    old(self).shelf().y,
                ) + 1)
                &&& ax == t.x
                &&& ay == t.y
                &&& area_inside((ax as int, ay as int, w as int, h as int))
                &&& forall|i: int|
                    0 <= i < old(self).placed().len() ==> areas_apart(
                        #[trigger] old(self).placed()[i],
                        (ax as int, ay as int, w as int, h as int),
                    )
                &&& final(self).placed() == old(self).placed().push(
                    (ax as int, ay as int, w as int, h as int),
                )
            },
            at is None ==> final(self).placed() == old(self).placed(),
    {
        let ghost before = self.placed@;
        proof {
            shelf_end_nonneg(before, self.y as int);
        }
        if (self.x as u64) + (w as u64) + 1 > ATLAS_SIZE as u64 {
            let below = (self.y as u64) + (self.row_height as u64) + 1;
            self.x = 0;
            self.y = if below > ATLAS_SIZE as u64 { ATLAS_SIZE } else { below as u32 };
            self.row_height = 0;
            assert forall|i: int| 0 <= i < before.len() implies (#[trigger] before[i]).1 + before[i].3
                < self.y by {
                assert(area_inside(before[i]));
            }
            assert forall|i: int| 0 <= i < before.len() implies (#[trigger] before[i]).1 != self.y by {
                assert(area_inside(before[i]));
            }
            proof {
                tallest_of_empty_row(before, self.y as int);
                shelf_end_of_empty_row(before, self.y as int);
            }
        }
        if (self.y as u64) + (h as u64) + 1 > ATLAS_SIZE as u64 || w > ATLAS_SIZE {
            return None;
        }
        let at = (self.x, self.y);
        let ghost area: Area = (self.x as int, self.y as int, w as int, h as int);
        assert forall|i: int| 0 <= i < before.len() implies areas_apart(#[trigger] before[i], area) by {
            let a = before[i];
            if a.1 + a.3 < self.y {
            } else {
                assert(a.0 + a.2 < self.x);
            }
        }
        self.x = self.x + w + 1;
        if h > self.row_height {
            self.row_height = h;
        }
        self.placed = Ghost(before.push(area));
        proof {
            tallest_after_push(before, area, self.y as int);
            shelf_end_after_push(before, area, self.y as int);
        }
        assert forall|i: int, j: int|
            0 <= i < self.placed@.len() && 0 <= j < self.placed@.len() && i != j implies areas_apart(
            #[trigger] self.placed@[i],
            #[trigger] self.placed@[j],
        ) by {
            if i == before.len() {
                assert(areas_apart(before[j], area));
            } else if j == before.len() {
                assert(areas_apart(before[i], area));
            } else {
                assert(self.placed@[i] == before[i]);
                assert(self.placed@[j] == before[j]);
            }
        }
        assert forall|i: int| 0 <= i < self.placed@.len() implies #[trigger] area_inside(
            self.placed@[i],
        ) by {
            if i < before.len() {
                assert(self.placed@[i] == before[i]);
            }
        }
        Some(at)
    }

    /// The atlas slot for a glyph bitmap of `w`×`h` texels. Only coverage masks (not color
    /// glyphs such as emoji) with some area are placed; anything else gets no slot and leaves
    /// the atlas as it was.
    pub fn place_glyph(&mut self, is_mask: bool, w: u32, h: u32) -> (at: Option<(u32, u32)>)
        requires
            old(self).wf(),
        ensures
            final(self).wf(),
            !is_mask || w == 0 || h == 0 ==> at is None && final(self).shelf() == old(self).shelf()
                && final(self).placed() == old(self).placed(),
            is_mask && w != 0 && h != 0 ==> {
                &&& final(self).shelf() == after_request(old(self).shelf(), w as int, h as int)
                &&& (at is Some <==> fits(old(self).shelf(), w as int, h as int))
                &&& at matches Some((ax, ay)) ==> final(self).placed() == old(self).placed().push(
                    (ax as int, ay as int, w as int, h as int),
                )
                &&& at is None ==> final(self).placed() == old(self).placed()
            },
    {
        if !is_mask || w == 0 || h == 0 {
            return None;
        }
        self.allocate(w, h)
    }
}

/// No two areas the atlas has handed out overlap, or even touch.
pub proof fn placed_areas_never_overlap(a: &Atlas)
    requires
        a.wf(),
    ensures
        forall|i: int, j: int|
            0 <= i < a.placed().len() && 0 <= j < a.placed().len() && i != j ==> areas_apart(
                #[trigger] a.placed()[i],
                #[trigger] a.placed()[j],
            ),
{
}

/// A shelf is exactly as tall as the tallest area placed on it: a fresh shelf starts empty, and
/// the next shelf starts one texel below the bottom of the tallest area of the current one.
pub proof fn shelf_is_as_tall_as_its_tallest_area(a: &Atlas)
    requires
        a.wf(),
    ensures
        a.shelf().row_height == tallest_at(a.placed(), a.shelf().y),
        next_shelf(a.shelf()).y == if a.shelf().y + tallest_at(a.placed(), a.shelf().y) + 1 > ATLAS_SIZE {
            ATLAS_SIZE as int
        } else {
            a.shelf().y + tallest_at(a.placed(), a.shelf().y) + 1
        },
        next_shelf(a.shelf()).row_height == 0,
{
}

/// Areas are packed left to right without gaps: the next area on the current shelf goes one
/// texel right of the areas already on it, and a fresh shelf starts at the left edge.
pub proof fn shelf_packs_left_to_right(a: &Atlas)
    requires
        a.wf(),
    ensures
        a.shelf().x == shelf_end(a.placed(), a.shelf().y),
        next_shelf(a.shelf()).x == 0,
{
}

/// Every area the atlas has handed out lies inside the texture.
pub proof fn placed_areas_inside_texture(a: &Atlas)
    requires
        a.wf(),
    ensures
        forall|i: int| 0 <= i < a.placed().len() ==> #[trigger] area_inside(a.placed()[i]),
{
}

} // verus!
