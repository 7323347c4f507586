//! Element identity and the small enums that describe how an element is laid out and shown.
use std::collections::hash_map::DefaultHasher;
use std::hash::Hasher;
use vstd::std_specs::hash::DefaultHasherAdditionalSpecFns;
use vstd::string::StringSliceAdditionalSpecFns;
use vstd::prelude::*;

verus! {

/// Direction of a container's main axis.
#[derive(Clone, Copy, Debug, PartialEq, Eq, Structural)]
pub enum Direction {
    Row,
    Column,
}

/// Placement across the main axis' perpendicular ("cross axis").
#[derive(Clone, Copy, Debug, PartialEq, Eq, Structural)]
pub enum Align {
    Start,
    End,
    Center,
    Stretch,
}

/// Placement along the main axis.
#[derive(Clone, Copy, Debug, PartialEq, Eq, Structural)]
pub enum Justify {
    Start,
    End,
    Center,
    SpaceBetween,
    SpaceAround,
    SpaceEvenly,
}

/// What happens to content that does not fit inside an element.
#[derive(Clone, Copy, Debug, PartialEq, Eq, Structural)]
pub enum Overflow {
    /// Drawn outside the element's box.
    Visible,
    /// Cut off at the element's box.
    Hidden,
    /// Cut off, and scrollable with the wheel or trackpad.
    Scroll,
}

impl Overflow {
    /// `self`, with visible turned into hidden.
    pub open spec fn max_hidden_spec(self) -> Overflow {
        if self == Overflow::Visible { Overflow::Hidden } else { self }
    }

    /// Clipping applies on both axes, so an axis left visible becomes hidden.
    pub fn max_hidden(self) -> (r: Overflow)
        ensures
            r == self.max_hidden_spec(),
            r != Overflow::Visible,
    {
        if self == Overflow::Visible {
            Overflow::Hidden
        } else {
            self
        }
    }
}

/// How an element treats overflowing content on each axis.
#[derive(Clone, Copy, Debug, PartialEq, Eq, Structural)]
pub struct OverflowAxes {
    pub x: Overflow,
    pub y: Overflow,
}

impl OverflowAxes {
    /// Content drawn outside the box on both axes (the default).
    pub fn visible() -> (a: OverflowAxes)
        ensures
            a == (OverflowAxes { x: Overflow::Visible, y: Overflow::Visible }),
    {
        OverflowAxes { x: Overflow::Visible, y: Overflow::Visible }
    }

    /// Content cut off at the box on both axes.
    pub fn hidden(self) -> (a: OverflowAxes)
        ensures
            a == (OverflowAxes { x: Overflow::Hidden, y: Overflow::Hidden }),
    {
        OverflowAxes { x: Overflow::Hidden, y: Overflow::Hidden }
    }

    /// Scrolls vertically; clipping applies on both axes, so a visible x axis becomes hidden.
    pub fn scroll_y(self) -> (a: OverflowAxes)
        ensures
            a.y == Overflow::Scroll,
            a.x == self.x.max_hidden_spec(),
            a.x != Overflow::Visible,
    {
        OverflowAxes { x: self.x.max_hidden(), y: Overflow::Scroll }
    }

    /// Scrolls horizontally; a visible y axis becomes hidden.
    pub fn scroll_x(self) -> (a: OverflowAxes)
        ensures
            a.x == Overflow::Scroll,
            a.y == self.y.max_hidden_spec(),
            a.y != Overflow::Visible,
    {
        OverflowAxes { x: Overflow::Scroll, y: self.y.max_hidden() }
    }
}

/// The byte chunks that [`ElementId::new`] feeds to the hasher for a name: its UTF-8 bytes,
/// then the single terminator byte `0xff` that `str`'s hashing appends.
pub open spec fn id_hash_input(name: &str) -> Seq<Seq<u8>> {
    seq![name.spec_bytes(), seq![0xffu8]]
}

/// Identifies an element across frames (for scroll positions). Made from a name.
#[derive(Clone, Copy, Debug, PartialEq, Eq, Structural, Hash)]
pub struct ElementId(pub u64);

impl ElementId {
    /// The id of the element called `name`: the standard library's default hash of the string,
    /// exactly as `name.hash(&mut DefaultHasher::new())` computes it.
    pub fn new(name: &str) -> (id: ElementId)
        ensures
            id.0 == DefaultHasher::spec_finish(id_hash_input(name)),
    {
        let mut hasher = DefaultHasher::new();
        hasher.write(name.as_bytes());
        let terminator: [u8; 1] = [0xff];
        let tail: &[u8] = &terminator;
        assert(tail@ =~= seq![0xffu8]);
        hasher.write(tail);
        assert(hasher@ =~= id_hash_input(name));
        ElementId(hasher.finish())
    }
}

/// Equal names give equal ids, in every frame: the id is a function of the name alone.
pub proof fn same_name_same_id(a: &str, b: &str)
    requires
        a@ == b@,
    ensures
        DefaultHasher::spec_finish(id_hash_input(a)) == DefaultHasher::spec_finish(id_hash_input(b)),
{
}

/// The mouse cursor shown over an element.
#[derive(Clone, Copy, Debug, PartialEq, Eq, Structural)]
pub enum Cursor {
    Default,
    Pointer,
    Text,
}

impl Default for Cursor {
    fn default() -> (c: Cursor)
        ensures
            c == Cursor::Default,
    {
        Cursor::Default
    }
}

} // verus!
