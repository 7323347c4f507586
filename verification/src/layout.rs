//! Resolving the pointer against the last frame's element tree: which element is under it,
//! which one a click goes to, which cursor shows.
//!
//! The tree is kept in paint order, parents before their children, so a node's parent always
//! has a smaller index. Whether a node's box contains the pointer is measured by the caller
//! (boxes are in float pixels) and handed in as one flag per node.
use vstd::prelude::*;
use crate::element::Cursor;

verus! {

/// What the pointer logic needs to know of one laid-out element.
#[derive(Clone, Copy, Debug)]
pub struct HitNode {
    /// The enclosing element, if any.
    pub parent: Option<usize>,
    /// Whether the element has a click handler.
    pub clickable: bool,
    /// The cursor the element asks for.
    pub cursor: Cursor,
}

/// `i` and all its ancestors, innermost first.
pub open spec fn ancestors(nodes: Seq<HitNode>, i: int) -> Seq<usize>
    decreases i,
{
    if 0 <= i < nodes.len() {
        match nodes[i].parent {
            Some(p) => if p < i {
                seq![i as usize] + ancestors(nodes, p as int)
            } else {
                seq![i as usize]
            },
            None => seq![i as usize],
        }
    } else {
        Seq::empty()
    }
}

/// The innermost of `i` and its ancestors that has a click handler.
pub open spec fn nearest_clickable(nodes: Seq<HitNode>, i: int) -> Option<usize>
    decreases i,
{
    if 0 <= i < nodes.len() {
        if nodes[i].clickable {
            Some(i as usize)
        } else {
            match nodes[i].parent {
                Some(p) => if p < i {
                    nearest_clickable(nodes, p as int)
                } else {
                    None
                },
                None => None,
            }
        }
    } else {
        None
    }
}

/// The cursor of the innermost of `i` and its ancestors that asks for one other than the
/// default, or the default.
pub open spec fn nearest_cursor(nodes: Seq<HitNode>, i: int) -> Cursor
    decreases i,
{
    if 0 <= i < nodes.len() {
        if nodes[i].cursor != Cursor::Default {
            nodes[i].cursor
        } else {
            match nodes[i].parent {
                Some(p) => if p < i {
                    nearest_cursor(nodes, p as int)
                } else {
                    Cursor::Default
                },
                None => Cursor::Default,
            }
        }
    } else {
        Cursor::Default
    }
}

/// The frontmost element under the pointer: the last one in paint order whose box contains it.
pub open spec fn is_topmost(hits: Seq<bool>, top: Option<usize>) -> bool {
    match top {
        Some(i) => i < hits.len() && hits[i as int] && forall|j: int| i < j < hits.len() ==> !hits[j],
        None => forall|j: int| 0 <= j < hits.len() ==> !hits[j],
    }
}

/// The result of laying out one frame, as the pointer logic sees it.
pub struct Laid {
    nodes: Vec<HitNode>,
}

impl View for Laid {
    type V = Seq<HitNode>;

    closed spec fn view(&self) -> Seq<HitNode> {
        self.nodes@
    }
}

/// Every parent comes before its child.
pub open spec fn parents_first(nodes: Seq<HitNode>) -> bool {
    forall|i: int| 0 <= i < nodes.len() ==> match #[trigger] nodes[i].parent {
        Some(p) => p < i,
        None => true,
    }
}

impl Laid {
    pub open spec fn wf(&self) -> bool {
        parents_first(self@)
    }

    /// An empty tree.
    pub fn new() -> (l: Laid)
        ensures
            l.wf(),
            l@ == Seq::<HitNode>::empty(),
    {
        Laid { nodes: Vec::new() }
    }

    /// Appends an element in paint order and returns its index. Its parent must already be in
    /// the tree.
    pub fn push(&mut self, node: HitNode) -> (index: usize)
        requires
            old(self).wf(),
            node.parent matches Some(p) ==> p < old(self)@.len(),
        ensures
            final(self).wf(),
            final(self)@ == old(self)@.push(node),
            index == old(self)@.len(),
    {
        let index = self.nodes.len();
        self.nodes.push(node);
        index
    }

    pub fn len(&self) -> (n: usize)
        ensures
            n == self@.len(),
    {
        self.nodes.len()
    }

    /// Whether element `index` has a click handler.
    pub fn handler(&self, index: usize) -> (has: bool)
        requires
            index < self@.len(),
        ensures
            has == self@[index as int].clickable,
    {
        self.nodes[index].clickable
    }

    /// The frontmost element under the pointer, given for each element whether its box
    /// contains the pointer.
    pub fn topmost_at(&self, hits: &Vec<bool>) -> (top: Option<usize>)
        requires
            hits.len() == self@.len(),
        ensures
            is_topmost(hits@, top),
    {
        let mut i = hits.len();
        while i > 0
            invariant
                i <= hits.len(),
                forall|j: int| i <= j < hits.len() ==> !hits@[j],
            decreases i,
        {
            i = i - 1;
            if hits[i] {
                return Some(i);
            }
        }
        None
    }

    /// `index` and all its ancestors, innermost first.
    pub fn chain(&self, index: Option<usize>) -> (c: Vec<usize>)
        requires
            self.wf(),
        ensures
            c@ == match index {
                Some(i) => ancestors(self@, i as int),
                None => Seq::empty(),
            },
    {
        let mut out: Vec<usize> = Vec::new();
        let mut cur = index;
        let ghost start = index;
        while cur.is_some()
            invariant
                self.wf(),
                match start {
                    Some(s) => ancestors(self@, s as int) == out@ + match cur {
                        Some(c) => ancestors(self@, c as int),
                        None => Seq::empty(),
                    },
                    None => out@ == Seq::<usize>::empty() && cur is None,
                },
            decreases
                match cur {
                    Some(c) => c as int + 1,
                    None => 0,
                },
        {
            let c = cur.unwrap();
            if c >= self.nodes.len() {
                proof {
                    assert(ancestors(self@, c as int) == Seq::<usize>::empty());
                    assert(out@ + Seq::<usize>::empty() =~= out@);
                }
                cur = None;
            } else {
                let ghost before = out@;
                out.push(c);
                let next = self.nodes[c].parent;
                proof {
                    assert(self@[c as int].parent == next);
                    match next {
                        Some(p) => {
                            assert(p < c);
                            assert(ancestors(self@, c as int) == seq![c] + ancestors(self@, p as int));
                            assert(before + ancestors(self@, c as int) =~= out@ + ancestors(self@, p as int));
                        },
                        None => {
                            assert(ancestors(self@, c as int) == seq![c]);
                            assert(before + ancestors(self@, c as int) =~= out@ + Seq::<usize>::empty());
                        },
                    }
                }
                cur = next;
            }
        }
        proof {
            if let Some(s) = start {
                assert(out@ + Seq::<usize>::empty() =~= out@);
            }
        }
        out
    }

    /// The innermost element with a click handler among `index` and its ancestors.
    pub fn nearest_clickable(&self, index: Option<usize>) -> (r: Option<usize>)
        requires
            self.wf(),
        ensures
            r == match index {
                Some(i) => nearest_clickable(self@, i as int),
                None => None,
            },
    {
        let mut cur = index;
        let ghost start = index;
        while cur.is_some()
            invariant
                self.wf(),
                start == index,
                match start {
                    Some(s) => nearest_clickable(self@, s as int) == match cur {
                        Some(c) => nearest_clickable(self@, c as int),
                        None => None,
                    },
                    None => cur is None,
                },
            decreases
                match cur {
                    Some(c) => c as int + 1,
                    None => 0,
                },
        {
            let c = cur.unwrap();
            if c >= self.nodes.len() {
                return None;
            }
            if self.nodes[c].clickable {
                assert(self@[c as int].clickable);
                return Some(c);
            }
            assert(!self@[c as int].clickable);
            let next = self.nodes[c].parent;
            proof {
                assert(self@[c as int].parent == next);
            }
            cur = next;
        }
        None
    }

    /// The element that would receive a click where `hits` says the pointer is: the frontmost
    /// one with a handler, looking up through its ancestors.
    pub fn click_target(&self, hits: &Vec<bool>) -> (r: Option<usize>)
        requires
            self.wf(),
            hits.len() == self@.len(),
        ensures
            exists|top: Option<usize>| {
                &&& #[trigger] is_topmost(hits@, top)
                &&& r == match top {
                    Some(i) => nearest_clickable(self@, i as int),
                    None => None,
                }
            },
    {
        let top = self.topmost_at(hits);
        let r = self.nearest_clickable(top);
        assert(is_topmost(hits@, top));
        r
    }

    /// The cursor to show where `hits` says the pointer is: that of the innermost element
    /// under it that asks for one.
    pub fn cursor_at(&self, hits: &Vec<bool>) -> (c: Cursor)
        requires
            self.wf(),
            hits.len() == self@.len(),
        ensures
            exists|top: Option<usize>| {
                &&& #[trigger] is_topmost(hits@, top)
                &&& c == match top {
                    Some(i) => nearest_cursor(self@, i as int),
                    None => Cursor::Default,
                }
            },
    {
        let top = self.topmost_at(hits);
        let ghost start = top;
        let mut cur = top;
        assert(is_topmost(hits@, top));
        while cur.is_some()
            invariant
                self.wf(),
                is_topmost(hits@, start),
                match start {
                    Some(s) => nearest_cursor(self@, s as int) == match cur {
                        Some(c) => nearest_cursor(self@, c as int),
                        None => Cursor::Default,
                    },
                    None => cur is None,
                },
            decreases
                match cur {
                    Some(c) => c as int + 1,
                    None => 0,
                },
        {
            let c = cur.unwrap();
            if c >= self.nodes.len() {
                return Cursor::Default;
            }
            let here = self.nodes[c].cursor;
            assert(self@[c as int].cursor == here);
            if here != Cursor::Default {
                return here;
            }
            let next = self.nodes[c].parent;
            proof {
                assert(self@[c as int].parent == next);
            }
            cur = next;
        }
        Cursor::Default
    }

    /// The elements painted as hovered where `hits` says the pointer is: the frontmost one
    /// under it and all its ancestors.
    pub fn hovered(&self, hits: &Vec<bool>) -> (h: Vec<usize>)
        requires
            self.wf(),
            hits.len() == self@.len(),
        ensures
            exists|top: Option<usize>| {
                &&& #[trigger] is_topmost(hits@, top)
                &&& h@ == match top {
                    Some(i) => ancestors(self@, i as int),
                    None => Seq::empty(),
                }
            },
    {
        let top = self.topmost_at(hits);
        assert(is_topmost(hits@, top));
        self.chain(top)
    }
}

/// A click goes to the innermost element with a click handler: walking up from the frontmost
/// element `i` through its ancestors, the click target is the first element met that has a
/// handler, none before it has one, and there is no target only when none on the way has one.
/// In particular, when `i` itself has a handler, the click goes to `i`.
pub proof fn click_goes_to_innermost_handler(nodes: Seq<HitNode>, i: int)
    requires
        parents_first(nodes),
        nodes.len() <= usize::MAX,
    ensures
        0 <= i < nodes.len() && nodes[i].clickable ==> nearest_clickable(nodes, i) == Some(i as usize),
        nearest_clickable(nodes, i) matches Some(k) ==> exists|j: int|
            0 <= j < ancestors(nodes, i).len() && #[trigger] ancestors(nodes, i)[j] == k
                && nodes[k as int].clickable && forall|m: int|
                0 <= m < j ==> !nodes[#[trigger] ancestors(nodes, i)[m] as int].clickable,
        nearest_clickable(nodes, i) is None ==> forall|m: int|
            0 <= m < ancestors(nodes, i).len() ==> !nodes[#[trigger] ancestors(nodes, i)[m] as int].clickable,
    decreases i,
{
    if 0 <= i < nodes.len() {
        let anc = ancestors(nodes, i);
        match nodes[i].parent {
            Some(p) => {
                assert(p < i);
                let rest = ancestors(nodes, p as int);
                assert(anc == seq![i as usize] + rest);
                click_goes_to_innermost_handler(nodes, p as int);
                if nodes[i].clickable {
                    assert(anc[0] == i as usize);
                } else {
                    match nearest_clickable(nodes, p as int) {
                        Some(k) => {
                            let j = choose|j: int|
                                0 <= j < rest.len() && #[trigger] rest[j] == k && nodes[k as int].clickable
                                    && forall|m: int| 0 <= m < j ==> !nodes[#[trigger] rest[m] as int].clickable;
                            assert(anc[j + 1] == k);
                            assert forall|m: int| 0 <= m < j + 1 implies !nodes[#[trigger] anc[m] as int].clickable by {
                                if m > 0 {
                                    assert(anc[m] == rest[m - 1]);
                                }
                            }
                        },
                        None => {
                            assert forall|m: int| 0 <= m < anc.len() implies !nodes[#[trigger] anc[m] as int].clickable by {
                                if m > 0 {
                                    assert(anc[m] == rest[m - 1]);
                                }
                            }
                        },
                    }
                }
            },
            None => {
                assert(anc == seq![i as usize]);
                if nodes[i].clickable {
                    assert(anc[0] == i as usize);
                }
            },
        }
    }
}

/// The cursor shown is that of the innermost element asking for one: walking up from the
/// frontmost element `i` through its ancestors, it is the cursor of the first element met whose
/// cursor is not the default, and the default only when none on the way asks for another. In
/// particular, when `i` itself asks for a cursor, that cursor shows.
pub proof fn cursor_comes_from_innermost_element(nodes: Seq<HitNode>, i: int)
    requires
        parents_first(nodes),
        nodes.len() <= usize::MAX,
    ensures
        0 <= i < nodes.len() && nodes[i].cursor != Cursor::Default ==> nearest_cursor(nodes, i) == nodes[i].cursor,
        nearest_cursor(nodes, i) != Cursor::Default ==> exists|j: int|
            0 <= j < ancestors(nodes, i).len() && nodes[#[trigger] ancestors(nodes, i)[j] as int].cursor
                == nearest_cursor(nodes, i) && forall|m: int|
                0 <= m < j ==> nodes[#[trigger] ancestors(nodes, i)[m] as int].cursor == Cursor::Default,
        nearest_cursor(nodes, i) == Cursor::Default ==> forall|m: int|
            0 <= m < ancestors(nodes, i).len() ==> nodes[#[trigger] ancestors(nodes, i)[m] as int].cursor
                == Cursor::Default,
    decreases i,
{
    if 0 <= i < nodes.len() {
        let anc = ancestors(nodes, i);
        match nodes[i].parent {
            Some(p) => {
                assert(p < i);
                let rest = ancestors(nodes, p as int);
                assert(anc == seq![i as usize] + rest);
                cursor_comes_from_innermost_element(nodes, p as int);
                if nodes[i].cursor != Cursor::Default {
                    assert(anc[0] == i as usize);
                } else if nearest_cursor(nodes, p as int) != Cursor::Default {
                    let c = nearest_cursor(nodes, p as int);
                    let j = choose|j: int|
                        0 <= j < rest.len() && nodes[#[trigger] rest[j] as int].cursor == c && forall|m: int|
                            0 <= m < j ==> nodes[#[trigger] rest[m] as int].cursor == Cursor::Default;
                    assert(anc[j + 1] == rest[j]);
                    assert forall|m: int| 0 <= m < j + 1 implies nodes[#[trigger] anc[m] as int].cursor
                        == Cursor::Default by {
                        if m > 0 {
                            assert(anc[m] == rest[m - 1]);
                        }
                    }
                } else {
                    assert forall|m: int| 0 <= m < anc.len() implies nodes[#[trigger] anc[m] as int].cursor
                        == Cursor::Default by {
                        if m > 0 {
                            assert(anc[m] == rest[m - 1]);
                        }
                    }
                }
            },
            None => {
                assert(anc == seq![i as usize]);
                assert(anc[0] == i as usize);
            },
        }
    }
}

/// A click goes to an element that is painted as hovered and has a handler: the element that
/// receives a click at the frontmost element `i` is `i` itself or one of its ancestors.
pub proof fn click_target_is_hovered(nodes: Seq<HitNode>, i: int)
    requires
        parents_first(nodes),
        nodes.len() <= usize::MAX,
    ensures
        nearest_clickable(nodes, i) matches Some(k) ==> {
            &&& ancestors(nodes, i).contains(k)
            &&& nodes[k as int].clickable
        },
    decreases i,
{
    if 0 <= i < nodes.len() && !nodes[i].clickable {
        if let Some(p) = nodes[i].parent {
            assert(p < i);
            click_target_is_hovered(nodes, p as int);
            if let Some(k) = nearest_clickable(nodes, p as int) {
                let rest = ancestors(nodes, p as int);
                let j = choose|j: int| 0 <= j < rest.len() && rest[j] == k;
                assert(ancestors(nodes, i) == seq![i as usize] + rest);
                assert(ancestors(nodes, i)[j + 1] == k);
            }
        }
    } else if 0 <= i < nodes.len() {
        assert(ancestors(nodes, i)[0] == i as usize);
    }
}

/// Every element of a chain of ancestors is an element of the tree, and each one after the
/// first is the parent of the one before it.
pub proof fn chain_follows_parents(nodes: Seq<HitNode>, i: int)
    requires
        parents_first(nodes),
        nodes.len() <= usize::MAX,
    ensures
        forall|j: int| 0 <= j < ancestors(nodes, i).len() ==> #[trigger] ancestors(nodes, i)[j] < nodes.len(),
        forall|j: int|
            0 <= j < ancestors(nodes, i).len() - 1 ==> nodes[ancestors(nodes, i)[j] as int].parent
                == Some(#[trigger] ancestors(nodes, i)[j + 1]),
        0 <= i < nodes.len() ==> ancestors(nodes, i).len() > 0 && ancestors(nodes, i)[0] == i,
        ancestors(nodes, i).len() > 0 ==> nodes[ancestors(nodes, i).last() as int].parent is None,
    decreases i,
{
    if 0 <= i < nodes.len() {
        if let Some(p) = nodes[i].parent {
            assert(p < i);
            chain_follows_parents(nodes, p as int);
            let rest = ancestors(nodes, p as int);
            assert(ancestors(nodes, i) == seq![i as usize] + rest);
            assert forall|j: int| 0 <= j < ancestors(nodes, i).len() - 1 implies nodes[ancestors(
                nodes,
                i,
            )[j] as int].parent == Some(#[trigger] ancestors(nodes, i)[j + 1]) by {
                if j > 0 {
                    assert(ancestors(nodes, i)[j] == rest[j - 1]);
                    assert(ancestors(nodes, i)[j + 1] == rest[j]);
                    assert(nodes[rest[j - 1] as int].parent == Some(rest[(j - 1) + 1]));
                } else {
                    assert(rest[0] == p);
                    assert(ancestors(nodes, i)[1] == rest[0]);
                }
            }
            assert forall|j: int| 0 <= j < ancestors(nodes, i).len() implies #[trigger] ancestors(
                nodes,
                i,
            )[j] < nodes.len() by {
                if j > 0 {
                    assert(ancestors(nodes, i)[j] == rest[j - 1]);
                }
            }
        }
    }
}

/// The fill an element is painted with: its hover fill (falling back to its plain one) while
/// hovered, else its plain fill.
pub fn paint_fill<C: Copy>(hovered: bool, hover: Option<C>, base: Option<C>) -> (fill: Option<C>)
    ensures
        fill == if hovered && hover is Some { hover } else { base },
{
    if hovered {
        match hover {
            Some(c) => Some(c),
            None => base,
        }
    } else {
        base
    }
}

} // verus!
