//! Planning a frame's draw calls: neighbouring items of the same kind, drawn under the same
//! clip and stored next to each other in their buffer, are drawn with one call.
use vstd::prelude::*;

verus! {

/// Which pipeline draws an item.
#[derive(Clone, Copy, Debug, PartialEq, Eq, Structural)]
pub enum BatchKind {
    Quads,
    Glyphs,
    Paths,
}

/// A run of instances (or vertices) `start..end` of one kind, drawn under one clip. `clip`
/// names the clip rectangle: items under equal clips carry equal names.
#[derive(Clone, Copy, Debug, PartialEq, Eq, Structural)]
pub struct Batch {
    pub kind: BatchKind,
    pub start: u32,
    pub end: u32,
    pub clip: u64,
}

/// `next` continues `last`: same kind and clip, and it starts where `last` ends.
pub open spec fn continues(last: Batch, next: Batch) -> bool {
    last.kind == next.kind && last.clip == next.clip && last.end == next.start
}

/// The batches for items in painting order: empty items are skipped, and an item that
/// continues the last batch extends it.
pub open spec fn batches_of(items: Seq<Batch>) -> Seq<Batch>
    decreases items.len(),
{
    if items.len() == 0 {
        Seq::empty()
    } else {
        let prev = batches_of(items.drop_last());
        let it = items.last();
        if it.start >= it.end {
            prev
        } else if prev.len() > 0 && continues(prev.last(), it) {
            prev.update(prev.len() - 1, Batch { end: it.end, ..prev.last() })
        } else {
            prev.push(it)
        }
    }
}

/// Groups a frame's items, in painting order, into draw calls.
pub fn plan_batches(items: &Vec<Batch>) -> (batches: Vec<Batch>)
    ensures
        batches@ == batches_of(items@),
{
    let mut batches: Vec<Batch> = Vec::new();
    let mut i: usize = 0;
    while i < items.len()
        invariant
            i <= items.len(),
            batches@ == batches_of(items@.take(i as int)),
        decreases items.len() - i,
    {
        let it = items[i];
        proof {
            assert(items@.take(i + 1).drop_last() =~= items@.take(i as int));
            assert(items@.take(i + 1).last() == it);
        }
        if it.start < it.end {
            let n = batches.len();
            if n > 0 && batches[n - 1].kind == it.kind && batches[n - 1].clip == it.clip
                && batches[n - 1].end == it.start {
                let last = batches[n - 1];
                batches.set(n - 1, Batch { kind: last.kind, start: last.start, end: it.end, clip: last.clip });
            } else {
                batches.push(it);
            }
        }
        i = i + 1;
    }
    assert(items@.take(items@.len() as int) =~= items@);
    batches
}

/// How many instances the batches draw.
pub open spec fn drawn(batches: Seq<Batch>) -> int
    decreases batches.len(),
{
    if batches.len() == 0 {
        0
    } else {
        drawn(batches.drop_last()) + (batches.last().end - batches.last().start)
    }
}

/// How many instances the items hold, empty ones counting nothing.
pub open spec fn held(items: Seq<Batch>) -> int
    decreases items.len(),
{
    if items.len() == 0 {
        0
    } else {
        let it = items.last();
        held(items.drop_last()) + if it.start < it.end { it.end - it.start } else { 0 }
    }
}

/// Batching draws everything and nothing twice: every batch is non-empty, no batch continues
/// the one before it (so none could have been merged), and the batches draw exactly as many
/// instances as the items hold.
pub proof fn batching_draws_every_item_once(items: Seq<Batch>)
    ensures
        forall|k: int| 0 <= k < batches_of(items).len() ==> #[trigger] batches_of(items)[k].start
            < batches_of(items)[k].end,
        forall|k: int|
            0 < k < batches_of(items).len() ==> !continues(
                batches_of(items)[k - 1],
                #[trigger] batches_of(items)[k],
            ),
        drawn(batches_of(items)) == held(items),
    decreases items.len(),
{
    if items.len() > 0 {
        let rest = items.drop_last();
        batching_draws_every_item_once(rest);
        let prev = batches_of(rest);
        let it = items.last();
        if it.start >= it.end {
        } else if prev.len() > 0 && continues(prev.last(), it) {
            let now = batches_of(items);
            assert(now.drop_last() =~= prev.drop_last());
            assert forall|k: int| 0 < k < now.len() implies !continues(now[k - 1], #[trigger] now[k]) by {
                if k < now.len() - 1 {
                    assert(now[k] == prev[k]);
                    assert(now[k - 1] == prev[k - 1]);
                } else {
                    assert(now[k - 1] == prev[k - 1]);
                    assert(!continues(prev[k - 1], prev[k]));
                }
            }
            assert forall|k: int| 0 <= k < now.len() implies #[trigger] now[k].start < now[k].end by {
                if k < now.len() - 1 {
                    assert(now[k] == prev[k]);
                }
            }
        } else {
            let now = batches_of(items);
            assert(now.drop_last() =~= prev);
            assert forall|k: int| 0 < k < now.len() implies !continues(now[k - 1], #[trigger] now[k]) by {
                if k < now.len() - 1 {
                    assert(now[k] == prev[k]);
                    assert(now[k - 1] == prev[k - 1]);
                } else {
                    assert(now[k - 1] == prev[k - 1]);
                }
            }
            assert forall|k: int| 0 <= k < now.len() implies #[trigger] now[k].start < now[k].end by {
                if k < now.len() - 1 {
                    assert(now[k] == prev[k]);
                }
            }
        }
    }
}

/// `b` draws item `it`: same kind and clip, and `it`'s instances lie inside `b`'s range.
pub open spec fn draws(b: Batch, it: Batch) -> bool {
    b.kind == it.kind && b.clip == it.clip && b.start <= it.start && it.end <= b.end
}

/// Every batch is drawn with one kind and clip: each non-empty item is drawn by a batch of its
/// own kind and clip whose range holds the item's, and each batch begins exactly where an item
/// of its kind and clip begins.
pub proof fn each_item_is_drawn_by_a_batch_of_its_kind(items: Seq<Batch>)
    ensures
        forall|i: int|
            0 <= i < items.len() && items[i].start < items[i].end ==> exists|k: int|
                0 <= k < batches_of(items).len() && draws(#[trigger] batches_of(items)[k], #[trigger] items[i]),
        forall|k: int|
            0 <= k < batches_of(items).len() ==> exists|i: int|
                0 <= i < items.len() && (#[trigger] items[i]).kind == (#[trigger] batches_of(items)[k]).kind
                    && items[i].clip == batches_of(items)[k].clip && items[i].start == batches_of(items)[k].start,
    decreases items.len(),
{
    if items.len() > 0 {
        let rest = items.drop_last();
        each_item_is_drawn_by_a_batch_of_its_kind(rest);
        let prev = batches_of(rest);
        let now = batches_of(items);
        let it = items.last();
        let n = items.len() - 1;
        assert forall|i: int|
            0 <= i < items.len() && items[i].start < items[i].end implies exists|k: int|
                0 <= k < now.len() && draws(#[trigger] now[k], #[trigger] items[i]) by {
            if i < n {
                assert(items[i] == rest[i]);
                let k = choose|k: int| 0 <= k < prev.len() && draws(#[trigger] prev[k], rest[i]);
                if it.start >= it.end {
                    assert(draws(now[k], items[i]));
                } else if prev.len() > 0 && continues(prev.last(), it) {
                    assert(draws(now[k], items[i]));
                } else {
                    assert(now[k] == prev[k]);
                    assert(draws(now[k], items[i]));
                }
            } else {
                assert(items[i] == it);
                if prev.len() > 0 && continues(prev.last(), it) {
                    batching_draws_every_item_once(rest);
                    assert(prev[prev.len() - 1].start < prev[prev.len() - 1].end);
                    assert(draws(now[prev.len() - 1], items[i]));
                } else {
                    assert(draws(now[prev.len() as int], items[i]));
                }
            }
        }
        assert forall|k: int| 0 <= k < now.len() implies exists|i: int|
            0 <= i < items.len() && (#[trigger] items[i]).kind == (#[trigger] now[k]).kind && items[i].clip
                == now[k].clip && items[i].start == now[k].start by {
            if k < prev.len() {
                let i = choose|i: int|
                    0 <= i < rest.len() && (#[trigger] rest[i]).kind == (#[trigger] prev[k]).kind && rest[i].clip
                        == prev[k].clip && rest[i].start == prev[k].start;
                assert(items[i] == rest[i]);
                assert(now[k].kind == prev[k].kind && now[k].clip == prev[k].clip && now[k].start == prev[k].start);
            } else {
                assert(now[k] == it);
                assert(items[n] == it);
            }
        }
    }
}

/// The scissor rectangle `(x, y, w, h)` for a clip, on a `target_w`×`target_h` target. A clip
/// is given by its edges `(x0, y0, x1, y1)` in device pixels; no clip means the whole target.
/// The clip is cut to the target, and `None` means nothing of it is visible.
pub open spec fn spec_scissor(clip: Option<(u32, u32, u32, u32)>, target_w: u32, target_h: u32) -> Option<(u32, u32, u32, u32)> {
    match clip {
        None => Some((0, 0, target_w, target_h)),
        Some((a, b, c, d)) => {
            let x0 = if a < target_w { a } else { target_w };
            let y0 = if b < target_h { b } else { target_h };
            let x1 = if c < target_w { c } else { target_w };
            let y1 = if d < target_h { d } else { target_h };
            if x1 > x0 && y1 > y0 {
                Some((x0, y0, (x1 - x0) as u32, (y1 - y0) as u32))
            } else {
                None
            }
        },
    }
}

/// The scissor rectangle for a clip; see [`spec_scissor`]. It always lies inside the target.
pub fn scissor(clip: Option<(u32, u32, u32, u32)>, target_w: u32, target_h: u32) -> (r: Option<(u32, u32, u32, u32)>)
    ensures
        r == spec_scissor(clip, target_w, target_h),
        r matches Some((x, y, w, h)) ==> x + w <= target_w && y + h <= target_h,
{
    match clip {
        None => Some((0, 0, target_w, target_h)),
        Some((a, b, c, d)) => {
            let x0 = if a < target_w { a } else { target_w };
            let y0 = if b < target_h { b } else { target_h };
            let x1 = if c < target_w { c } else { target_w };
            let y1 = if d < target_h { d } else { target_h };
            if x1 > x0 && y1 > y0 {
                Some((x0, y0, x1 - x0, y1 - y0))
            } else {
                None
            }
        },
    }
}

} // verus!
