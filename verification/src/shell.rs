//! The window shell's own decisions: counting multi-clicks and scheduling wake-ups.
//!
//! Times are plain milliseconds on a clock the caller keeps; whether a press came close enough
//! in time and space to the previous one is measured by the caller.
use vstd::prelude::*;
use crate::event::MouseButton;

verus! {

/// How many clicks in a row a press of `button` makes: one more than the previous press when
/// that was of the same button and `close_to_last` says it came soon enough after it and near
/// enough to it; else a new series starts at one.
pub open spec fn spec_click_count(last: Option<(MouseButton, u32)>, button: MouseButton, close_to_last: bool) -> u32 {
    match last {
        Some((b, count)) => if b == button && close_to_last {
            (count + 1) as u32
        } else {
            1
        },
        None => 1,
    }
}

/// The click count of a press of `button`, given the button and count of the previous press
/// (if any) and whether this press came within the multi-click time and distance of it.
pub fn click_count(last: Option<(MouseButton, u32)>, button: MouseButton, close_to_last: bool) -> (count: u32)
    requires
        last matches Some((_, c)) ==> c < u32::MAX,
    ensures
        count == spec_click_count(last, button, close_to_last),
        count >= 1,
        !close_to_last ==> count == 1,
        last is None ==> count == 1,
        last matches Some((b, c)) ==> (b != button ==> count == 1) && (b == button && close_to_last ==> count == c + 1),
{
    match last {
        Some((b, c)) => {
            if b == button && close_to_last {
                c + 1
            } else {
                1
            }
        },
        None => 1,
    }
}

/// A press continues a series of clicks only when it is of the same button and close to the
/// last press in time and space; then its count is one more than the last one's. Any other press
/// (a slow or distant one, another button, or the first press) starts a new series at one.
pub proof fn clicks_count_up_only_when_close(last: Option<(MouseButton, u32)>, button: MouseButton, close_to_last: bool)
    requires
        last matches Some((_, c)) ==> c < u32::MAX,
    ensures
        !close_to_last ==> spec_click_count(last, button, close_to_last) == 1,
        last is None ==> spec_click_count(last, button, close_to_last) == 1,
        last matches Some((b, c)) ==> {
            &&& b != button ==> spec_click_count(last, button, close_to_last) == 1
            &&& b == button && close_to_last ==> spec_click_count(last, button, close_to_last) == c + 1
        },
{
}

/// When the event loop should next wake the window to redraw (for blinking carets and
/// animations): the earliest time any frame asked for.
pub struct Wake {
    at: Option<u64>,
}

/// What the event loop does while it waits for input.
#[derive(Clone, Copy, Debug, PartialEq, Eq, Structural)]
pub enum WaitFor {
    /// A requested wake-up is due: redraw now, then wait for input.
    RedrawNow,
    /// Wait for input, or until this time.
    Until(u64),
    /// Wait for input.
    Input,
}

/// The earlier of a pending wake-up and a new request for `at`.
pub open spec fn earliest(pending: Option<u64>, at: u64) -> u64 {
    match pending {
        Some(p) => if p < at { p } else { at },
        None => at,
    }
}

impl Wake {
    pub closed spec fn pending(&self) -> Option<u64> {
        self.at
    }

    /// Nothing requested.
    pub fn new() -> (w: Wake)
        ensures
            w.pending() is None,
    {
        Wake { at: None }
    }

    /// Asks for a redraw at time `at`; an earlier pending request still stands.
    pub fn request_at(&mut self, at: u64)
        ensures
            final(self).pending() == Some(earliest(old(self).pending(), at)),
    {
        let next = match self.at {
            Some(p) => if p < at { p } else { at },
            None => at,
        };
        self.at = Some(next);
    }

    /// What to do at time `now` once the pending events are handled: a due wake-up is
    /// consumed and redraws; one in the future is waited for.
    pub fn poll(&mut self, now: u64) -> (w: WaitFor)
        ensures
            w == match old(self).pending() {
                Some(at) => if now >= at { WaitFor::RedrawNow } else { WaitFor::Until(at) },
                None => WaitFor::Input,
            },
            final(self).pending() == match old(self).pending() {
                Some(at) => if now >= at { None } else { Some(at) },
                None => None,
            },
    {
        match self.at {
            Some(at) => {
                if now >= at {
                    self.at = None;
                    WaitFor::RedrawNow
                } else {
                    WaitFor::Until(at)
                }
            },
            None => WaitFor::Input,
        }
    }
}

/// Requests never delay a wake-up: after asking for `at`, the pending wake-up is no later than
/// `at` nor than what was pending before.
pub proof fn requests_never_delay(pending: Option<u64>, at: u64)
    ensures
        earliest(pending, at) <= at,
        pending matches Some(p) ==> earliest(pending, at) <= p,
        earliest(pending, at) == at || pending == Some(earliest(pending, at)),
{
}

} // verus!
