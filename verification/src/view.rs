//! What mouse presses and releases mean for the elements of the last frame.
//!
//! A click counts only when the primary button is pressed and released over the same element
//! (the one that receives clicks there). An element that asks to capture the pointer gets the
//! later moves and the release of the button that pressed it, wherever the pointer goes.
//! Which element lies under the pointer is resolved against the last frame's layout by the
//! caller and handed in.
use vstd::prelude::*;
use crate::event::MouseButton;

verus! {

/// A press that captured the pointer: the element (by a key that survives re-layout), the
/// button that pressed it, and the press's click count.
#[derive(Clone, Copy, Debug, PartialEq, Eq, Structural)]
pub struct Capture {
    pub key: u64,
    pub button: MouseButton,
    pub click_count: u32,
}

/// The pointer's state between events.
#[derive(Clone, Copy, Debug, PartialEq, Eq, Structural)]
pub struct Pointer {
    /// The element a primary-button press started on; a click only counts if it also ends there.
    pub pressed: Option<usize>,
    /// The element a press is being dragged from.
    pub captured: Option<Capture>,
}

/// What a release asks of the elements.
#[derive(Clone, Copy, Debug, PartialEq, Eq, Structural)]
pub struct Release {
    /// The capture that this release ends: its element gets the mouse-up.
    pub up: Option<Capture>,
    /// The element whose click handler runs.
    pub click: Option<usize>,
}

/// The state after a press of `button`, where `click_target` is the element that would receive
/// a click at the pointer, `press_target` the one that receives the mouse-down, and
/// `captures` whether that one captures the pointer (`key` naming it).
pub open spec fn after_press(
    s: Pointer,
    button: MouseButton,
    click_target: Option<usize>,
    press_target: Option<usize>,
    captures: bool,
    key: u64,
    click_count: u32,
) -> Pointer {
    Pointer {
        pressed: if button == MouseButton::Left { click_target } else { s.pressed },
        captured: if press_target is Some && captures {
            Some(Capture { key, button, click_count })
        } else {
            s.captured
        },
    }
}

/// What a release of `button` asks for, where `click_target` is the element that would receive
/// a click at the pointer.
pub open spec fn release_of(s: Pointer, button: MouseButton, click_target: Option<usize>) -> Release {
    Release {
        up: match s.captured {
            Some(c) => if c.button == button { Some(c) } else { None },
            None => None,
        },
        click: if button == MouseButton::Left && click_target is Some && click_target == s.pressed {
            click_target
        } else {
            None
        },
    }
}

/// The state after a release of `button`.
pub open spec fn after_release(s: Pointer, button: MouseButton) -> Pointer {
    Pointer {
        pressed: if button == MouseButton::Left { None } else { s.pressed },
        captured: match s.captured {
            Some(c) => if c.button == button { None } else { s.captured },
            None => None,
        },
    }
}

impl Pointer {
    /// No press in progress.
    pub fn new() -> (p: Pointer)
        ensures
            p == (Pointer { pressed: None, captured: None }),
    {
        Pointer { pressed: None, captured: None }
    }

    /// Records a press of `button`. The caller sends the mouse-down to `press_target`.
    pub fn press(
        &mut self,
        button: MouseButton,
        click_target: Option<usize>,
        press_target: Option<usize>,
        captures: bool,
        key: u64,
        click_count: u32,
    )
        ensures
            *final(self) == after_press(*old(self), button, click_target, press_target, captures, key, click_count),
    {
        if button == MouseButton::Left {
            self.pressed = click_target;
        }
        if press_target.is_some() && captures {
            self.captured = Some(Capture { key, button, click_count });
        }
    }

    /// The capture that a pointer move is sent to as a drag, if a press holds one.
    pub fn drag_target(&self) -> (c: Option<Capture>)
        ensures
            c == self.captured,
    {
        self.captured
    }

    /// Records a release of `button` and says which capture it ends and which element (if any)
    /// it clicks.
    pub fn release(&mut self, button: MouseButton, click_target: Option<usize>) -> (r: Release)
        ensures
            r == release_of(*old(self), button, click_target),
            *final(self) == after_release(*old(self), button),
    {
        let mut up = None;
        if let Some(c) = self.captured {
            if c.button == button {
                self.captured = None;
                up = Some(c);
            }
        }
        let mut click = None;
        if button == MouseButton::Left {
            if click_target.is_some() && click_target == self.pressed {
                click = click_target;
            }
            self.pressed = None;
        }
        Release { up, click }
    }
}

/// A primary-button press and release over the same element clicks it.
pub proof fn press_and_release_on_one_element_clicks(
    s: Pointer,
    target: usize,
    press_target: Option<usize>,
    captures: bool,
    key: u64,
    click_count: u32,
)
    ensures
        release_of(
            after_press(s, MouseButton::Left, Some(target), press_target, captures, key, click_count),
            MouseButton::Left,
            Some(target),
        ).click == Some(target),
{
}

/// A release over another element than the press (dragging off a button) clicks nothing.
pub proof fn release_elsewhere_clicks_nothing(
    s: Pointer,
    pressed_on: Option<usize>,
    released_on: Option<usize>,
    press_target: Option<usize>,
    captures: bool,
    key: u64,
    click_count: u32,
)
    requires
        pressed_on != released_on,
    ensures
        release_of(
            after_press(s, MouseButton::Left, pressed_on, press_target, captures, key, click_count),
            MouseButton::Left,
            released_on,
        ).click is None,
{
}

/// Only a release of the primary button clicks, and only an element that a primary press
/// started on: with no press in progress, a release clicks nothing.
pub proof fn click_needs_a_primary_press(s: Pointer, button: MouseButton, click_target: Option<usize>)
    requires
        s.pressed is None || button != MouseButton::Left,
    ensures
        release_of(s, button, click_target).click is None,
{
}

/// A capturing press holds the pointer until the release of the same button: that release
/// delivers the mouse-up to the captured element and ends the capture, so later moves are no
/// longer dragged.
pub proof fn capture_lasts_until_release(
    s: Pointer,
    button: MouseButton,
    click_target: Option<usize>,
    pressed: usize,
    key: u64,
    click_count: u32,
    release_target: Option<usize>,
)
    ensures
        ({
            let held = after_press(s, button, click_target, Some(pressed), true, key, click_count);
            &&& held.captured == Some(Capture { key, button, click_count })
            &&& release_of(held, button, release_target).up == Some(Capture { key, button, click_count })
            &&& after_release(held, button).captured is None
        }),
{
}

/// A press captures the pointer only when the element pressed asks for it: otherwise the
/// capture in place (if any) is unchanged, and only a primary press changes where a click
/// started.
pub proof fn press_captures_only_when_asked(
    s: Pointer,
    button: MouseButton,
    click_target: Option<usize>,
    press_target: Option<usize>,
    captures: bool,
    key: u64,
    click_count: u32,
)
    ensures
        (press_target is None || !captures) ==> after_press(
            s,
            button,
            click_target,
            press_target,
            captures,
            key,
            click_count,
        ).captured == s.captured,
        button != MouseButton::Left ==> after_press(
            s,
            button,
            click_target,
            press_target,
            captures,
            key,
            click_count,
        ).pressed == s.pressed,
        button == MouseButton::Left ==> after_press(
            s,
            button,
            click_target,
            press_target,
            captures,
            key,
            click_count,
        ).pressed == click_target,
{
}

/// Releasing another button leaves a capture in place.
pub proof fn other_button_keeps_capture(s: Pointer, button: MouseButton, c: Capture)
    requires
        s.captured == Some(c),
        c.button != button,
    ensures
        release_of(s, button, None).up is None,
        after_release(s, button).captured == Some(c),
{
}

} // verus!
