//! Input events, independent of the windowing library, and the rules that interpret them.
use vstd::prelude::*;

verus! {

/// Which modifier keys are held.
#[derive(Clone, Copy, Debug, PartialEq, Eq, Structural)]
pub struct Modifiers {
    pub shift: bool,
    pub ctrl: bool,
    pub alt: bool,
    /// Cmd on macOS, the Windows key elsewhere.
    pub logo: bool,
}

impl Default for Modifiers {
    fn default() -> (m: Modifiers)
        ensures
            m == (Modifiers { shift: false, ctrl: false, alt: false, logo: false }),
    {
        Modifiers { shift: false, ctrl: false, alt: false, logo: false }
    }
}

impl Modifiers {
    /// The platform's shortcut modifier: Cmd on macOS (`on_macos`), Ctrl elsewhere.
    pub fn command(self, on_macos: bool) -> (held: bool)
        ensures
            held == if on_macos { self.logo } else { self.ctrl },
    {
        if on_macos {
            self.logo
        } else {
            self.ctrl
        }
    }
}

#[derive(Clone, Copy, Debug, PartialEq, Eq, Structural)]
pub enum MouseButton {
    Left,
    Right,
    Middle,
    Other(u16),
}

#[derive(Clone, Copy, Debug, PartialEq, Eq, Structural)]
pub enum NamedKey {
    Enter,
    Escape,
    Backspace,
    Delete,
    Tab,
    ArrowLeft,
    ArrowRight,
    ArrowUp,
    ArrowDown,
    Home,
    End,
    PageUp,
    PageDown,
}

#[derive(Clone, Debug, PartialEq, Eq)]
pub enum Key {
    /// A key that produces text, as the layout labels it (`"a"`, `"1"`, `" "`).
    Char(String),
    Named(NamedKey),
    Other,
}

/// Input-method (IME) composition, e.g. Korean syllables being assembled.
#[derive(Clone, Debug, PartialEq, Eq)]
pub enum Ime {
    /// The text being composed, shown provisionally. Empty means the composition ended.
    /// `cursor` is a byte range inside `text`, if the input method reports one.
    Preedit { text: String, cursor: Option<(usize, usize)> },
    /// Finished text to insert.
    Commit(String),
}

/// A control character (general category Cc): U+0000 to U+001F and U+007F to U+009F.
pub open spec fn is_control(c: char) -> bool {
    (c as u32) <= 0x1f || (0x7f <= (c as u32) && (c as u32) <= 0x9f)
}

/// Whether `c` is a control character; the same test as `char::is_control`.
pub fn char_is_control(c: char) -> (r: bool)
    ensures
        r == is_control(c),
{
    let v = c as u32;
    v <= 0x1f || (0x7f <= v && v <= 0x9f)
}

/// Whether `text` holds a control character.
pub fn has_control(text: &str) -> (r: bool)
    ensures
        r == exists|i: int| 0 <= i < text@.len() && #[trigger] is_control(text@[i]),
{
    broadcast use vstd::string::axiom_spec_iter;
    for c in it: text.chars()
        invariant
            it.seq() == text@,
            forall|j: int| 0 <= j < it.index() ==> !#[trigger] is_control(text@[j]),
    {
        if char_is_control(c) {
            assert(is_control(text@[it.index() as int]));
            return true;
        }
    }
    false
}

/// The text a key press types, as the window reports it, kept only when it is something to
/// insert: not empty and free of control characters (Backspace, Enter, Escape and the like
/// report those).
pub fn typed_text(text: Option<String>) -> (typed: Option<String>)
    ensures
        typed == match text {
            Some(t) => if t@.len() > 0 && !(exists|i: int| 0 <= i < t@.len() && #[trigger] is_control(t@[i])) {
                Some(t)
            } else {
                None
            },
            None => None,
        },
{
    match text {
        Some(t) => {
            if !t.as_str().is_empty() && !has_control(t.as_str()) {
                Some(t)
            } else {
                None
            }
        },
        None => None,
    }
}

} // verus!
