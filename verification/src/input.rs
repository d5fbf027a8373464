//! Input event payloads handed to the host's callbacks: mouse buttons and
//! text-composition (IME) input, as plain values.

use vstd::prelude::*;

verus! {

/// A mouse button: one of the named buttons (0 left, 1 right, 2 middle,
/// 3 back, 4 forward) or another numbered device button.
#[derive(Clone, Copy, Debug, PartialEq, Eq, Structural)]
pub struct MouseButton {
    /// The button number; for a named button, its fixed number above.
    pub number: u16,
    pub is_named_buton: bool,
}

impl MouseButton {
    /// One of the named buttons.
    pub fn named(number: u16) -> (b: Self)
        requires
            number <= 4,
        ensures
            b.number == number,
            b.is_named_buton,
    {
        Self { number, is_named_buton: true }
    }

    /// Another numbered device button.
    pub fn other(number: u16) -> (b: Self)
        ensures
            b.number == number,
            !b.is_named_buton,
    {
        Self { number, is_named_buton: false }
    }
}

/// Which phase of text composition an IME event reports.
#[derive(Clone, Copy, Debug, PartialEq, Eq, Structural)]
pub enum ImeInputDataTag {
    Enabled,
    Preedit,
    Commit,
    Disabled,
}

/// One text-composition event: its phase, the composed text (UTF-8 bytes,
/// empty unless composing or committing), and, while composing, the cursor
/// range within the text.
#[derive(Debug, PartialEq, Eq)]
pub struct ImeInputData {
    pub tag: ImeInputDataTag,
    pub text: Vec<u8>,
    pub range: Option<(usize, usize)>,
}

impl ImeInputData {
    /// Composition became enabled: no text, no range.
    pub fn enabled() -> (d: Self)
        ensures
            d.tag == ImeInputDataTag::Enabled,
            d.text@ == Seq::<u8>::empty(),
            d.range is None,
    {
        Self { tag: ImeInputDataTag::Enabled, text: Vec::new(), range: None }
    }

    /// Text is being composed, with the cursor at the given byte range when
    /// one is reported.
    pub fn preedit(text: Vec<u8>, range: Option<(usize, usize)>) -> (d: Self)
        ensures
            d.tag == ImeInputDataTag::Preedit,
            d.text@ == text@,
            d.range == range,
    {
        Self { tag: ImeInputDataTag::Preedit, text, range }
    }

    /// Composition finished: the text is committed, there is no range.
    pub fn commit(text: Vec<u8>) -> (d: Self)
        ensures
            d.tag == ImeInputDataTag::Commit,
            d.text@ == text@,
            d.range is None,
    {
        Self { tag: ImeInputDataTag::Commit, text, range: None }
    }

    /// Composition became disabled: no text, no range.
    pub fn disabled() -> (d: Self)
        ensures
            d.tag == ImeInputDataTag::Disabled,
            d.text@ == Seq::<u8>::empty(),
            d.range is None,
    {
        Self { tag: ImeInputDataTag::Disabled, text: Vec::new(), range: None }
    }
}

} // verus!
