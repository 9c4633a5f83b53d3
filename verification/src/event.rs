//! The key presses that drive the buffer, as plain values supplied by the
//! host application.

use vstd::prelude::*;

verus! {

/// The key of a key event.
#[derive(Clone, Copy, Debug, PartialEq, Eq)]
pub enum KeyCode {
    /// Backspace key.
    Backspace,
    /// Enter key.
    Enter,
    /// Left arrow key.
    Left,
    /// Right arrow key.
    Right,
    /// Up arrow key.
    Up,
    /// Down arrow key.
    Down,
    /// Home key.
    Home,
    /// End key.
    End,
    /// Page up key.
    PageUp,
    /// Page down key.
    PageDown,
    /// Tab key.
    Tab,
    /// Delete key.
    Delete,
    /// Escape key.
    Esc,
    /// A character key.
    Char(char),
}

/// The set of modifier keys held while a key is pressed.
#[derive(Clone, Copy, Debug, PartialEq, Eq)]
pub struct KeyModifiers {
    /// Shift key.
    pub shift: bool,
    /// Control key.
    pub control: bool,
    /// Alt key.
    pub alt: bool,
    /// Super key (command, windows).
    pub sup: bool,
    /// Hyper key.
    pub hyper: bool,
    /// Meta key.
    pub meta: bool,
}

impl KeyModifiers {
    /// The empty set.
    pub open spec fn spec_none() -> Self {
        KeyModifiers {
            shift: false,
            control: false,
            alt: false,
            sup: false,
            hyper: false,
            meta: false,
        }
    }

    /// The set that holds the shift key alone.
    pub open spec fn spec_shift() -> Self {
        KeyModifiers { shift: true, ..Self::spec_none() }
    }

    /// The set that holds the control key alone.
    pub open spec fn spec_control() -> Self {
        KeyModifiers { control: true, ..Self::spec_none() }
    }

    /// The set that holds the alt key alone.
    pub open spec fn spec_alt() -> Self {
        KeyModifiers { alt: true, ..Self::spec_none() }
    }

    /// The set that holds the super key alone.
    pub open spec fn spec_sup() -> Self {
        KeyModifiers { sup: true, ..Self::spec_none() }
    }

    /// The set that holds the hyper key alone.
    pub open spec fn spec_hyper() -> Self {
        KeyModifiers { hyper: true, ..Self::spec_none() }
    }

    /// The set that holds the meta key alone.
    pub open spec fn spec_meta() -> Self {
        KeyModifiers { meta: true, ..Self::spec_none() }
    }

    /// The keys that are in `self` or in `other`.
    pub open spec fn spec_union(self, other: Self) -> Self {
        KeyModifiers {
            shift: self.shift || other.shift,
            control: self.control || other.control,
            alt: self.alt || other.alt,
            sup: self.sup || other.sup,
            hyper: self.hyper || other.hyper,
            meta: self.meta || other.meta,
        }
    }

    /// Whether every key of `other` is in `self`.
    pub open spec fn spec_contains(self, other: Self) -> bool {
        &&& other.shift ==> self.shift
        &&& other.control ==> self.control
        &&& other.alt ==> self.alt
        &&& other.sup ==> self.sup
        &&& other.hyper ==> self.hyper
        &&& other.meta ==> self.meta
    }

    /// No modifier key.
    #[verifier::when_used_as_spec(spec_none)]
    pub fn none() -> (modifiers: Self)
        ensures
            modifiers == Self::spec_none(),
    {
        KeyModifiers {
            shift: false,
            control: false,
            alt: false,
            sup: false,
            hyper: false,
            meta: false,
        }
    }

    /// The shift key alone.
    #[verifier::when_used_as_spec(spec_shift)]
    pub fn shift() -> (modifiers: Self)
        ensures
            modifiers == Self::spec_shift(),
    {
        KeyModifiers { shift: true, ..Self::none() }
    }

    /// The control key alone.
    #[verifier::when_used_as_spec(spec_control)]
    pub fn control() -> (modifiers: Self)
        ensures
            modifiers == Self::spec_control(),
    {
        KeyModifiers { control: true, ..Self::none() }
    }

    /// The alt key alone.
    #[verifier::when_used_as_spec(spec_alt)]
    pub fn alt() -> (modifiers: Self)
        ensures
            modifiers == Self::spec_alt(),
    {
        KeyModifiers { alt: true, ..Self::none() }
    }

    /// The super key alone.
    #[verifier::when_used_as_spec(spec_sup)]
    pub fn sup() -> (modifiers: Self)
        ensures
            modifiers == Self::spec_sup(),
    {
        KeyModifiers { sup: true, ..Self::none() }
    }

    /// The hyper key alone.
    #[verifier::when_used_as_spec(spec_hyper)]
    pub fn hyper() -> (modifiers: Self)
        ensures
            modifiers == Self::spec_hyper(),
    {
        KeyModifiers { hyper: true, ..Self::none() }
    }

    /// The meta key alone.
    #[verifier::when_used_as_spec(spec_meta)]
    pub fn meta() -> (modifiers: Self)
        ensures
            modifiers == Self::spec_meta(),
    {
        KeyModifiers { meta: true, ..Self::none() }
    }

    /// The keys that are in `self` or in `other`.
    #[verifier::when_used_as_spec(spec_union)]
    pub fn union(self, other: Self) -> (modifiers: Self)
        ensures
            modifiers == self.spec_union(other),
    {
        KeyModifiers {
            shift: self.shift || other.shift,
            control: self.control || other.control,
            alt: self.alt || other.alt,
            sup: self.sup || other.sup,
            hyper: self.hyper || other.hyper,
            meta: self.meta || other.meta,
        }
    }

    /// Returns `true` iff every key of `other` is in `self`.
    #[verifier::when_used_as_spec(spec_contains)]
    pub fn contains(self, other: Self) -> (all: bool)
        ensures
            all == self.spec_contains(other),
    {
        (!other.shift || self.shift) && (!other.control || self.control) && (!other.alt
            || self.alt) && (!other.sup || self.sup) && (!other.hyper || self.hyper) && (
        !other.meta || self.meta)
    }

    /// Returns `true` iff the two sets hold the same keys.
    pub fn same_as(self, other: Self) -> (same: bool)
        ensures
            same == (self == other),
    {
        self.shift == other.shift && self.control == other.control && self.alt == other.alt
            && self.sup == other.sup && self.hyper == other.hyper && self.meta == other.meta
    }
}

/// A key event, as the host application reports it.
#[derive(Clone, Copy, Debug, PartialEq, Eq)]
pub struct KeyEvent {
    /// The key itself.
    pub code: KeyCode,
    /// The modifier keys held with it.
    pub modifiers: KeyModifiers,
    /// Whether the key went down. Releases and repeats are not presses.
    pub is_press: bool,
}

impl KeyEvent {
    /// The press of `code` with `modifiers` held.
    pub open spec fn spec_new(code: KeyCode, modifiers: KeyModifiers) -> Self {
        KeyEvent { code, modifiers, is_press: true }
    }

    /// The press of `code` with `modifiers` held.
    #[verifier::when_used_as_spec(spec_new)]
    pub fn new(code: KeyCode, modifiers: KeyModifiers) -> (event: Self)
        ensures
            event == Self::spec_new(code, modifiers),
    {
        KeyEvent { code, modifiers, is_press: true }
    }
}

} // verus!
