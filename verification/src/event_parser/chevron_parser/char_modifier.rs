//! The letters that stand for a modifier inside a chevron group.

use vstd::prelude::*;

use crate::event::KeyModifiers;

verus! {

/// Defines all the valid modifiers for modifier group keys.
#[derive(Clone, Copy, Debug, PartialEq, Eq)]
pub enum ChevronModifier {
    /// `'A'`
    Alt,
    /// `'D'`
    Command,
    /// `'C'`
    Control,
    /// `'M'`
    Meta,
    /// `'S'`
    Shift,
    /// `'T'`
    TrueMeta,
}

impl ChevronModifier {
    /// The modifier that the letter `ch` stands for, if it stands for one.
    pub open spec fn spec_maybe_from(ch: char) -> Option<Self> {
        match ch {
            'C' => Some(ChevronModifier::Control),
            'M' => Some(ChevronModifier::Meta),
            'A' => Some(ChevronModifier::Alt),
            'T' => Some(ChevronModifier::TrueMeta),
            'D' => Some(ChevronModifier::Command),
            'S' => Some(ChevronModifier::Shift),
            _ => None,
        }
    }

    /// The letter that stands for the modifier.
    pub open spec fn spec_to_char(self) -> char {
        match self {
            ChevronModifier::Control => 'C',
            ChevronModifier::Meta => 'M',
            ChevronModifier::Alt => 'A',
            ChevronModifier::TrueMeta => 'T',
            ChevronModifier::Command => 'D',
            ChevronModifier::Shift => 'S',
        }
    }

    /// The modifier key that the modifier names.
    pub open spec fn spec_to_modifier(self) -> KeyModifiers {
        match self {
            ChevronModifier::Control => KeyModifiers::control(),
            ChevronModifier::Meta | ChevronModifier::Alt => KeyModifiers::alt(),
            ChevronModifier::TrueMeta => KeyModifiers::meta(),
            ChevronModifier::Command => KeyModifiers::sup(),
            ChevronModifier::Shift => KeyModifiers::shift(),
        }
    }

    /// The letter of a modifier stands for that modifier.
    pub proof fn lemma_to_char_maybe_from(self)
        ensures
            Self::spec_maybe_from(self.spec_to_char()) == Some(self),
    {
    }

    /// Creates a new [`ChevronModifier`] from a `char`, if possible.
    #[verifier::when_used_as_spec(spec_maybe_from)]
    pub fn maybe_from(ch: char) -> (modifier: Option<Self>)
        ensures
            modifier == Self::spec_maybe_from(ch),
    {
        match ch {
            'C' => Some(ChevronModifier::Control),
            'M' => Some(ChevronModifier::Meta),
            'A' => Some(ChevronModifier::Alt),
            'T' => Some(ChevronModifier::TrueMeta),
            'D' => Some(ChevronModifier::Command),
            'S' => Some(ChevronModifier::Shift),
            _ => None,
        }
    }

    /// Returns the `char` that created this [`ChevronModifier`] in the first
    /// place.
    #[verifier::when_used_as_spec(spec_to_char)]
    pub fn to_char(self) -> (ch: char)
        ensures
            ch == self.spec_to_char(),
    {
        match self {
            ChevronModifier::Control => 'C',
            ChevronModifier::Meta => 'M',
            ChevronModifier::Alt => 'A',
            ChevronModifier::TrueMeta => 'T',
            ChevronModifier::Command => 'D',
            ChevronModifier::Shift => 'S',
        }
    }

    /// Returns the [`KeyModifiers`] that this [`ChevronModifier`] represents.
    #[verifier::when_used_as_spec(spec_to_modifier)]
    pub fn to_modifier(self) -> (modifiers: KeyModifiers)
        ensures
            modifiers == self.spec_to_modifier(),
    {
        match self {
            ChevronModifier::Control => KeyModifiers::control(),
            ChevronModifier::Meta | ChevronModifier::Alt => KeyModifiers::alt(),
            ChevronModifier::TrueMeta => KeyModifiers::meta(),
            ChevronModifier::Command => KeyModifiers::sup(),
            ChevronModifier::Shift => KeyModifiers::shift(),
        }
    }
}

} // verus!
