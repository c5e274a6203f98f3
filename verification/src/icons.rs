//! Glyphs of the embedded icon font.

use vstd::prelude::*;

verus! {

/// Icon font glyphs.
/// Each variant maps to a codepoint in the embedded `wattseal-icons.ttf` font.
#[derive(Clone, Copy, Debug, PartialEq, Eq, Structural)]
pub enum Icon {
    Settings,
    Windows,
    Android,
    Apple,
    MacOS,
    Battery,
    CPU,
    Display,
    GitHub,
    GPU,
    RAM,
    Storage,
    System,
    Linux,
    Seal,
    SealGraph,
}

/// The font codepoint of an icon: the glyphs are the letters `A` to `P`, in
/// declaration order.
pub open spec fn icon_codepoint(icon: Icon) -> char {
    match icon {
        Icon::Settings => 'A',
        Icon::Windows => 'B',
        Icon::Android => 'C',
        Icon::Apple => 'D',
        Icon::MacOS => 'E',
        Icon::Battery => 'F',
        Icon::CPU => 'G',
        Icon::Display => 'H',
        Icon::GitHub => 'I',
        Icon::GPU => 'J',
        Icon::RAM => 'K',
        Icon::Storage => 'L',
        Icon::System => 'M',
        Icon::Linux => 'N',
        Icon::Seal => 'O',
        Icon::SealGraph => 'P',
    }
}

impl Icon {
    /// Returns the Unicode codepoint assigned to this icon in the font.
    pub fn codepoint(self) -> (c: char)
        ensures
            c == icon_codepoint(self),
    {
        match self {
            Icon::Settings => 'A',
            Icon::Windows => 'B',
            Icon::Android => 'C',
            Icon::Apple => 'D',
            Icon::MacOS => 'E',
            Icon::Battery => 'F',
            Icon::CPU => 'G',
            Icon::Display => 'H',
            Icon::GitHub => 'I',
            Icon::GPU => 'J',
            Icon::RAM => 'K',
            Icon::Storage => 'L',
            Icon::System => 'M',
            Icon::Linux => 'N',
            Icon::Seal => 'O',
            Icon::SealGraph => 'P',
        }
    }
}

/// Distinct icons have distinct glyphs, so no two icons render alike.
pub proof fn lemma_codepoints_distinct(a: Icon, b: Icon)
    requires
        a != b,
    ensures
        icon_codepoint(a) != icon_codepoint(b),
{
}

} // verus!
