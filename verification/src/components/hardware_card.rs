//! The content of a hardware information card.

use vstd::prelude::*;
use crate::icons::Icon;

verus! {

/// Label-value pair displayed in a hardware card.
#[derive(Clone, Debug)]
pub struct InfoField {
    pub label: String,
    pub value: String,
}

impl View for InfoField {
    type V = (Seq<char>, Seq<char>);

    open spec fn view(&self) -> (Seq<char>, Seq<char>) {
        (self.label@, self.value@)
    }
}

impl InfoField {
    /// Creates a field with the given label and value.
    pub fn new(label: &str, value: &str) -> (f: Self)
        ensures
            f@ == (label@, value@),
    {
        Self { label: String::from_str(label), value: String::from_str(value) }
    }
}

/// The palette colour that tints a card's icon badge.
#[derive(Clone, Copy, Debug, PartialEq, Eq, Structural)]
pub enum Accent {
    Primary,
    Success,
    Danger,
    Warning,
}

/// Configuration for a hardware information card.
#[derive(Clone, Debug)]
pub struct InfoCard {
    pub icon: Icon,
    pub accent: Accent,
    pub title: String,
    pub subtitle: String,
    pub field: InfoField,
    pub optional_field: Option<InfoField>,
    pub info_key: Option<String>,
}

/// What a card shows, as plain text.
pub struct InfoCardView {
    pub icon: Icon,
    pub accent: Accent,
    pub title: Seq<char>,
    pub subtitle: Seq<char>,
    pub field: (Seq<char>, Seq<char>),
    pub optional_field: Option<(Seq<char>, Seq<char>)>,
    pub info_key: Option<Seq<char>>,
}

/// The text of an optional field.
pub open spec fn optional_field_view(f: Option<InfoField>) -> Option<(Seq<char>, Seq<char>)> {
    match f {
        Some(f) => Some(f@),
        None => None,
    }
}

/// The text of an optional string.
pub open spec fn optional_text(s: Option<String>) -> Option<Seq<char>> {
    match s {
        Some(s) => Some(s@),
        None => None,
    }
}

impl View for InfoCard {
    type V = InfoCardView;

    open spec fn view(&self) -> InfoCardView {
        InfoCardView {
            icon: self.icon,
            accent: self.accent,
            title: self.title@,
            subtitle: self.subtitle@,
            field: self.field@,
            optional_field: optional_field_view(self.optional_field),
            info_key: optional_text(self.info_key),
        }
    }
}

impl InfoCard {
    /// Creates a card with icon, title, subtitle, and data fields.
    pub fn new(
        icon: Icon,
        accent: Accent,
        title: &str,
        subtitle: &str,
        field: InfoField,
        optional_field: Option<InfoField>,
        info_key: Option<&str>,
    ) -> (c: Self)
        ensures
            c@ == (InfoCardView {
                icon,
                accent,
                title: title@,
                subtitle: subtitle@,
                field: field@,
                optional_field: optional_field_view(optional_field),
                info_key: match info_key {
                    Some(k) => Some(k@),
                    None => None,
                },
            }),
    {
        let key = match info_key {
            Some(k) => Some(String::from_str(k)),
            None => None,
        };
        InfoCard {
            icon,
            accent,
            title: String::from_str(title),
            subtitle: String::from_str(subtitle),
            field,
            optional_field,
            info_key: key,
        }
    }
}

} // verus!
