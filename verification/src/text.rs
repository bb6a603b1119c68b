//! Text styling: the toolkit default, or an explicit color override.
//!
//! The toolkit-facing style set also admits a caller-supplied transform from
//! the theme to a full appearance, mirroring the application-level escape
//! hatch. That variant is host logic (see the note in `application`); this
//! module resolves the themed variants.

use vstd::prelude::*;

use crate::color::{Color, Theme};

verus! {

/// The appearance of a text label: `None` leaves the toolkit's implicit
/// default color in force.
#[derive(Clone, Copy, Debug, PartialEq, Eq, Structural)]
pub struct TextAppearance {
    pub color: Option<Color>,
}

/// The style variant of a text label: the implicit default, or one explicit
/// color.
#[derive(Clone, Copy, Debug, PartialEq, Eq, Structural)]
pub enum Text {
    Default,
    Color(Color),
}

impl Default for Text {
    fn default() -> (d: Self)
        ensures
            d == Text::Default,
    {
        Text::Default
    }
}

impl From<Color> for Text {
    fn from(color: Color) -> (t: Self) {
        Text::Color(color)
    }
}

impl vstd::std_specs::convert::FromSpecImpl<Color> for Text {
    open spec fn obeys_from_spec() -> bool {
        true
    }

    open spec fn from_spec(color: Color) -> Text {
        Text::Color(color)
    }
}

/// The appearance each text variant resolves to: the default variant keeps
/// the implicit color, an explicit variant carries its color through.
pub open spec fn spec_text_appearance(style: Text) -> TextAppearance {
    match style {
        Text::Default => TextAppearance { color: None },
        Text::Color(c) => TextAppearance { color: Some(c) },
    }
}

impl TextAppearance {
    /// The color, where one is set, is within the unit channel range.
    pub open spec fn wf(self) -> bool {
        self.color matches Some(c) ==> c.wf()
    }
}

/// Resolution carries a well-formed explicit color through unchanged, so a
/// well-formed style yields a well-formed appearance.
pub proof fn lemma_text_resolve_preserves_wf(style: Text)
    requires
        style matches Text::Color(c) ==> c.wf(),
    ensures
        spec_text_appearance(style).wf(),
{
}

impl Theme {
    /// Resolves the appearance of a text label. The themed variants read
    /// nothing from the palette.
    pub fn text_appearance(&self, style: Text) -> (r: TextAppearance)
        ensures
            r == spec_text_appearance(style),
    {
        match style {
            Text::Default => TextAppearance { color: None },
            Text::Color(c) => TextAppearance { color: Some(c) },
        }
    }
}

} // verus!
