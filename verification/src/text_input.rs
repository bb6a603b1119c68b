//! Text-input styling: the field's box and its fixed text colors.

use vstd::prelude::*;

use crate::color::{Color, Palette, Theme};

verus! {

/// The appearance of a text input's box. Lengths are in hundredths of a
/// unit.
#[derive(Clone, Copy, Debug, PartialEq, Eq, Structural)]
pub struct TextInputAppearance {
    pub background: Color,
    pub border_radius: u16,
    pub border_width: u16,
    pub border_color: Color,
}

impl TextInputAppearance {
    /// Every color of the appearance is within the unit channel range.
    pub open spec fn wf(self) -> bool {
        self.background.wf() && self.border_color.wf()
    }
}

/// The style variant of a text input: there is a single one.
#[derive(Clone, Copy, Debug, PartialEq, Eq, Structural)]
pub enum TextInput {
    Base,
}

impl Default for TextInput {
    fn default() -> (d: Self)
        ensures
            d == TextInput::Base,
    {
        TextInput::Base
    }
}

/// The interaction states a text input can be in.
#[derive(Clone, Copy, Debug, PartialEq, Eq, Structural)]
pub enum TextInputState {
    Active,
    Focused,
    Hovered,
}

/// The appearance of an inactive text input: a flat foreground fill with no
/// visible border.
pub open spec fn spec_text_input_active(p: Palette) -> TextInputAppearance {
    TextInputAppearance {
        background: p.base.foreground,
        border_radius: 500,
        border_width: 0,
        border_color: p.base.foreground,
    }
}

/// The appearance of a focused text input: the same fill behind a one-unit,
/// half-alpha primary focus ring.
pub open spec fn spec_text_input_focused(p: Palette) -> TextInputAppearance {
    TextInputAppearance {
        background: p.base.foreground,
        border_radius: 200,
        border_width: 100,
        border_color: p.normal.primary.spec_with_alpha(50),
    }
}

impl Theme {
    /// Resolves the active appearance of a text input.
    pub fn text_input_active(&self, _style: TextInput) -> (r: TextInputAppearance)
        ensures
            r == spec_text_input_active(self.palette),
    {
        TextInputAppearance {
            background: self.palette.base.foreground,
            border_radius: 500,
            border_width: 0,
            border_color: self.palette.base.foreground,
        }
    }

    /// Resolves the focused appearance of a text input.
    pub fn text_input_focused(&self, _style: TextInput) -> (r: TextInputAppearance)
        ensures
            r == spec_text_input_focused(self.palette),
    {
        TextInputAppearance {
            background: self.palette.base.foreground,
            border_radius: 200,
            border_width: 100,
            border_color: self.palette.normal.primary.with_alpha(50),
        }
    }

    /// Resolves the hovered appearance of a text input: hovering previews
    /// the focus ring, so this is the focused appearance.
    pub fn text_input_hovered(&self, style: TextInput) -> (r: TextInputAppearance)
        ensures
            r == spec_text_input_focused(self.palette),
    {
        self.text_input_focused(style)
    }

    /// The color of placeholder text, fixed independently of state.
    pub fn placeholder_color(&self, _style: TextInput) -> (r: Color)
        ensures
            r == self.palette.normal.surface,
    {
        self.palette.normal.surface
    }

    /// The color of entered text, fixed independently of state.
    pub fn value_color(&self, _style: TextInput) -> (r: Color)
        ensures
            r == self.palette.bright.primary,
    {
        self.palette.bright.primary
    }

    /// The color of the text selection, fixed independently of state.
    pub fn selection_color(&self, _style: TextInput) -> (r: Color)
        ensures
            r == self.palette.bright.secondary,
    {
        self.palette.bright.secondary
    }

    /// Resolves the appearance of a text input's box for any state.
    pub fn text_input_resolve(&self, style: TextInput, state: TextInputState)
        -> (r: TextInputAppearance)
        ensures
            r == spec_text_input_resolve(self.palette, state),
    {
        match state {
            TextInputState::Active => self.text_input_active(style),
            TextInputState::Focused => self.text_input_focused(style),
            TextInputState::Hovered => self.text_input_hovered(style),
        }
    }
}

/// The full resolution table of a text input's box: hovering previews the
/// focus ring, so the hovered state resolves exactly as the focused one.
pub open spec fn spec_text_input_resolve(p: Palette, state: TextInputState)
    -> TextInputAppearance {
    match state {
        TextInputState::Active => spec_text_input_active(p),
        TextInputState::Focused => spec_text_input_focused(p),
        TextInputState::Hovered => spec_text_input_focused(p),
    }
}

/// Resolution preserves the palette's color invariant: a well-formed
/// palette yields a well-formed box appearance in every state.
pub proof fn lemma_text_input_resolve_preserves_wf(p: Palette, state: TextInputState)
    requires
        p.wf(),
    ensures
        spec_text_input_resolve(p, state).wf(),
{
}

/// A hovered text input shows exactly the focused appearance.
pub proof fn lemma_text_input_hover_is_focused(p: Palette)
    ensures
        spec_text_input_resolve(p, TextInputState::Hovered)
            == spec_text_input_resolve(p, TextInputState::Focused),
{
}

} // verus!
