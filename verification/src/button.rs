//! Button styling: the four interaction states of each button variant.

use vstd::prelude::*;

use crate::color::{Color, Palette, Theme};

verus! {

/// The appearance of a button. Lengths are in hundredths of a unit.
#[derive(Clone, Copy, Debug, PartialEq, Eq, Structural)]
pub struct ButtonAppearance {
    pub background: Option<Color>,
    pub text_color: Color,
    pub border_color: Color,
    pub border_width: u16,
    pub border_radius: u16,
}

impl ButtonAppearance {
    /// Every color of the appearance is within the unit channel range.
    pub open spec fn wf(self) -> bool {
        (self.background matches Some(c) ==> c.wf()) && self.text_color.wf()
            && self.border_color.wf()
    }
}

/// The semantic role a button plays, chosen by the calling application.
#[derive(Clone, Copy, Debug, PartialEq, Eq, Structural)]
pub enum Button {
    Primary,
    Unavailable,
    SelfUpdate,
    Refresh,
    UninstallPackage,
    RestorePackage,
    NormalPackage,
    SelectedPackage,
}

impl Default for Button {
    fn default() -> (d: Self)
        ensures
            d == Button::Primary,
    {
        Button::Primary
    }
}

/// The interaction states a button can be in.
#[derive(Clone, Copy, Debug, PartialEq, Eq, Structural)]
pub enum ButtonState {
    Active,
    Hovered,
    Pressed,
    Disabled,
}

/// The base of every active button appearance: a half-alpha border in the
/// bright primary color, one unit wide, with a slightly rounded corner.
pub open spec fn spec_button_base(p: Palette) -> ButtonAppearance {
    ButtonAppearance {
        background: None,
        text_color: Color { r: 0, g: 0, b: 0, a: 100 },
        border_color: p.bright.primary.spec_with_alpha(50),
        border_width: 100,
        border_radius: 200,
    }
}

/// A button appearance whose background fill and text color are the same
/// palette color, over the base border.
pub open spec fn spec_from_pair(p: Palette, pair: Color) -> ButtonAppearance {
    ButtonAppearance {
        background: Some(pair),
        text_color: pair,
        ..spec_button_base(p)
    }
}

/// The appearance of each button variant in its active state.
pub open spec fn spec_button_active(p: Palette, style: Button) -> ButtonAppearance {
    match style {
        Button::Primary => spec_from_pair(p, p.bright.primary),
        Button::Unavailable => spec_from_pair(p, p.bright.error),
        Button::Refresh => spec_from_pair(p, p.bright.secondary),
        Button::SelfUpdate => spec_from_pair(p, p.bright.primary),
        Button::UninstallPackage => spec_from_pair(p, p.bright.secondary),
        Button::RestorePackage => spec_from_pair(p, p.bright.secondary),
        Button::NormalPackage => ButtonAppearance {
            background: Some(p.base.foreground),
            text_color: p.bright.surface,
            border_color: p.base.background,
            border_width: 0,
            border_radius: 500,
        },
        Button::SelectedPackage => ButtonAppearance {
            background: Some(p.normal.primary.spec_with_alpha(25)),
            text_color: p.bright.primary,
            border_color: p.normal.primary,
            border_width: 0,
            border_radius: 500,
        },
    }
}

/// The appearance of each button variant under the pointer: the background
/// and text color brighten, the border fields come from the active state
/// unchanged. The selected-package variant keeps its active appearance.
pub open spec fn spec_button_hovered(p: Palette, style: Button) -> ButtonAppearance {
    let active = spec_button_active(p, style);
    match style {
        Button::Primary => ButtonAppearance {
            background: Some(p.normal.surface),
            text_color: p.bright.primary,
            ..active
        },
        Button::Unavailable => ButtonAppearance {
            background: Some(p.normal.primary),
            text_color: p.normal.error,
            ..active
        },
        Button::SelfUpdate => ButtonAppearance {
            background: Some(p.normal.surface),
            text_color: p.bright.secondary,
            ..active
        },
        Button::Refresh => ButtonAppearance {
            background: Some(p.normal.surface),
            text_color: p.bright.primary,
            ..active
        },
        Button::UninstallPackage => ButtonAppearance {
            background: Some(p.normal.primary),
            text_color: p.bright.primary,
            ..active
        },
        Button::RestorePackage => ButtonAppearance {
            background: Some(p.normal.primary),
            text_color: p.bright.primary,
            ..active
        },
        Button::NormalPackage => ButtonAppearance {
            background: Some(p.normal.primary.spec_with_alpha(30)),
            text_color: p.bright.primary,
            ..active
        },
        Button::SelectedPackage => active,
    }
}

/// The appearance of each button variant when disabled: only the restore
/// and uninstall package variants mute to a faint fill with half-alpha text;
/// every other variant keeps its active appearance unchanged.
pub open spec fn spec_button_disabled(p: Palette, style: Button) -> ButtonAppearance {
    let active = spec_button_active(p, style);
    match style {
        Button::RestorePackage => ButtonAppearance {
            background: Some(p.normal.primary.spec_with_alpha(5)),
            text_color: p.bright.primary.spec_with_alpha(50),
            ..active
        },
        Button::UninstallPackage => ButtonAppearance {
            background: Some(p.bright.error.spec_with_alpha(1)),
            text_color: p.bright.error.spec_with_alpha(50),
            ..active
        },
        _ => active,
    }
}

/// The appearance of a pressed button: the active appearance, for every
/// variant.
pub open spec fn spec_button_pressed(p: Palette, style: Button) -> ButtonAppearance {
    spec_button_active(p, style)
}

/// The full resolution table of a button: one appearance for every
/// (variant, state) pair, defined on all of them.
pub open spec fn spec_button_resolve(p: Palette, style: Button, state: ButtonState)
    -> ButtonAppearance {
    match state {
        ButtonState::Active => spec_button_active(p, style),
        ButtonState::Hovered => spec_button_hovered(p, style),
        ButtonState::Pressed => spec_button_pressed(p, style),
        ButtonState::Disabled => spec_button_disabled(p, style),
    }
}

impl Theme {
    /// Resolves the active appearance of a button.
    pub fn button_active(&self, style: Button) -> (r: ButtonAppearance)
        ensures
            r == spec_button_active(self.palette, style),
    {
        let palette = self.palette;
        let base = ButtonAppearance {
            background: None,
            text_color: Color::new(0, 0, 0, 100),
            border_color: palette.bright.primary.with_alpha(50),
            border_width: 100,
            border_radius: 200,
        };
        match style {
            Button::Primary => from_pair(base, palette.bright.primary),
            Button::Unavailable => from_pair(base, palette.bright.error),
            Button::Refresh => from_pair(base, palette.bright.secondary),
            Button::SelfUpdate => from_pair(base, palette.bright.primary),
            Button::UninstallPackage => from_pair(base, palette.bright.secondary),
            Button::RestorePackage => from_pair(base, palette.bright.secondary),
            Button::NormalPackage => ButtonAppearance {
                background: Some(palette.base.foreground),
                text_color: palette.bright.surface,
                border_color: palette.base.background,
                border_width: 0,
                border_radius: 500,
            },
            Button::SelectedPackage => ButtonAppearance {
                background: Some(palette.normal.primary.with_alpha(25)),
                text_color: palette.bright.primary,
                border_color: palette.normal.primary,
                border_width: 0,
                border_radius: 500,
            },
        }
    }

    /// Resolves the hovered appearance of a button.
    pub fn button_hovered(&self, style: Button) -> (r: ButtonAppearance)
        ensures
            r == spec_button_hovered(self.palette, style),
    {
        let active = self.button_active(style);
        let palette = self.palette;
        match style {
            Button::Primary => ButtonAppearance {
                background: Some(palette.normal.surface),
                text_color: palette.bright.primary,
                ..active
            },
            Button::Unavailable => ButtonAppearance {
                background: Some(palette.normal.primary),
                text_color: palette.normal.error,
                ..active
            },
            Button::SelfUpdate => ButtonAppearance {
                background: Some(palette.normal.surface),
                text_color: palette.bright.secondary,
                ..active
            },
            Button::Refresh => ButtonAppearance {
                background: Some(palette.normal.surface),
                text_color: palette.bright.primary,
                ..active
            },
            Button::UninstallPackage | Button::RestorePackage => ButtonAppearance {
                background: Some(palette.normal.primary),
                text_color: palette.bright.primary,
                ..active
            },
            Button::NormalPackage => ButtonAppearance {
                background: Some(palette.normal.primary.with_alpha(30)),
                text_color: palette.bright.primary,
                ..active
            },
            Button::SelectedPackage => active,
        }
    }

    /// Resolves the disabled appearance of a button.
    pub fn button_disabled(&self, style: Button) -> (r: ButtonAppearance)
        ensures
            r == spec_button_disabled(self.palette, style),
    {
        let active = self.button_active(style);
        let palette = self.palette;
        match style {
            Button::RestorePackage => ButtonAppearance {
                background: Some(palette.normal.primary.with_alpha(5)),
                text_color: palette.bright.primary.with_alpha(50),
                ..active
            },
            Button::UninstallPackage => ButtonAppearance {
                background: Some(palette.bright.error.with_alpha(1)),
                text_color: palette.bright.error.with_alpha(50),
                ..active
            },
            _ => active,
        }
    }

    /// Resolves the pressed appearance of a button.
    pub fn button_pressed(&self, style: Button) -> (r: ButtonAppearance)
        ensures
            r == spec_button_pressed(self.palette, style),
    {
        self.button_active(style)
    }

    /// Resolves the appearance of a button for any (variant, state) pair.
    /// Resolution is total: every pair maps to a defined appearance.
    pub fn button_resolve(&self, style: Button, state: ButtonState) -> (r: ButtonAppearance)
        ensures
            r == spec_button_resolve(self.palette, style, state),
    {
        match state {
            ButtonState::Active => self.button_active(style),
            ButtonState::Hovered => self.button_hovered(style),
            ButtonState::Pressed => self.button_pressed(style),
            ButtonState::Disabled => self.button_disabled(style),
        }
    }
}

/// Builds the appearance whose background and text color are both `pair`,
/// over the base border fields.
fn from_pair(base: ButtonAppearance, pair: Color) -> (r: ButtonAppearance)
    ensures
        r == (ButtonAppearance { background: Some(pair), text_color: pair, ..base }),
{
    ButtonAppearance { background: Some(pair), text_color: pair, ..base }
}

/// A pressed button always shows its active appearance.
pub proof fn lemma_button_pressed_is_active(p: Palette, style: Button)
    ensures
        spec_button_pressed(p, style) == spec_button_active(p, style),
{
}

/// Disabling a button changes nothing visually, except for the restore and
/// uninstall package variants, which mute.
pub proof fn lemma_button_disabled_is_active(p: Palette, style: Button)
    requires
        style != Button::RestorePackage,
        style != Button::UninstallPackage,
    ensures
        spec_button_disabled(p, style) == spec_button_active(p, style),
{
}

/// The muted disabled appearances hold exactly the documented alphas: a
/// five-hundredths background tint and half-alpha text for a restore button,
/// a one-hundredth background tint and half-alpha text for an uninstall
/// button.
pub proof fn lemma_button_disabled_muted(p: Palette)
    ensures
        spec_button_disabled(p, Button::RestorePackage).background
            == Some(p.normal.primary.spec_with_alpha(5)),
        spec_button_disabled(p, Button::RestorePackage).text_color
            == p.bright.primary.spec_with_alpha(50),
        spec_button_disabled(p, Button::UninstallPackage).background
            == Some(p.bright.error.spec_with_alpha(1)),
        spec_button_disabled(p, Button::UninstallPackage).text_color
            == p.bright.error.spec_with_alpha(50),
{
}

/// Resolution preserves the palette's color invariant: a well-formed
/// palette yields a well-formed appearance for every (variant, state) pair.
pub proof fn lemma_button_resolve_preserves_wf(p: Palette, style: Button, state: ButtonState)
    requires
        p.wf(),
    ensures
        spec_button_resolve(p, style, state).wf(),
{
}

/// Hovering changes only the fill and the text color: the border fields of
/// every hovered button come from its active appearance unchanged.
pub proof fn lemma_button_hovered_keeps_border(p: Palette, style: Button)
    ensures
        spec_button_hovered(p, style).border_color == spec_button_active(p, style).border_color,
        spec_button_hovered(p, style).border_width == spec_button_active(p, style).border_width,
        spec_button_hovered(p, style).border_radius == spec_button_active(p, style).border_radius,
{
}

} // verus!
