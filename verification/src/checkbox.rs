//! Checkbox styling: package and settings checkboxes, enabled or disabled.

use vstd::prelude::*;

use crate::color::{Color, Palette, Theme};

verus! {

/// The appearance of a checkbox. Lengths are in hundredths of a unit.
#[derive(Clone, Copy, Debug, PartialEq, Eq, Structural)]
pub struct CheckboxAppearance {
    pub background: Color,
    pub checkmark_color: Color,
    pub border_radius: u16,
    pub border_width: u16,
    pub border_color: Color,
    pub text_color: Option<Color>,
}

impl CheckboxAppearance {
    /// Every color of the appearance is within the unit channel range.
    pub open spec fn wf(self) -> bool {
        self.background.wf() && self.checkmark_color.wf() && self.border_color.wf()
            && (self.text_color matches Some(c) ==> c.wf())
    }
}

/// The style variant of a checkbox.
#[derive(Clone, Copy, Debug, PartialEq, Eq, Structural)]
pub enum CheckBox {
    PackageEnabled,
    PackageDisabled,
    SettingsEnabled,
    SettingsDisabled,
}

impl Default for CheckBox {
    fn default() -> (d: Self)
        ensures
            d == CheckBox::PackageEnabled,
    {
        CheckBox::PackageEnabled
    }
}

/// The interaction states a checkbox can be in.
#[derive(Clone, Copy, Debug, PartialEq, Eq, Structural)]
pub enum CheckBoxState {
    Active,
    Hovered,
}

/// The appearance each checkbox variant resolves to in its active state.
/// The enabled and disabled variants differ mainly in background alpha and
/// border presence. The appearance does not depend on whether the box is
/// checked.
pub open spec fn spec_checkbox_active(p: Palette, style: CheckBox) -> CheckboxAppearance {
    match style {
        CheckBox::PackageEnabled => CheckboxAppearance {
            background: p.base.background,
            checkmark_color: p.bright.primary,
            border_radius: 500,
            border_width: 100,
            border_color: p.base.background,
            text_color: Some(p.bright.surface),
        },
        CheckBox::PackageDisabled => CheckboxAppearance {
            background: p.base.background.spec_with_alpha(55),
            checkmark_color: p.bright.primary,
            border_radius: 500,
            border_width: 0,
            border_color: p.normal.primary,
            text_color: Some(p.normal.primary),
        },
        CheckBox::SettingsEnabled => CheckboxAppearance {
            background: p.base.background,
            checkmark_color: p.bright.primary,
            border_radius: 500,
            border_width: 100,
            border_color: p.bright.primary,
            text_color: Some(p.bright.surface),
        },
        CheckBox::SettingsDisabled => CheckboxAppearance {
            background: p.base.foreground,
            checkmark_color: p.bright.primary,
            border_radius: 500,
            border_width: 100,
            border_color: p.normal.primary,
            text_color: Some(p.normal.primary),
        },
    }
}

/// The appearance each checkbox variant resolves to under the pointer: the
/// two enabled variants brighten, the two disabled variants keep their
/// active appearance (a disabled widget shows no hover feedback).
pub open spec fn spec_checkbox_hovered(p: Palette, style: CheckBox) -> CheckboxAppearance {
    match style {
        CheckBox::PackageEnabled => CheckboxAppearance {
            background: p.bright.primary.spec_with_alpha(50),
            checkmark_color: p.bright.primary,
            border_radius: 500,
            border_width: 200,
            border_color: p.bright.primary.spec_with_alpha(50),
            text_color: Some(p.bright.surface),
        },
        CheckBox::SettingsEnabled => CheckboxAppearance {
            background: p.base.foreground,
            checkmark_color: p.bright.primary,
            border_radius: 500,
            border_width: 200,
            border_color: p.bright.primary,
            text_color: Some(p.bright.surface),
        },
        CheckBox::PackageDisabled => spec_checkbox_active(p, style),
        CheckBox::SettingsDisabled => spec_checkbox_active(p, style),
    }
}

impl Theme {
    /// Resolves the active appearance of a checkbox. The appearance is the
    /// same whether or not the box is checked.
    pub fn checkbox_active(&self, style: CheckBox, _is_checked: bool) -> (r: CheckboxAppearance)
        ensures
            r == spec_checkbox_active(self.palette, style),
    {
        match style {
            CheckBox::PackageEnabled => CheckboxAppearance {
                background: self.palette.base.background,
                checkmark_color: self.palette.bright.primary,
                border_radius: 500,
                border_width: 100,
                border_color: self.palette.base.background,
                text_color: Some(self.palette.bright.surface),
            },
            CheckBox::PackageDisabled => CheckboxAppearance {
                background: self.palette.base.background.with_alpha(55),
                checkmark_color: self.palette.bright.primary,
                border_radius: 500,
                border_width: 0,
                border_color: self.palette.normal.primary,
                text_color: Some(self.palette.normal.primary),
            },
            CheckBox::SettingsEnabled => CheckboxAppearance {
                background: self.palette.base.background,
                checkmark_color: self.palette.bright.primary,
                border_radius: 500,
                border_width: 100,
                border_color: self.palette.bright.primary,
                text_color: Some(self.palette.bright.surface),
            },
            CheckBox::SettingsDisabled => CheckboxAppearance {
                background: self.palette.base.foreground,
                checkmark_color: self.palette.bright.primary,
                border_radius: 500,
                border_width: 100,
                border_color: self.palette.normal.primary,
                text_color: Some(self.palette.normal.primary),
            },
        }
    }

    /// Resolves the hovered appearance of a checkbox. The appearance is the
    /// same whether or not the box is checked.
    pub fn checkbox_hovered(&self, style: CheckBox, is_checked: bool) -> (r: CheckboxAppearance)
        ensures
            r == spec_checkbox_hovered(self.palette, style),
    {
        match style {
            CheckBox::PackageEnabled => CheckboxAppearance {
                background: self.palette.bright.primary.with_alpha(50),
                checkmark_color: self.palette.bright.primary,
                border_radius: 500,
                border_width: 200,
                border_color: self.palette.bright.primary.with_alpha(50),
                text_color: Some(self.palette.bright.surface),
            },
            CheckBox::SettingsEnabled => CheckboxAppearance {
                background: self.palette.base.foreground,
                checkmark_color: self.palette.bright.primary,
                border_radius: 500,
                border_width: 200,
                border_color: self.palette.bright.primary,
                text_color: Some(self.palette.bright.surface),
            },
            CheckBox::PackageDisabled => self.checkbox_active(style, is_checked),
            CheckBox::SettingsDisabled => self.checkbox_active(style, is_checked),
        }
    }

    /// Resolves the appearance of a checkbox for any (variant, state) pair,
    /// checked or not.
    pub fn checkbox_resolve(&self, style: CheckBox, state: CheckBoxState, is_checked: bool)
        -> (r: CheckboxAppearance)
        ensures
            r == spec_checkbox_resolve(self.palette, style, state),
    {
        match state {
            CheckBoxState::Active => self.checkbox_active(style, is_checked),
            CheckBoxState::Hovered => self.checkbox_hovered(style, is_checked),
        }
    }
}

/// The full resolution table of a checkbox: one appearance for every
/// (variant, state) pair, defined on all of them and independent of whether
/// the box is checked.
pub open spec fn spec_checkbox_resolve(p: Palette, style: CheckBox, state: CheckBoxState)
    -> CheckboxAppearance {
    match state {
        CheckBoxState::Active => spec_checkbox_active(p, style),
        CheckBoxState::Hovered => spec_checkbox_hovered(p, style),
    }
}

/// Resolution preserves the palette's color invariant: a well-formed
/// palette yields a well-formed appearance for every (variant, state) pair.
pub proof fn lemma_checkbox_resolve_preserves_wf(p: Palette, style: CheckBox, state: CheckBoxState)
    requires
        p.wf(),
    ensures
        spec_checkbox_resolve(p, style, state).wf(),
{
}

/// A disabled checkbox shows no hover feedback: for the two disabled
/// variants the hovered appearance is the active appearance.
pub proof fn lemma_checkbox_disabled_hover_is_active(p: Palette, style: CheckBox)
    requires
        style == CheckBox::PackageDisabled || style == CheckBox::SettingsDisabled,
    ensures
        spec_checkbox_hovered(p, style) == spec_checkbox_active(p, style),
{
}

} // verus!
