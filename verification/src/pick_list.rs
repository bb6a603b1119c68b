//! Pick-list styling: the closed selector and its dropdown menu overlay.

use vstd::prelude::*;

use crate::color::{Color, Palette, Theme};

verus! {

/// The appearance of the dropdown menu overlay. Lengths are in hundredths
/// of a unit.
#[derive(Clone, Copy, Debug, PartialEq, Eq, Structural)]
pub struct MenuAppearance {
    pub text_color: Color,
    pub background: Color,
    pub border_width: u16,
    pub border_color: Color,
    pub selected_text_color: Color,
    pub selected_background: Color,
}

/// The appearance of the closed pick-list. Lengths are in hundredths of a
/// unit; `icon_size` is a fraction of the font size in the same fixed point.
#[derive(Clone, Copy, Debug, PartialEq, Eq, Structural)]
pub struct PickListAppearance {
    pub text_color: Color,
    pub background: Color,
    pub border_width: u16,
    pub border_color: Color,
    pub border_radius: u16,
    pub icon_size: u16,
    pub placeholder_color: Color,
}

impl MenuAppearance {
    /// Every color of the menu appearance is within the unit channel range.
    pub open spec fn wf(self) -> bool {
        self.text_color.wf() && self.background.wf() && self.border_color.wf()
            && self.selected_text_color.wf() && self.selected_background.wf()
    }
}

impl PickListAppearance {
    /// Every color of the appearance is within the unit channel range.
    pub open spec fn wf(self) -> bool {
        self.text_color.wf() && self.background.wf() && self.border_color.wf()
            && self.placeholder_color.wf()
    }
}

/// The style variant of a pick-list: there is a single one.
#[derive(Clone, Copy, Debug, PartialEq, Eq, Structural)]
pub enum PickList {
    Base,
}

impl Default for PickList {
    fn default() -> (d: Self)
        ensures
            d == PickList::Base,
    {
        PickList::Base
    }
}

/// The interaction states a pick-list can be in.
#[derive(Clone, Copy, Debug, PartialEq, Eq, Structural)]
pub enum PickListState {
    Active,
    Hovered,
}

/// The appearance of the dropdown menu overlay.
pub open spec fn spec_menu_appearance(p: Palette) -> MenuAppearance {
    MenuAppearance {
        text_color: p.base.foreground,
        background: p.base.background,
        border_width: 100,
        border_color: p.base.background,
        selected_text_color: p.base.foreground,
        selected_background: p.base.foreground,
    }
}

/// The appearance of the closed pick-list at rest.
pub open spec fn spec_pick_list_active(p: Palette) -> PickListAppearance {
    PickListAppearance {
        text_color: p.bright.surface,
        background: p.base.background,
        border_width: 100,
        border_color: p.normal.primary.spec_with_alpha(50),
        border_radius: 200,
        icon_size: 50,
        placeholder_color: p.bright.surface,
    }
}

/// The appearance of the closed pick-list under the pointer: only the text
/// color brightens; every other field comes from the active appearance.
pub open spec fn spec_pick_list_hovered(p: Palette) -> PickListAppearance {
    PickListAppearance {
        text_color: p.bright.primary,
        ..spec_pick_list_active(p)
    }
}

impl Theme {
    /// Resolves the appearance of the dropdown menu overlay.
    pub fn menu_appearance(&self) -> (r: MenuAppearance)
        ensures
            r == spec_menu_appearance(self.palette),
    {
        MenuAppearance {
            text_color: self.palette.base.foreground,
            background: self.palette.base.background,
            border_width: 100,
            border_color: self.palette.base.background,
            selected_text_color: self.palette.base.foreground,
            selected_background: self.palette.base.foreground,
        }
    }

    /// Resolves the active appearance of the closed pick-list.
    pub fn pick_list_active(&self, _style: PickList) -> (r: PickListAppearance)
        ensures
            r == spec_pick_list_active(self.palette),
    {
        PickListAppearance {
            text_color: self.palette.bright.surface,
            background: self.palette.base.background,
            border_width: 100,
            border_color: self.palette.normal.primary.with_alpha(50),
            border_radius: 200,
            icon_size: 50,
            placeholder_color: self.palette.bright.surface,
        }
    }

    /// Resolves the hovered appearance of the closed pick-list.
    pub fn pick_list_hovered(&self, style: PickList) -> (r: PickListAppearance)
        ensures
            r == spec_pick_list_hovered(self.palette),
    {
        let active = self.pick_list_active(style);
        PickListAppearance {
            text_color: self.palette.bright.primary,
            ..active
        }
    }

    /// Resolves the appearance of the closed pick-list for any state.
    pub fn pick_list_resolve(&self, style: PickList, state: PickListState)
        -> (r: PickListAppearance)
        ensures
            r == spec_pick_list_resolve(self.palette, state),
    {
        match state {
            PickListState::Active => self.pick_list_active(style),
            PickListState::Hovered => self.pick_list_hovered(style),
        }
    }
}

/// The full resolution table of the closed pick-list.
pub open spec fn spec_pick_list_resolve(p: Palette, state: PickListState) -> PickListAppearance {
    match state {
        PickListState::Active => spec_pick_list_active(p),
        PickListState::Hovered => spec_pick_list_hovered(p),
    }
}

/// Resolution preserves the palette's color invariant, for the menu overlay
/// and for the closed pick-list in every state.
pub proof fn lemma_pick_list_resolve_preserves_wf(p: Palette, state: PickListState)
    requires
        p.wf(),
    ensures
        spec_menu_appearance(p).wf(),
        spec_pick_list_resolve(p, state).wf(),
{
}

/// Hovering the pick-list changes only the text color: every other field of
/// the hovered appearance comes from the active appearance unchanged.
pub proof fn lemma_pick_list_hover_changes_text_only(p: Palette)
    ensures
        spec_pick_list_hovered(p) == (PickListAppearance {
            text_color: p.bright.primary,
            ..spec_pick_list_active(p)
        }),
{
}

} // verus!
