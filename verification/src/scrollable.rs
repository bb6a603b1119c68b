//! Scrollable styling: the scrollbar and its scroller.

use vstd::prelude::*;

use crate::color::{spec_transparent, Color, Palette, Theme};

verus! {

/// The handle that slides inside a scrollbar. Lengths are in hundredths of
/// a unit.
#[derive(Clone, Copy, Debug, PartialEq, Eq, Structural)]
pub struct Scroller {
    pub color: Color,
    pub border_radius: u16,
    pub border_width: u16,
    pub border_color: Color,
}

/// The appearance of a scrollbar. Lengths are in hundredths of a unit.
#[derive(Clone, Copy, Debug, PartialEq, Eq, Structural)]
pub struct Scrollbar {
    pub background: Option<Color>,
    pub border_radius: u16,
    pub border_width: u16,
    pub border_color: Color,
    pub scroller: Scroller,
}

impl Scroller {
    /// Every color of the scroller is within the unit channel range.
    pub open spec fn wf(self) -> bool {
        self.color.wf() && self.border_color.wf()
    }
}

impl Scrollbar {
    /// Every color of the scrollbar is within the unit channel range.
    pub open spec fn wf(self) -> bool {
        (self.background matches Some(c) ==> c.wf()) && self.border_color.wf()
            && self.scroller.wf()
    }
}

/// The style variant of a scrollable area.
#[derive(Clone, Copy, Debug, PartialEq, Eq, Structural)]
pub enum Scrollable {
    Description,
    Packages,
}

impl Default for Scrollable {
    fn default() -> (d: Self)
        ensures
            d == Scrollable::Description,
    {
        Scrollable::Description
    }
}

/// The interaction states a scrollable area can be in.
#[derive(Clone, Copy, Debug, PartialEq, Eq, Structural)]
pub enum ScrollableState {
    Active,
    Hovered,
    Dragging,
}

/// The scrollbar each variant resolves to: the two variants differ in which
/// base role fills the background and in the scroller's corner radius.
pub open spec fn spec_scrollable_active(p: Palette, style: Scrollable) -> Scrollbar {
    match style {
        Scrollable::Description => Scrollbar {
            background: Some(p.base.foreground),
            border_radius: 500,
            border_width: 0,
            border_color: spec_transparent(),
            scroller: Scroller {
                color: p.base.foreground,
                border_radius: 0,
                border_width: 0,
                border_color: spec_transparent(),
            },
        },
        Scrollable::Packages => Scrollbar {
            background: Some(p.base.background),
            border_radius: 0,
            border_width: 0,
            border_color: spec_transparent(),
            scroller: Scroller {
                color: p.base.foreground,
                border_radius: 200,
                border_width: 0,
                border_color: spec_transparent(),
            },
        },
    }
}

impl Theme {
    /// Resolves the active appearance of a scrollbar.
    pub fn scrollable_active(&self, style: Scrollable) -> (r: Scrollbar)
        ensures
            r == spec_scrollable_active(self.palette, style),
    {
        match style {
            Scrollable::Description => Scrollbar {
                background: Some(self.palette.base.foreground),
                border_radius: 500,
                border_width: 0,
                border_color: Color::transparent(),
                scroller: Scroller {
                    color: self.palette.base.foreground,
                    border_radius: 0,
                    border_width: 0,
                    border_color: Color::transparent(),
                },
            },
            Scrollable::Packages => Scrollbar {
                background: Some(self.palette.base.background),
                border_radius: 0,
                border_width: 0,
                border_color: Color::transparent(),
                scroller: Scroller {
                    color: self.palette.base.foreground,
                    border_radius: 200,
                    border_width: 0,
                    border_color: Color::transparent(),
                },
            },
        }
    }

    /// Resolves the hovered appearance of a scrollbar: scrollbars show no
    /// distinct hover visuals, so this is the active appearance.
    pub fn scrollable_hovered(&self, style: Scrollable) -> (r: Scrollbar)
        ensures
            r == spec_scrollable_active(self.palette, style),
    {
        self.scrollable_active(style)
    }

    /// Resolves the appearance of a scrollbar while its scroller is dragged:
    /// identical to the hovered, and so to the active, appearance.
    pub fn scrollable_dragging(&self, style: Scrollable) -> (r: Scrollbar)
        ensures
            r == spec_scrollable_active(self.palette, style),
    {
        self.scrollable_hovered(style)
    }

    /// Resolves the appearance of a scrollbar for any (variant, state) pair.
    /// Scrollbars show no distinct interaction visuals, so every state
    /// resolves to the active appearance.
    pub fn scrollable_resolve(&self, style: Scrollable, state: ScrollableState) -> (r: Scrollbar)
        ensures
            r == spec_scrollable_resolve(self.palette, style, state),
    {
        match state {
            ScrollableState::Active => self.scrollable_active(style),
            ScrollableState::Hovered => self.scrollable_hovered(style),
            ScrollableState::Dragging => self.scrollable_dragging(style),
        }
    }
}

/// The full resolution table of a scrollbar: the interaction state never
/// changes the appearance.
pub open spec fn spec_scrollable_resolve(p: Palette, style: Scrollable, state: ScrollableState)
    -> Scrollbar {
    spec_scrollable_active(p, style)
}

/// Resolution preserves the palette's color invariant: a well-formed
/// palette yields a well-formed scrollbar for every (variant, state) pair.
pub proof fn lemma_scrollable_resolve_preserves_wf(
    p: Palette,
    style: Scrollable,
    state: ScrollableState,
)
    requires
        p.wf(),
    ensures
        spec_scrollable_resolve(p, style, state).wf(),
{
}

/// A scrollbar looks the same in every interaction state: hovered and
/// dragging resolve exactly as active.
pub proof fn lemma_scrollable_state_irrelevant(
    p: Palette,
    style: Scrollable,
    s1: ScrollableState,
    s2: ScrollableState,
)
    ensures
        spec_scrollable_resolve(p, style, s1) == spec_scrollable_resolve(p, style, s2),
{
}

} // verus!
