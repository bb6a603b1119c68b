//! Container styling: panels that hold other widgets.

use vstd::prelude::*;

use crate::color::{spec_transparent, Color, Palette, Theme};

verus! {

/// The appearance of a container. Lengths are in hundredths of a unit.
#[derive(Clone, Copy, Debug, PartialEq, Eq, Structural)]
pub struct ContainerAppearance {
    pub text_color: Option<Color>,
    pub background: Option<Color>,
    pub border_radius: u16,
    pub border_width: u16,
    pub border_color: Color,
}

impl ContainerAppearance {
    /// Every color of the appearance is within the unit channel range.
    pub open spec fn wf(self) -> bool {
        (self.text_color matches Some(c) ==> c.wf())
            && (self.background matches Some(c) ==> c.wf()) && self.border_color.wf()
    }
}

/// The style variant of a container.
#[derive(Clone, Copy, Debug, PartialEq, Eq, Structural)]
pub enum Container {
    Content,
    Navigation,
    Description,
}

impl Default for Container {
    fn default() -> (d: Self)
        ensures
            d == Container::Content,
    {
        Container::Content
    }
}

/// The appearance each container variant resolves to. `Content` and
/// `Navigation` differ only in which base role fills the background;
/// `Description` adds a rounded corner.
pub open spec fn spec_container_appearance(p: Palette, style: Container) -> ContainerAppearance {
    match style {
        Container::Content => ContainerAppearance {
            text_color: Some(p.bright.surface),
            background: Some(p.base.background),
            border_radius: 0,
            border_width: 0,
            border_color: spec_transparent(),
        },
        Container::Navigation => ContainerAppearance {
            text_color: Some(p.bright.surface),
            background: Some(p.base.foreground),
            border_radius: 0,
            border_width: 0,
            border_color: spec_transparent(),
        },
        Container::Description => ContainerAppearance {
            text_color: Some(p.bright.surface),
            background: Some(p.base.foreground),
            border_radius: 500,
            border_width: 0,
            border_color: p.base.background,
        },
    }
}

/// Resolution preserves the palette's color invariant: a well-formed
/// palette yields a well-formed container appearance for every variant.
pub proof fn lemma_container_resolve_preserves_wf(p: Palette, style: Container)
    requires
        p.wf(),
    ensures
        spec_container_appearance(p, style).wf(),
{
}

impl Theme {
    /// Resolves the container appearance for `style`.
    pub fn container_appearance(&self, style: Container) -> (r: ContainerAppearance)
        ensures
            r == spec_container_appearance(self.palette, style),
    {
        match style {
            Container::Content => ContainerAppearance {
                text_color: Some(self.palette.bright.surface),
                background: Some(self.palette.base.background),
                border_radius: 0,
                border_width: 0,
                border_color: Color::transparent(),
            },
            Container::Navigation => ContainerAppearance {
                text_color: Some(self.palette.bright.surface),
                background: Some(self.palette.base.foreground),
                border_radius: 0,
                border_width: 0,
                border_color: Color::transparent(),
            },
            Container::Description => ContainerAppearance {
                text_color: Some(self.palette.bright.surface),
                background: Some(self.palette.base.foreground),
                border_radius: 500,
                border_width: 0,
                border_color: self.palette.base.background,
            },
        }
    }
}

} // verus!
