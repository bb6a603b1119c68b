//! Application-level styling: the window's background and default text color.
//!
//! The toolkit-facing style set also admits a caller-supplied transform from
//! the theme to a full appearance (an opaque function value). That escape
//! hatch is host logic, not part of this library: the host applies its own
//! function and never consults the palette, so nothing of it can be stated
//! here. This module resolves the themed variant.

use vstd::prelude::*;

use crate::color::{Color, Palette, Theme};

verus! {

/// The appearance of the application's root surface.
#[derive(Clone, Copy, Debug, PartialEq, Eq, Structural)]
pub struct ApplicationAppearance {
    pub background_color: Color,
    pub text_color: Color,
}

/// The style variant of the application's root surface.
#[derive(Clone, Copy, Debug, PartialEq, Eq, Structural)]
pub enum Application {
    Default,
}

impl Default for Application {
    fn default() -> (d: Self)
        ensures
            d == Application::Default,
    {
        Application::Default
    }
}

/// The appearance that the themed variant resolves to: the base background
/// behind base foreground text.
pub open spec fn spec_application_appearance(p: Palette) -> ApplicationAppearance {
    ApplicationAppearance {
        background_color: p.base.background,
        text_color: p.base.foreground,
    }
}

impl ApplicationAppearance {
    /// Both colors of the appearance are within the unit channel range.
    pub open spec fn wf(self) -> bool {
        self.background_color.wf() && self.text_color.wf()
    }
}

/// Resolution preserves the palette's color invariant.
pub proof fn lemma_application_resolve_preserves_wf(p: Palette)
    requires
        p.wf(),
    ensures
        spec_application_appearance(p).wf(),
{
}

impl Theme {
    /// Resolves the application-level appearance for `style`.
    pub fn application_appearance(&self, style: Application) -> (r: ApplicationAppearance)
        ensures
            r == spec_application_appearance(self.palette),
    {
        match style {
            Application::Default => ApplicationAppearance {
                background_color: self.palette.base.background,
                text_color: self.palette.base.foreground,
            },
        }
    }
}

} // verus!
