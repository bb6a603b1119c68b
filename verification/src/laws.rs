//! Resolution is a mathematical function of the palette and the requested
//! (variant, state) pair: every resolver's contract equates its result with
//! one spec-level table. The lemmas here state the consequence directly:
//! two resolutions of identical inputs are identical, for every widget kind.
//! Each lemma quantifies over the results themselves, so it speaks about any
//! two values that satisfy the corresponding resolver's contract.

use vstd::prelude::*;

use crate::application::{spec_application_appearance, ApplicationAppearance};
use crate::button::{spec_button_resolve, Button, ButtonAppearance, ButtonState};
use crate::checkbox::{spec_checkbox_resolve, CheckBox, CheckBoxState, CheckboxAppearance};
use crate::color::Palette;
use crate::container::{spec_container_appearance, Container, ContainerAppearance};
use crate::pick_list::{spec_pick_list_resolve, PickListAppearance, PickListState};
use crate::scrollable::{spec_scrollable_resolve, Scrollable, ScrollableState, Scrollbar};
use crate::text::{spec_text_appearance, Text, TextAppearance};
use crate::text_input::{spec_text_input_resolve, TextInputAppearance, TextInputState};

verus! {

/// Two button resolutions of identical inputs are identical.
pub proof fn lemma_button_resolution_deterministic(
    p: Palette,
    style: Button,
    state: ButtonState,
    r1: ButtonAppearance,
    r2: ButtonAppearance,
)
    requires
        r1 == spec_button_resolve(p, style, state),
        r2 == spec_button_resolve(p, style, state),
    ensures
        r1 == r2,
{
}

/// Two container resolutions of identical inputs are identical.
pub proof fn lemma_container_resolution_deterministic(
    p: Palette,
    style: Container,
    r1: ContainerAppearance,
    r2: ContainerAppearance,
)
    requires
        r1 == spec_container_appearance(p, style),
        r2 == spec_container_appearance(p, style),
    ensures
        r1 == r2,
{
}

/// Two scrollbar resolutions of identical inputs are identical.
pub proof fn lemma_scrollable_resolution_deterministic(
    p: Palette,
    style: Scrollable,
    state: ScrollableState,
    r1: Scrollbar,
    r2: Scrollbar,
)
    requires
        r1 == spec_scrollable_resolve(p, style, state),
        r2 == spec_scrollable_resolve(p, style, state),
    ensures
        r1 == r2,
{
}

/// Two checkbox resolutions of identical inputs are identical.
pub proof fn lemma_checkbox_resolution_deterministic(
    p: Palette,
    style: CheckBox,
    state: CheckBoxState,
    r1: CheckboxAppearance,
    r2: CheckboxAppearance,
)
    requires
        r1 == spec_checkbox_resolve(p, style, state),
        r2 == spec_checkbox_resolve(p, style, state),
    ensures
        r1 == r2,
{
}

/// Two text-input resolutions of identical inputs are identical.
pub proof fn lemma_text_input_resolution_deterministic(
    p: Palette,
    state: TextInputState,
    r1: TextInputAppearance,
    r2: TextInputAppearance,
)
    requires
        r1 == spec_text_input_resolve(p, state),
        r2 == spec_text_input_resolve(p, state),
    ensures
        r1 == r2,
{
}

/// Two pick-list resolutions of identical inputs are identical.
pub proof fn lemma_pick_list_resolution_deterministic(
    p: Palette,
    state: PickListState,
    r1: PickListAppearance,
    r2: PickListAppearance,
)
    requires
        r1 == spec_pick_list_resolve(p, state),
        r2 == spec_pick_list_resolve(p, state),
    ensures
        r1 == r2,
{
}

/// Two application-level resolutions over the same palette are identical.
pub proof fn lemma_application_resolution_deterministic(
    p: Palette,
    r1: ApplicationAppearance,
    r2: ApplicationAppearance,
)
    requires
        r1 == spec_application_appearance(p),
        r2 == spec_application_appearance(p),
    ensures
        r1 == r2,
{
}

/// Two text resolutions of the same style are identical.
pub proof fn lemma_text_resolution_deterministic(
    style: Text,
    r1: TextAppearance,
    r2: TextAppearance,
)
    requires
        r1 == spec_text_appearance(style),
        r2 == spec_text_appearance(style),
    ensures
        r1 == r2,
{
}

} // verus!
