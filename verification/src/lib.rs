//! A theming layer for a desktop widget set: it maps a theme's color palette
//! and a widget's style variant plus interaction state to a concrete
//! appearance record (fill, text color, border) for a renderer to draw.
//!
//! Colors and lengths are fixed-point values in hundredths of a unit, so a
//! channel of `100` stands for a fully saturated channel and a border width
//! of `100` stands for one logical pixel.
//!
//! Resolution is total and pure: every resolver is defined on all of its
//! (variant, state) pairs with no precondition, reads the theme through a
//! shared reference, mutates nothing, and its contract equates the result
//! with one spec-level table of the palette and the inputs — so identical
//! inputs always resolve to identical appearances, and a new palette takes
//! effect on the very next resolution.

pub mod application;
pub mod button;
pub mod checkbox;
pub mod color;
pub mod container;
pub mod laws;
pub mod pick_list;
pub mod scrollable;
pub mod text;
pub mod text_input;

pub use color::{Color, ColorGroup, Palette, Theme};
