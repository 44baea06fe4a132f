//! The color side of egui's `Visuals`: every channel that a theme sets.
//!
//! Stroke widths, rounding, spacing and the other non-color settings are not
//! held here: they come unchanged from the base template that `base` names.
use crate::color::{Color, ScaledColor};
use vstd::prelude::*;

verus! {

/// Which built-in egui template a set of visuals starts from.
#[derive(Clone, Copy, Debug, PartialEq, Eq, Structural)]
pub enum Mode {
    Dark,
    Light,
}

/// The colors of a widget in one interaction state (egui's `WidgetVisuals`).
#[derive(Clone, Copy, Debug, PartialEq, Eq, Structural)]
pub struct WidgetColors {
    pub bg_fill: Color,
    pub weak_bg_fill: Color,
    pub bg_stroke_color: Color,
    pub fg_stroke_color: Color,
}

/// The colors of widgets in each of the five interaction states.
#[derive(Clone, Copy, Debug, PartialEq, Eq, Structural)]
pub struct Widgets {
    pub noninteractive: WidgetColors,
    pub inactive: WidgetColors,
    pub hovered: WidgetColors,
    pub active: WidgetColors,
    pub open: WidgetColors,
}

/// The colors that a theme lays over one of egui's base visuals.
#[derive(Clone, Copy, Debug, PartialEq, Eq, Structural)]
pub struct ThemeVisuals {
    pub base: Mode,
    pub dark_mode: bool,
    pub override_text_color: Option<Color>,
    pub hyperlink_color: Color,
    pub faint_bg_color: Color,
    pub extreme_bg_color: Color,
    pub code_bg_color: Color,
    pub warn_fg_color: Color,
    pub error_fg_color: Color,
    pub window_fill: Color,
    pub panel_fill: Color,
    pub window_stroke_color: Color,
    pub widgets: Widgets,
    pub selection_bg_fill: ScaledColor,
    pub selection_stroke_color: Color,
    pub window_shadow_color: Color,
    pub popup_shadow_color: Color,
}

} // verus!
