//! The Solarized color scheme as a set of visuals for egui.
pub mod color;
pub mod theme;
pub mod visuals;

pub use color::{Color, ScaledColor, Solarized};
pub use theme::Theme;
pub use visuals::{Mode, ThemeVisuals, WidgetColors, Widgets};
pub mod styles;

pub use styles::{install, Styles};
