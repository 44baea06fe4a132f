//! The style slots of an application: one set of visuals for dark mode and
//! one for light mode, which the last `install` fills.
use crate::theme::Theme;
use crate::visuals::ThemeVisuals;
use vstd::prelude::*;

verus! {

/// Visuals registered for each mode; `None` leaves the toolkit's own.
#[derive(Clone, Copy, Debug, PartialEq, Eq, Structural)]
pub struct Styles {
    pub dark_style: Option<ThemeVisuals>,
    pub light_style: Option<ThemeVisuals>,
}

impl Styles {
    /// No visuals registered yet.
    pub fn new() -> (s: Styles)
        ensures
            s.dark_style is None,
            s.light_style is None,
    {
        Styles { dark_style: None, light_style: None }
    }
}

/// Registers the dark and the light Solarized visuals, replacing whatever
/// was registered before.
pub fn install(styles: &mut Styles)
    ensures
        final(styles).dark_style == Some(Theme::spec_dark().spec_visuals()),
        final(styles).light_style == Some(Theme::spec_light().spec_visuals()),
{
    styles.dark_style = Some(Theme::solarized_dark().to_visuals());
    styles.light_style = Some(Theme::solarized_light().to_visuals());
}

} // verus!
