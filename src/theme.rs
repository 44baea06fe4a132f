//! Solarized palettes and their mapping onto visuals.
use crate::color::{Color, ScaledColor, Solarized};
use crate::visuals::{Mode, ThemeVisuals, WidgetColors, Widgets};
use vstd::prelude::*;

verus! {

/// A palette: three background tiers, two text colors and eight accents.
#[derive(Clone, Copy, Debug, PartialEq, Eq, Structural)]
pub struct Theme {
    pub dark: bool,
    pub background: Color,
    pub background_highlight: Color,
    pub background_faint: Color,
    pub text: Color,
    pub text_emphasis: Color,
    pub yellow: Color,
    pub orange: Color,
    pub red: Color,
    pub magenta: Color,
    pub violet: Color,
    pub blue: Color,
    pub cyan: Color,
    pub green: Color,
}

/// Opacity of the shadows under windows and popups.
pub open spec fn shadow_alpha(dark: bool) -> u8 {
    if dark { 96 } else { 25 }
}

/// Share, in percent, of the accent kept in the selection fill: a dark
/// background needs a subtler highlight.
pub open spec fn selection_percent(dark: bool) -> u8 {
    if dark { 20 } else { 40 }
}

/// The colors of a widget state filled with `fill`.
pub open spec fn widget_colors_of(t: Theme, fill: Color) -> WidgetColors {
    WidgetColors {
        bg_fill: fill,
        weak_bg_fill: fill,
        bg_stroke_color: t.blue,
        fg_stroke_color: t.text,
    }
}

impl Theme {
    /// Solarized with a dark background.
    pub open spec fn spec_dark() -> Theme {
        Theme {
            dark: true,
            background: Solarized::Base03.spec_color(),
            background_highlight: Solarized::Base02.spec_color(),
            background_faint: Solarized::Base02.spec_color(),
            text: Solarized::Base0.spec_color(),
            text_emphasis: Solarized::Base1.spec_color(),
            yellow: Solarized::Yellow.spec_color(),
            orange: Solarized::Orange.spec_color(),
            red: Solarized::Red.spec_color(),
            magenta: Solarized::Magenta.spec_color(),
            violet: Solarized::Violet.spec_color(),
            blue: Solarized::Blue.spec_color(),
            cyan: Solarized::Cyan.spec_color(),
            green: Solarized::Green.spec_color(),
        }
    }

    /// Solarized with a light background.
    pub open spec fn spec_light() -> Theme {
        Theme {
            dark: false,
            background: Solarized::Base3.spec_color(),
            background_highlight: Solarized::Base2.spec_color(),
            background_faint: Solarized::Base2.spec_color(),
            text: Solarized::Base00.spec_color(),
            text_emphasis: Solarized::Base01.spec_color(),
            yellow: Solarized::Yellow.spec_color(),
            orange: Solarized::Orange.spec_color(),
            red: Solarized::Red.spec_color(),
            magenta: Solarized::Magenta.spec_color(),
            violet: Solarized::Violet.spec_color(),
            blue: Solarized::Blue.spec_color(),
            cyan: Solarized::Cyan.spec_color(),
            green: Solarized::Green.spec_color(),
        }
    }

    /// The visuals of this palette: the base template of its mode with every
    /// color channel taken from the palette.
    pub open spec fn spec_visuals(self) -> ThemeVisuals {
        ThemeVisuals {
            base: if self.dark { Mode::Dark } else { Mode::Light },
            dark_mode: self.dark,
            override_text_color: Some(self.text),
            hyperlink_color: self.blue,
            faint_bg_color: self.background_faint,
            extreme_bg_color: self.background,
            code_bg_color: self.background,
            warn_fg_color: self.orange,
            error_fg_color: self.red,
            window_fill: self.background,
            panel_fill: self.background,
            window_stroke_color: self.blue,
            widgets: Widgets {
                noninteractive: widget_colors_of(self, self.background),
                inactive: widget_colors_of(self, self.background_faint),
                hovered: widget_colors_of(self, self.background_highlight),
                active: widget_colors_of(self, self.text_emphasis),
                open: widget_colors_of(self, self.background_faint),
            },
            selection_bg_fill: ScaledColor { base: self.blue, percent: selection_percent(self.dark) },
            selection_stroke_color: self.blue,
            window_shadow_color: Color::black_alpha(shadow_alpha(self.dark)),
            popup_shadow_color: Color::black_alpha(shadow_alpha(self.dark)),
        }
    }

    pub fn solarized_dark() -> (t: Theme)
        ensures
            t == Theme::spec_dark(),
    {
        Theme {
            dark: true,
            background: Solarized::Base03.color(),
            background_highlight: Solarized::Base02.color(),
            background_faint: Solarized::Base02.color(),
            text: Solarized::Base0.color(),
            text_emphasis: Solarized::Base1.color(),
            yellow: Solarized::Yellow.color(),
            orange: Solarized::Orange.color(),
            red: Solarized::Red.color(),
            magenta: Solarized::Magenta.color(),
            violet: Solarized::Violet.color(),
            blue: Solarized::Blue.color(),
            cyan: Solarized::Cyan.color(),
            green: Solarized::Green.color(),
        }
    }

    pub fn solarized_light() -> (t: Theme)
        ensures
            t == Theme::spec_light(),
    {
        Theme {
            dark: false,
            background: Solarized::Base3.color(),
            background_highlight: Solarized::Base2.color(),
            background_faint: Solarized::Base2.color(),
            text: Solarized::Base00.color(),
            text_emphasis: Solarized::Base01.color(),
            yellow: Solarized::Yellow.color(),
            orange: Solarized::Orange.color(),
            red: Solarized::Red.color(),
            magenta: Solarized::Magenta.color(),
            violet: Solarized::Violet.color(),
            blue: Solarized::Blue.color(),
            cyan: Solarized::Cyan.color(),
            green: Solarized::Green.color(),
        }
    }

    /// Maps the palette onto visuals.
    pub fn to_visuals(&self) -> (v: ThemeVisuals)
        ensures
            v == self.spec_visuals(),
    {
        let base = if self.dark { Mode::Dark } else { Mode::Light };
        let shadow_color = if self.dark {
            Color::from_black_alpha(96)
        } else {
            Color::from_black_alpha(25)
        };
        let percent: u8 = if self.dark { 20 } else { 40 };
        let widgets = Widgets {
            noninteractive: widget_visual(self, self.background),
            inactive: widget_visual(self, self.background_faint),
            hovered: widget_visual(self, self.background_highlight),
            active: widget_visual(self, self.text_emphasis),
            open: widget_visual(self, self.background_faint),
        };
        ThemeVisuals {
            base,
            dark_mode: self.dark,
            override_text_color: Some(self.text),
            hyperlink_color: self.blue,
            faint_bg_color: self.background_faint,
            extreme_bg_color: self.background,
            code_bg_color: self.background,
            warn_fg_color: self.orange,
            error_fg_color: self.red,
            window_fill: self.background,
            panel_fill: self.background,
            window_stroke_color: self.blue,
            widgets,
            selection_bg_fill: ScaledColor { base: self.blue, percent },
            selection_stroke_color: self.blue,
            window_shadow_color: shadow_color,
            popup_shadow_color: shadow_color,
        }
    }
}

impl Default for Theme {
    /// The dark palette.
    fn default() -> (t: Theme)
        ensures
            t == Theme::spec_dark(),
    {
        Theme::solarized_dark()
    }
}

impl From<Mode> for Theme {
    /// The Solarized palette of the given mode.
    fn from(mode: Mode) -> (t: Theme)
        ensures
            mode == Mode::Dark ==> t == Theme::spec_dark(),
            mode == Mode::Light ==> t == Theme::spec_light(),
    {
        match mode {
            Mode::Dark => Theme::solarized_dark(),
            Mode::Light => Theme::solarized_light(),
        }
    }
}

impl vstd::std_specs::convert::FromSpecImpl<Mode> for Theme {
    open spec fn obeys_from_spec() -> bool {
        true
    }

    open spec fn from_spec(mode: Mode) -> Theme {
        match mode {
            Mode::Dark => Theme::spec_dark(),
            Mode::Light => Theme::spec_light(),
        }
    }
}

impl From<Theme> for ThemeVisuals {
    fn from(theme: Theme) -> (v: ThemeVisuals)
        ensures
            v == theme.spec_visuals(),
    {
        theme.to_visuals()
    }
}

impl vstd::std_specs::convert::FromSpecImpl<Theme> for ThemeVisuals {
    open spec fn obeys_from_spec() -> bool {
        true
    }

    open spec fn from_spec(theme: Theme) -> ThemeVisuals {
        theme.spec_visuals()
    }
}

impl<'a> From<&'a Theme> for ThemeVisuals {
    fn from(theme: &'a Theme) -> (v: ThemeVisuals)
        ensures
            v == theme.spec_visuals(),
    {
        theme.to_visuals()
    }
}

impl<'a> vstd::std_specs::convert::FromSpecImpl<&'a Theme> for ThemeVisuals {
    open spec fn obeys_from_spec() -> bool {
        true
    }

    open spec fn from_spec(theme: &'a Theme) -> ThemeVisuals {
        theme.spec_visuals()
    }
}

/// The colors of a widget state: both fills `bg_fill`, the border in the
/// palette's accent and the foreground in its text color.
fn widget_visual(theme: &Theme, bg_fill: Color) -> (w: WidgetColors)
    ensures
        w == widget_colors_of(*theme, bg_fill),
{
    WidgetColors {
        bg_fill,
        weak_bg_fill: bg_fill,
        bg_stroke_color: theme.blue,
        fg_stroke_color: theme.text,
    }
}

/// The output's dark-mode flag, and the base template it starts from, follow
/// the palette's `dark` flag; in particular the dark palette maps to dark
/// visuals and the light palette to light ones.
pub proof fn lemma_dark_mode_follows_palette(t: Theme)
    ensures
        t.spec_visuals().dark_mode == t.dark,
        t.spec_visuals().base == (if t.dark { Mode::Dark } else { Mode::Light }),
        Theme::spec_dark().spec_visuals().dark_mode,
        !Theme::spec_light().spec_visuals().dark_mode,
{
}

/// The selection is filled with the palette's blue scaled to a fifth of its
/// strength on a dark palette and to two fifths on a light one, and stroked
/// with that blue at full strength.
pub proof fn lemma_selection_scaling(t: Theme)
    ensures
        t.spec_visuals().selection_bg_fill.base == t.blue,
        t.dark ==> t.spec_visuals().selection_bg_fill.percent == 20,
        !t.dark ==> t.spec_visuals().selection_bg_fill.percent == 40,
        t.spec_visuals().selection_stroke_color == t.blue,
        Theme::spec_dark().spec_visuals().selection_bg_fill == (ScaledColor {
            base: Color::rgb(0x26, 0x8b, 0xd2),
            percent: 20,
        }),
        Theme::spec_light().spec_visuals().selection_bg_fill == (ScaledColor {
            base: Color::rgb(0x26, 0x8b, 0xd2),
            percent: 40,
        }),
{
}

/// Window and popup shadows are black, at opacity 96 on a dark palette and 25
/// on a light one.
pub proof fn lemma_shadow_color(t: Theme)
    ensures
        t.dark ==> t.spec_visuals().window_shadow_color == (Color { r: 0, g: 0, b: 0, a: 96 }),
        !t.dark ==> t.spec_visuals().window_shadow_color == (Color { r: 0, g: 0, b: 0, a: 25 }),
        t.spec_visuals().popup_shadow_color == t.spec_visuals().window_shadow_color,
        Theme::spec_dark().spec_visuals().window_shadow_color == (Color { r: 0, g: 0, b: 0, a: 96 }),
        Theme::spec_light().spec_visuals().window_shadow_color == (Color { r: 0, g: 0, b: 0, a: 25 }),
{
}

/// Mapping is a function of the palette alone: two mappings of one palette
/// give identical visuals.
pub proof fn lemma_to_visuals_deterministic(t: Theme, first: ThemeVisuals, second: ThemeVisuals)
    requires
        first == t.spec_visuals(),
        second == t.spec_visuals(),
    ensures
        first == second,
{
}

} // verus!
