use egui_solarized::color::accent_colors;
use egui_solarized::{install, Color, Mode, ScaledColor, Solarized, Styles, Theme, ThemeVisuals};

fn black(a: u8) -> Color {
    Color { r: 0, g: 0, b: 0, a }
}

fn alpha_after_scaling(fill: ScaledColor) -> u8 {
    let c = fill.base;
    egui::Color32::from_rgba_premultiplied(c.r, c.g, c.b, c.a)
        .linear_multiply(f32::from(fill.percent) / 100.0)
        .a()
}

#[test]
fn dark_mode_follows_palette() {
    let dark = Theme::solarized_dark();
    let light = Theme::solarized_light();
    assert!(dark.dark);
    assert!(!light.dark);
    assert_eq!(dark.to_visuals().dark_mode, dark.dark);
    assert_eq!(light.to_visuals().dark_mode, light.dark);
    assert_eq!(dark.to_visuals().base, Mode::Dark);
    assert_eq!(light.to_visuals().base, Mode::Light);
}

#[test]
fn selection_fill_is_scaled_blue() {
    let dark = Theme::solarized_dark().to_visuals();
    let light = Theme::solarized_light().to_visuals();
    let blue = Color::from_rgb(0x26, 0x8b, 0xd2);
    assert_eq!(dark.selection_bg_fill, ScaledColor { base: blue, percent: 20 });
    assert_eq!(light.selection_bg_fill, ScaledColor { base: blue, percent: 40 });
    assert_eq!(dark.selection_stroke_color, blue);
    assert_eq!(light.selection_stroke_color, blue);
}

#[test]
fn selection_fill_alpha_of_opaque_accent() {
    let dark = Theme::solarized_dark().to_visuals();
    let light = Theme::solarized_light().to_visuals();
    assert_eq!(alpha_after_scaling(dark.selection_bg_fill), 51);
    assert_eq!(alpha_after_scaling(light.selection_bg_fill), 102);
}

#[test]
fn shadow_colors() {
    let dark = Theme::solarized_dark().to_visuals();
    let light = Theme::solarized_light().to_visuals();
    assert_eq!(dark.window_shadow_color, black(96));
    assert_eq!(dark.popup_shadow_color, black(96));
    assert_eq!(light.window_shadow_color, black(25));
    assert_eq!(light.popup_shadow_color, black(25));
}

#[test]
fn light_colors_with_dark_flag_take_dark_tuning() {
    let mut theme = Theme::solarized_light();
    theme.dark = true;
    let v = theme.to_visuals();
    assert!(v.dark_mode);
    assert_eq!(v.base, Mode::Dark);
    assert_eq!(v.selection_bg_fill.percent, 20);
    assert_eq!(v.window_shadow_color, black(96));
    assert_eq!(v.window_fill, Color::from_rgb(0xfd, 0xf6, 0xe3));
}

#[test]
fn mapping_twice_gives_identical_visuals() {
    let dark = Theme::solarized_dark();
    assert_eq!(dark.to_visuals(), dark.to_visuals());
    let light = Theme::solarized_light();
    assert_eq!(light.to_visuals(), light.to_visuals());
}

#[test]
fn mapping_leaves_palettes_unchanged() {
    let dark = Theme::solarized_dark();
    let light = Theme::solarized_light();
    let _ = dark.to_visuals();
    assert_eq!(light, Theme::solarized_light());
    assert_eq!(dark, Theme::solarized_dark());
    let _ = light.to_visuals();
    assert_eq!(dark, Theme::solarized_dark());
    assert_eq!(light, Theme::solarized_light());
}

#[test]
fn install_fills_both_slots() {
    let mut styles = Styles::new();
    assert_eq!(styles.dark_style, None);
    assert_eq!(styles.light_style, None);
    install(&mut styles);
    assert_eq!(styles.dark_style, Some(Theme::solarized_dark().to_visuals()));
    assert_eq!(styles.light_style, Some(Theme::solarized_light().to_visuals()));
    install(&mut styles);
    assert_eq!(styles.dark_style, Some(Theme::solarized_dark().to_visuals()));
    assert_eq!(styles.light_style, Some(Theme::solarized_light().to_visuals()));
}

#[test]
fn install_replaces_other_visuals() {
    let light = Theme::solarized_light().to_visuals();
    let mut styles = Styles { dark_style: Some(light), light_style: None };
    install(&mut styles);
    assert_eq!(styles.dark_style, Some(Theme::solarized_dark().to_visuals()));
    assert_eq!(styles.light_style, Some(light));
}

#[test]
fn dark_palette_end_to_end() {
    let palette = Theme::solarized_dark();
    assert_eq!(palette.background, Color::from_rgb(0x00, 0x2b, 0x36));
    assert_eq!(palette.text, Color::from_rgb(0x83, 0x94, 0x96));
    assert_eq!(palette.blue, Color::from_rgb(0x26, 0x8b, 0xd2));
    let v = palette.to_visuals();
    assert_eq!(v.window_fill, Color::from_rgb(0x00, 0x2b, 0x36));
    assert_eq!(v.override_text_color, Some(Color::from_rgb(0x83, 0x94, 0x96)));
    assert_eq!(v.hyperlink_color, Color::from_rgb(0x26, 0x8b, 0xd2));
}

#[test]
fn scalar_fields_of_light_visuals() {
    let t = Theme::solarized_light();
    let v = t.to_visuals();
    assert_eq!(v.override_text_color, Some(Color::from_rgb(0x65, 0x7b, 0x83)));
    assert_eq!(v.hyperlink_color, t.blue);
    assert_eq!(v.faint_bg_color, Color::from_rgb(0xee, 0xe8, 0xd5));
    assert_eq!(v.extreme_bg_color, Color::from_rgb(0xfd, 0xf6, 0xe3));
    assert_eq!(v.code_bg_color, Color::from_rgb(0xfd, 0xf6, 0xe3));
    assert_eq!(v.warn_fg_color, Color::from_rgb(0xcb, 0x4b, 0x16));
    assert_eq!(v.error_fg_color, Color::from_rgb(0xdc, 0x32, 0x2f));
    assert_eq!(v.window_fill, t.background);
    assert_eq!(v.panel_fill, t.background);
    assert_eq!(v.window_stroke_color, t.blue);
}

#[test]
fn widget_states_of_dark_visuals() {
    let t = Theme::solarized_dark();
    let w = t.to_visuals().widgets;
    let base02 = Color::from_rgb(0x07, 0x36, 0x42);
    assert_eq!(w.noninteractive.bg_fill, t.background);
    assert_eq!(w.noninteractive.weak_bg_fill, t.background);
    assert_eq!(w.inactive.bg_fill, base02);
    assert_eq!(w.inactive.weak_bg_fill, base02);
    assert_eq!(w.hovered.bg_fill, base02);
    assert_eq!(w.active.bg_fill, Color::from_rgb(0x93, 0xa1, 0xa1));
    assert_eq!(w.active.weak_bg_fill, Color::from_rgb(0x93, 0xa1, 0xa1));
    assert_eq!(w.open.bg_fill, base02);
    for s in [w.noninteractive, w.inactive, w.hovered, w.active, w.open] {
        assert_eq!(s.bg_stroke_color, t.blue);
        assert_eq!(s.fg_stroke_color, t.text);
    }
}

#[test]
fn conversions_and_default() {
    assert_eq!(Theme::default(), Theme::solarized_dark());
    assert_eq!(Theme::from(Mode::Dark), Theme::solarized_dark());
    assert_eq!(Theme::from(Mode::Light), Theme::solarized_light());
    let light = Theme::solarized_light();
    assert_eq!(ThemeVisuals::from(light), light.to_visuals());
    assert_eq!(ThemeVisuals::from(&light), light.to_visuals());
}

#[test]
fn color_constructors() {
    assert_eq!(Color::from_rgb(1, 2, 3), Color { r: 1, g: 2, b: 3, a: 255 });
    assert_eq!(Color::from_black_alpha(7), black(7));
    let c = egui::Color32::from_black_alpha(96);
    assert_eq!(Color::from_black_alpha(96), Color { r: c.r(), g: c.g(), b: c.b(), a: c.a() });
}

#[test]
fn solarized_tones() {
    assert_eq!(Solarized::Base03.color(), Color::from_rgb(0x00, 0x2b, 0x36));
    assert_eq!(Solarized::Base3.color(), Color::from_rgb(0xfd, 0xf6, 0xe3));
    assert_eq!(Solarized::Magenta.color(), Color::from_rgb(0xd3, 0x36, 0x82));
    let accents = accent_colors();
    assert_eq!(accents[0], Solarized::Yellow.color());
    assert_eq!(accents[5], Solarized::Blue.color());
    assert_eq!(accents[7], Color::from_rgb(0x85, 0x99, 0x00));
}
