use innu::theme::{
    base_semantic_palette, font_name_for, parse_color_overrides, parse_hex_color, parse_optional_color, rgb,
    AppearanceOverrides, BaseMode, ColorOverrideInputs, Rgb, ThemeChoice,
};

#[test]
fn rgb_splits_channels() {
    assert_eq!(rgb(0x112233), Rgb { r: 0x11, g: 0x22, b: 0x33 });
    assert_eq!(rgb(0xFF00_0000), Rgb { r: 0, g: 0, b: 0 });
}

#[test]
fn parses_hex_colors() {
    assert_eq!(parse_hex_color("#112233"), Some(Rgb { r: 0x11, g: 0x22, b: 0x33 }));
    assert_eq!(parse_hex_color("  abcdef "), Some(Rgb { r: 0xab, g: 0xcd, b: 0xef }));
    assert_eq!(parse_hex_color(" #abcdef "), Some(rgb(0xABCDEF)));
    assert_eq!(parse_hex_color("#B56A1E"), Some(rgb(0xB56A1E)));
    assert_eq!(parse_hex_color("##ABCDEF"), None);
    assert_eq!(parse_hex_color("+12345"), None);
    assert_eq!(parse_hex_color("#+12345"), None);
    assert_eq!(parse_hex_color("# 123456"), None);
    assert_eq!(parse_hex_color("#12"), None);
    assert_eq!(parse_hex_color("#1234567"), None);
    assert_eq!(parse_hex_color("#12345g"), None);
    assert_eq!(parse_hex_color("-12345"), None);
    assert_eq!(parse_hex_color(""), None);
    assert_eq!(parse_optional_color(None), None);
    assert_eq!(parse_optional_color(Some("#000000")), Some(Rgb { r: 0, g: 0, b: 0 }));
}

#[test]
fn merges_partial_overrides_into_the_default_palette() {
    let light = ColorOverrideInputs { accent: Some("#112233".into()), ..Default::default() };
    let dark = ColorOverrideInputs { text: Some("#abcdef".into()), ..Default::default() };
    let overrides = AppearanceOverrides::from_inputs(&light, &dark, None);
    let light_palette = ThemeChoice { base: BaseMode::Light }.palette(&overrides);
    let dark_palette = ThemeChoice { base: BaseMode::Dark }.palette(&overrides);
    assert_eq!(light_palette.accent, rgb(0x112233));
    assert_eq!(light_palette.text, base_semantic_palette(BaseMode::Light).text);
    assert_eq!(dark_palette.text, rgb(0xABCDEF));
    assert_eq!(dark_palette.accent, base_semantic_palette(BaseMode::Dark).accent);
}

#[test]
fn invalid_colors_fall_back() {
    let light = ColorOverrideInputs { accent: Some("#12".into()), ..Default::default() };
    let o = parse_color_overrides(&light);
    assert_eq!(o.accent, None);
    let overrides = AppearanceOverrides::from_inputs(&light, &ColorOverrideInputs::default(), None);
    assert_eq!(
        ThemeChoice { base: BaseMode::Light }.palette(&overrides).accent,
        base_semantic_palette(BaseMode::Light).accent
    );
}

#[test]
fn modes_keep_their_own_overrides() {
    let light = ColorOverrideInputs { background: Some("#ffffff".into()), ..Default::default() };
    let dark = ColorOverrideInputs { background: Some("#000000".into()), ..Default::default() };
    let overrides = AppearanceOverrides::from_inputs(&light, &dark, None);
    assert_eq!(ThemeChoice { base: BaseMode::Light }.palette(&overrides).background, rgb(0xFFFFFF));
    assert_eq!(ThemeChoice { base: BaseMode::Dark }.palette(&overrides).background, rgb(0x000000));
}

#[test]
fn no_overrides_give_the_built_in_palettes() {
    let none = AppearanceOverrides::none();
    assert_eq!(ThemeChoice { base: BaseMode::Dark }.palette(&none), base_semantic_palette(BaseMode::Dark));
    assert_eq!(base_semantic_palette(BaseMode::Light).background, Rgb { r: 0xF5, g: 0xF3, b: 0xEE });
    assert_eq!(base_semantic_palette(BaseMode::Dark).error, Rgb { r: 0xD0, g: 0x7C, b: 0x7C });
}

#[test]
fn theme_choice_toggles() {
    let mut t = ThemeChoice::default();
    assert_eq!(t.base, BaseMode::Dark);
    t.toggle_base();
    assert_eq!(t.base, BaseMode::Light);
    t.toggle_base();
    assert_eq!(t.base, BaseMode::Dark);
}

#[test]
fn font_names() {
    assert_eq!(font_name_for(Some("Inter")), "user_ui_font_Inter");
    assert_eq!(font_name_for(None), "user_ui_font_custom");
}

fn color_inputs(table: &toml::Table, mode: &str) -> ColorOverrideInputs {
    let colors = table.get(mode).and_then(|v| v.get("colors")).and_then(|v| v.as_table());
    let pick = |key: &str| colors.and_then(|c| c.get(key)).and_then(|v| v.as_str()).map(|s| s.to_string());
    ColorOverrideInputs {
        background: pick("background"),
        surface: pick("surface"),
        border: pick("border"),
        text: pick("text"),
        text_muted: pick("text_muted"),
        accent: pick("accent"),
        success: pick("success"),
        warning: pick("warning"),
        error: pick("error"),
    }
}

fn overrides_from_toml(raw: &str) -> AppearanceOverrides {
    let table: toml::Table = raw.parse().unwrap();
    AppearanceOverrides::from_inputs(&color_inputs(&table, "light"), &color_inputs(&table, "dark"), None)
}

#[test]
fn merges_partial_mode_overrides_into_default_palette() {
    let overrides = overrides_from_toml(
        r##"
            [light.colors]
            accent = "#112233"

            [dark.colors]
            text = "#abcdef"
            "##,
    );
    let light = ThemeChoice { base: BaseMode::Light }.palette(&overrides);
    let dark = ThemeChoice { base: BaseMode::Dark }.palette(&overrides);
    assert_eq!(light.accent, rgb(0x112233));
    assert_eq!(light.text, base_semantic_palette(BaseMode::Light).text);
    assert_eq!(dark.text, rgb(0xABCDEF));
    assert_eq!(dark.accent, base_semantic_palette(BaseMode::Dark).accent);
}

#[test]
fn ignores_invalid_hex_colors() {
    let overrides = overrides_from_toml(
        r##"
            [light.colors]
            accent = "#12"
            "##,
    );
    let light = ThemeChoice { base: BaseMode::Light }.palette(&overrides);
    assert_eq!(light.accent, base_semantic_palette(BaseMode::Light).accent);
}

#[test]
fn keeps_mode_specific_overrides_separate() {
    let overrides = overrides_from_toml(
        r##"
            [light.colors]
            background = "#ffffff"

            [dark.colors]
            background = "#000000"
            "##,
    );
    let light = ThemeChoice { base: BaseMode::Light }.palette(&overrides);
    let dark = ThemeChoice { base: BaseMode::Dark }.palette(&overrides);
    assert_eq!(light.background, rgb(0xFFFFFF));
    assert_eq!(dark.background, rgb(0x000000));
}

#[test]
fn documented_example_overrides_restate_the_built_in_palettes() {
    let overrides = overrides_from_toml(
        r##"
[fonts]
ui = "/absolute/path/to/font.ttf"

[light.colors]
background = "#F5F3EE"
surface = "#FFFDF8"
border = "#1F1A17"
text = "#171311"
text_muted = "#5E5750"
accent = "#B56A1E"
success = "#2F6B45"
warning = "#8A5A12"
error = "#8C2F2F"

[dark.colors]
background = "#101010"
surface = "#151515"
border = "#D6D0C7"
text = "#F2EEE7"
text_muted = "#B1AAA1"
accent = "#D0893C"
success = "#6FA57E"
warning = "#D2A45B"
error = "#D07C7C"
"##,
    );
    assert!(overrides.light.accent.is_some());
    assert!(overrides.dark.error.is_some());
    assert_eq!(ThemeChoice { base: BaseMode::Light }.palette(&overrides), base_semantic_palette(BaseMode::Light));
    assert_eq!(ThemeChoice { base: BaseMode::Dark }.palette(&overrides), base_semantic_palette(BaseMode::Dark));
}
