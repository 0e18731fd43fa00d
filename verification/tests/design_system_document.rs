use indexmap::IndexMap;
use pathframe::design_system_domain::{
    Base, ColorDarkable, DesignSystem, DesignSystemMetadata, DesignSystemMetadataFile,
    DesignSystemMetadataHome, Effect, EffectType, FontStyle, FontWeight, Fonts, Palette, Radius,
    Shade, ShadesFile, Space, SpacesFile, TextDecoration, TextTransform, ThemeColor,
    ThemeColorFile, ThemeColorSet, Typography, TypographyScale, TypographySpacing,
};
use pathframe::reference_resolver::{resolve_reference, to_space_palette, write_variable_usage};
use pathframe::workspace_domain::design_system_to_stylesheet_domain::ToStylesheet;
use std::path::PathBuf;

fn darkable(default: &str, dark: &str) -> (Option<String>, Option<String>) {
    (Some(default.to_string()), Some(dark.to_string()))
}

fn assert_token(token: &ColorDarkable, default: &str, dark: &str) {
    assert_eq!(
        (token.default.clone(), token.dark.clone()),
        darkable(default, dark)
    );
}

#[test]
fn base_of_a_new_design_system() {
    let base = Base::new();
    assert_token(&base.background, "palette-neutral-50", "palette-neutral-950");
    assert_token(&base.border, "palette-neutral-300", "palette-neutral-700");
    assert_token(&base.text_dark, "palette-neutral-900", "palette-neutral-100");
    assert_token(&base.text_default, "palette-neutral-700", "palette-neutral-300");
    assert_token(&base.text_light, "palette-neutral-500", "palette-neutral-500");
    assert_token(&base.background_disabled, "palette-neutral-200", "palette-neutral-700");
    assert_token(&base.border_disabled, "palette-neutral-300", "palette-neutral-600");
    assert_token(&base.text_disabled, "palette-neutral-500", "palette-neutral-500");
}

#[test]
fn theme_of_a_new_design_system() {
    let theme = ThemeColor::new();
    assert_eq!(theme.theme_name, "neutral");
    assert_token(&theme.default.background, "palette-neutral-50", "palette-neutral-950");
    assert_token(&theme.default.border, "palette-neutral-300", "palette-neutral-700");
    assert_token(&theme.default.text, "palette-neutral-700", "palette-neutral-300");
    let hover = theme.hover.unwrap();
    assert_token(&hover.background, "palette-neutral-200", "palette-neutral-800");
    assert_token(&hover.border, "palette-neutral-300", "palette-neutral-700");
    assert_token(&hover.text, "palette-neutral-700", "palette-neutral-100");
    assert!(theme.active.is_none());
    assert!(theme.focus.is_none());
}

fn assert_plain_scale(scale: &TypographyScale, size: &str, height: &str, weight: FontWeight) {
    assert_eq!(scale.font_size, size);
    assert_eq!(scale.line_height, height);
    assert_eq!(scale.font_weight, weight);
    assert_eq!(scale.letter_spacing, TypographySpacing::Zero);
    assert_eq!(scale.word_spacing, TypographySpacing::Zero);
    assert_eq!(scale.font_style, FontStyle::Normal);
    assert_eq!(scale.text_transform, TextTransform::NoTransform);
    assert_eq!(scale.text_decoration, TextDecoration::NoDecoration);
    assert_eq!(scale.padding, "0");
    assert_eq!(scale.margin, "0");
}

#[test]
fn typography_of_a_new_design_system() {
    let typography = Typography::new();
    assert_plain_scale(&typography.h1, "32px", "40px", FontWeight::Seven);
    assert_plain_scale(&typography.h2, "28px", "36px", FontWeight::Six);
    assert_plain_scale(&typography.h3, "24px", "32px", FontWeight::Five);
    assert_plain_scale(&typography.h4, "20px", "28px", FontWeight::Five);
    assert_plain_scale(&typography.h5, "18px", "24px", FontWeight::Five);
    assert_plain_scale(&typography.h6, "16px", "22px", FontWeight::Five);
    assert_plain_scale(&typography.paragraph, "14px", "20px", FontWeight::Four);
    assert_plain_scale(&typography.small, "12px", "16px", FontWeight::Four);
    assert_plain_scale(&typography.strong, "14px", "20px", FontWeight::Seven);
    assert!(typography.additionals_scales.is_empty());
}

#[test]
fn font_weights_as_numbers() {
    let weights = [
        (FontWeight::One, 100),
        (FontWeight::Two, 200),
        (FontWeight::Three, 300),
        (FontWeight::Four, 400),
        (FontWeight::Five, 500),
        (FontWeight::Six, 600),
        (FontWeight::Seven, 700),
        (FontWeight::Eight, 800),
        (FontWeight::Nine, 900),
    ];
    for (weight, value) in weights {
        assert_eq!(weight.value(), value);
    }
}

#[test]
fn fonts_radius_and_effect_of_a_new_design_system() {
    let fonts = Fonts::new();
    assert_eq!(fonts.default, "'Helvetica', 'Arial', sans-serif");
    assert!(fonts.additionals.is_empty());
    let radius = Radius::new();
    assert_eq!(radius.default, "0px");
    assert!(radius.additionals_radius.is_empty());
    let effect = Effect::new();
    assert_eq!(effect.effect_name, "shadow");
    assert_eq!(effect.bg, None);
    assert_eq!(effect.items.len(), 2);
    assert_eq!(effect.items[0].effect_type, EffectType::BoxShadow);
    assert_eq!(effect.items[0].effect_value, "rgba(0, 0, 0, 0.1) 0px 1px 3px 0px");
    assert_eq!(effect.items[1].effect_type, EffectType::BoxShadow);
    assert_eq!(effect.items[1].effect_value, "rgba(0, 0, 0, 0.06) 0px 1px 2px 0px");
}

fn metadata() -> DesignSystemMetadata {
    DesignSystemMetadata {
        design_system_id: "ds-1".to_string(),
        design_system_name: "Main".to_string(),
        dark_mode: true,
        design_system_path: PathBuf::from("/work/main"),
        is_tmp: true,
        can_undo: true,
        can_redo: false,
    }
}

#[test]
fn metadata_for_the_home_screen() {
    let home = DesignSystemMetadataHome::from(metadata(), Some(true));
    assert_eq!(home.design_system_id, "ds-1");
    assert_eq!(home.design_system_name, "Main");
    assert!(home.dark_mode);
    assert_eq!(home.design_system_path, PathBuf::from("/work/main"));
    assert!(home.is_tmp);
    assert_eq!(home.edit_mode, Some(true));
    assert!(home.can_undo);
    assert!(!home.can_redo);
    assert_eq!(DesignSystemMetadataHome::from(metadata(), None).edit_mode, None);
}

#[test]
fn metadata_to_and_from_its_file() {
    let file = DesignSystemMetadataFile::from(&metadata());
    assert_eq!(file.design_system_id, "ds-1");
    assert_eq!(file.design_system_name, "Main");
    assert!(file.dark_mode);
    let path = PathBuf::from("/elsewhere/main");
    let read = DesignSystemMetadata::from(&file, &path, false);
    assert_eq!(read.design_system_id, "ds-1");
    assert_eq!(read.design_system_name, "Main");
    assert!(read.dark_mode);
    assert_eq!(read.design_system_path, PathBuf::from("/elsewhere/main"));
    assert!(!read.is_tmp);
    assert!(!read.can_undo);
    assert!(!read.can_redo);
}

#[test]
fn theme_to_and_from_its_file() {
    let mut theme = ThemeColor::new();
    theme.theme_name = "brand".to_string();
    theme.focus = theme.hover.clone();
    let file = ThemeColorFile::from(&theme);
    assert_token(&file.default_state.text, "palette-neutral-700", "palette-neutral-300");
    assert_token(
        &file.hover.as_ref().unwrap().background,
        "palette-neutral-200",
        "palette-neutral-800",
    );
    assert!(file.active.is_none());
    assert_token(&file.focus.as_ref().unwrap().text, "palette-neutral-700", "palette-neutral-100");
    let back = ThemeColorFile::to(&file, "other");
    assert_eq!(back.theme_name, "other");
    assert_token(&back.default.border, "palette-neutral-300", "palette-neutral-700");
    assert_token(
        &back.hover.as_ref().unwrap().border,
        "palette-neutral-300",
        "palette-neutral-700",
    );
    assert!(back.active.is_none());
    assert!(back.focus.is_some());
}

fn shade(label: &str, color: &str) -> Shade {
    Shade {
        label: label.to_string(),
        color: color.to_string(),
    }
}

fn shade_pairs(shades: &[Shade]) -> Vec<(String, String)> {
    shades
        .iter()
        .map(|shade| (shade.label.clone(), shade.color.clone()))
        .collect()
}

fn pairs(entries: &[(&str, &str)]) -> Vec<(String, String)> {
    entries
        .iter()
        .map(|(key, value)| (key.to_string(), value.to_string()))
        .collect()
}

fn map_pairs(map: &IndexMap<String, String>) -> Vec<(String, String)> {
    map.iter()
        .map(|(key, value)| (key.clone(), value.clone()))
        .collect()
}

#[test]
fn shades_of_a_new_design_system() {
    let file = ShadesFile::new();
    let expected = pairs(&[
        ("50", "#FAFAFA"),
        ("100", "#F5F5F5"),
        ("200", "#E5E5E5"),
        ("300", "#D4D4D4"),
        ("400", "#A3A3A3"),
        ("500", "#737373"),
        ("600", "#525252"),
        ("700", "#404040"),
        ("800", "#262626"),
        ("900", "#171717"),
        ("950", "#0A0A0A"),
    ]);
    assert_eq!(map_pairs(&file.0), expected);
    assert_eq!(shade_pairs(&ShadesFile::to(&file)), expected);
}

#[test]
fn shades_keep_their_order_in_the_file() {
    let shades = vec![shade("900", "#111"), shade("50", "#eee"), shade("500", "#888")];
    let file = ShadesFile::from(&shades);
    assert_eq!(
        map_pairs(&file.0),
        pairs(&[("900", "#111"), ("50", "#eee"), ("500", "#888")])
    );
    assert_eq!(shade_pairs(&ShadesFile::to(&file)), shade_pairs(&shades));
    assert!(ShadesFile::to(&ShadesFile::from(&Vec::new())).is_empty());
}

#[test]
fn repeated_label_keeps_its_first_place_and_takes_the_last_color() {
    let shades = vec![
        shade("900", "#111"),
        shade("50", "#eee"),
        shade("900", "#222"),
        shade("500", "#888"),
        shade("50", "#fff"),
    ];
    let file = ShadesFile::from(&shades);
    assert_eq!(
        shade_pairs(&ShadesFile::to(&file)),
        pairs(&[("900", "#222"), ("50", "#fff"), ("500", "#888")])
    );
}

#[test]
fn shades_are_read_from_a_file_in_its_order() {
    let mut map = IndexMap::new();
    map.insert("b".to_string(), "2".to_string());
    map.insert("a".to_string(), "1".to_string());
    let shades = ShadesFile::to(&ShadesFile(map));
    assert_eq!(shade_pairs(&shades), pairs(&[("b", "2"), ("a", "1")]));
}

fn space(key: &str, value: &str) -> Space {
    Space {
        space_key: key.to_string(),
        space_value: value.to_string(),
    }
}

fn space_pairs(spaces: &[Space]) -> Vec<(String, String)> {
    spaces
        .iter()
        .map(|space| (space.space_key.clone(), space.space_value.clone()))
        .collect()
}

#[test]
fn spaces_of_a_new_design_system() {
    let file = SpacesFile::new();
    let expected = pairs(&[
        ("0", "0px"),
        ("1", "2px"),
        ("2", "4px"),
        ("3", "8px"),
        ("4", "12px"),
        ("5", "16px"),
        ("6", "20px"),
        ("7", "28px"),
        ("8", "32px"),
        ("9", "40px"),
        ("10", "52px"),
        ("11", "64px"),
        ("12", "80px"),
        ("13", "100px"),
        ("14", "120px"),
        ("15", "160px"),
    ]);
    assert_eq!(map_pairs(&file.0), expected);
    assert_eq!(space_pairs(&SpacesFile::to(&file)), expected);
}

#[test]
fn spaces_to_and_from_their_file() {
    let spaces = vec![space("b", "2px"), space("a", "1px"), space("b", "3px")];
    let file = SpacesFile::from(&spaces);
    assert_eq!(
        space_pairs(&SpacesFile::to(&file)),
        pairs(&[("b", "3px"), ("a", "1px")])
    );
    let mut map = IndexMap::new();
    map.insert("z".to_string(), "9px".to_string());
    map.insert("y".to_string(), "8px".to_string());
    assert_eq!(
        space_pairs(&SpacesFile::to(&SpacesFile(map))),
        pairs(&[("z", "9px"), ("y", "8px")])
    );
}

#[test]
fn references_resolve_to_custom_properties() {
    assert_eq!(resolve_reference("palette-neutral-300"), "--color-neutral-300");
    assert_eq!(resolve_reference("palette-a-b-c"), "--color-a-b-c");
    assert_eq!(resolve_reference("palette-"), "--color-");
    assert_eq!(resolve_reference("palette"), "--palette");
    assert_eq!(resolve_reference("gradient-sunset"), "--gradient-sunset");
    assert_eq!(resolve_reference("color-single-white"), "--color-single-white");
    assert_eq!(resolve_reference(""), "--");
    assert_eq!(resolve_reference("palette-é-1"), "--color-é-1");
    assert_eq!(
        write_variable_usage("palette-neutral-300"),
        "var(--color-neutral-300)"
    );
}

fn token(default: Option<&str>, dark: Option<&str>) -> ColorDarkable {
    ColorDarkable {
        default: default.map(str::to_string),
        dark: dark.map(str::to_string),
    }
}

fn danger_theme(border: ColorDarkable) -> ThemeColor {
    ThemeColor {
        theme_name: "danger".to_string(),
        default: ThemeColorSet {
            background: token(Some("palette-neutral-50"), None),
            border,
            text: token(Some("palette-neutral-900"), None),
        },
        hover: None,
        active: None,
        focus: None,
    }
}

fn border_rules(prefix: &str, theme: &str, sufix: &str, reference: &str) -> String {
    ["", "-top", "-right", "-bottom", "-left"]
        .iter()
        .map(|side| {
            format!(
                "{prefix}border-theme-{theme}{side}{sufix}{{border{side}: 1px solid var({reference});}}"
            )
        })
        .collect::<Vec<String>>()
        .join("\n")
}

#[test]
fn light_colors_of_a_theme_are_its_light_references_resolved() {
    let mut theme = danger_theme(token(Some("palette-neutral-300"), Some("palette-neutral-700")));
    theme.active = Some(ThemeColorSet {
        background: token(Some("palette-neutral-100"), None),
        border: token(Some("gradient-neutral-200"), None),
        text: token(Some("palette-neutral-900"), Some("palette-neutral-50")),
    });
    let colors = theme.light_colors().unwrap();
    assert_eq!(colors.default.bg.0, "--color-neutral-50");
    assert_eq!(colors.default.border.0, "--color-neutral-300");
    assert_eq!(colors.default.text.0, "--color-neutral-900");
    assert!(colors.hover.is_none());
    let active = colors.active.unwrap();
    assert_eq!(active.bg.0, "--color-neutral-100");
    assert_eq!(active.border.0, "--gradient-neutral-200");
    assert_eq!(active.text.0, "--color-neutral-900");
    assert!(colors.focus.is_none());
}

#[test]
fn theme_that_lacks_a_light_reference_has_no_colors_and_no_pair() {
    let theme = danger_theme(token(None, Some("palette-neutral-700")));
    assert!(theme.light_colors().is_none());
    assert!(theme.to_stylesheet().is_none());
    let mut theme = danger_theme(token(Some("palette-neutral-300"), None));
    theme.focus = Some(ThemeColorSet {
        background: token(Some("palette-neutral-100"), None),
        border: token(Some("palette-neutral-300"), None),
        text: token(None, None),
    });
    assert!(theme.light_colors().is_none());
    assert!(theme.to_stylesheet().is_none());
}

#[test]
fn state_colors_in_light_mode() {
    let colors = ThemeColorSet {
        background: token(Some("palette-a-1"), Some("palette-a-9")),
        border: token(Some("palette-a-2"), None),
        text: token(None, Some("palette-a-7")),
    };
    assert!(colors.light_state().is_none());
    let plain = ThemeColorSet {
        background: token(Some("palette-a-1"), None),
        border: token(Some("palette-a-2"), Some("palette-a-8")),
        text: token(Some("palette-a-3"), None),
    };
    let light = plain.light_state().unwrap();
    assert_eq!(light.bg.0, "--color-a-1");
    assert_eq!(light.border.0, "--color-a-2");
    assert_eq!(light.text.0, "--color-a-3");
}

#[test]
fn theme_without_dark_references_has_an_empty_dark_fragment() {
    let theme = danger_theme(token(Some("palette-neutral-300"), None));
    let pair = theme.to_stylesheet().unwrap();
    assert!(pair.light.starts_with(".theme-danger{\n            background:var(--color-neutral-50);"));
    assert!(pair.light.ends_with(&border_rules(".", "danger", "", "--color-neutral-300")));
    assert_eq!(pair.dark, "");
}

#[test]
fn dark_fragment_holds_only_the_tokens_with_a_dark_reference() {
    let theme = danger_theme(token(Some("palette-neutral-300"), Some("palette-neutral-700")));
    let pair = theme.to_stylesheet().unwrap();
    assert_eq!(pair.dark, border_rules(".", "danger", "", "--color-neutral-700"));
    assert!(!pair.light.contains("--color-neutral-700"));

    let mut theme = danger_theme(token(Some("palette-neutral-300"), None));
    theme.default.background.dark = Some("palette-neutral-950".to_string());
    let pair = theme.to_stylesheet().unwrap();
    assert_eq!(
        pair.dark,
        ".theme-danger{\n            background:var(--color-neutral-950);\n        }\n\
         .bg-theme-danger{\n            background: var(--color-neutral-950);\n        }"
    );

    theme.default.text.dark = Some("palette-neutral-100".to_string());
    let pair = theme.to_stylesheet().unwrap();
    assert_eq!(
        pair.dark,
        ".theme-danger{\n            background:var(--color-neutral-950);\n            color:var(--color-neutral-100);\n        }\n\
         .bg-theme-danger{\n            background: var(--color-neutral-950);\n        }\n\
         .text-color-theme-danger{\n            color: var(--color-neutral-100);\n        }"
    );

    theme.default.background.dark = None;
    let pair = theme.to_stylesheet().unwrap();
    assert_eq!(
        pair.dark,
        ".theme-danger{\n            color:var(--color-neutral-100);\n        }\n\
         .text-color-theme-danger{\n            color: var(--color-neutral-100);\n        }"
    );
}

#[test]
fn dark_fragment_follows_the_states_and_both_active_forms() {
    let mut theme = danger_theme(token(Some("palette-neutral-300"), Some("palette-neutral-700")));
    theme.hover = Some(ThemeColorSet {
        background: token(Some("palette-neutral-100"), None),
        border: token(Some("palette-neutral-300"), None),
        text: token(Some("palette-neutral-900"), None),
    });
    theme.active = Some(ThemeColorSet {
        background: token(Some("palette-neutral-100"), None),
        border: token(Some("palette-neutral-300"), Some("gradient-neutral-600")),
        text: token(Some("palette-neutral-900"), None),
    });
    theme.focus = Some(ThemeColorSet {
        background: token(Some("palette-neutral-100"), None),
        border: token(Some("palette-neutral-300"), None),
        text: token(Some("palette-neutral-900"), Some("palette-neutral-50")),
    });
    let pair = theme.to_stylesheet().unwrap();
    let gradient = |prefix: &str, sufix: &str| {
        ["", "-top", "-right", "-bottom", "-left"]
            .iter()
            .map(|side| {
                format!(
                    "{prefix}border-theme-danger{side}{sufix}{{border{side}: 1px solid;\n        border-image-slice: 1;\n        border-width: 1px;\n        border-image-source: var(--gradient-neutral-600);}}"
                )
            })
            .collect::<Vec<String>>()
            .join("\n")
    };
    let expected = vec![
        border_rules(".", "danger", "", "--color-neutral-700"),
        gradient(".\\active\\:", ":active"),
        gradient(".active.", ""),
        ".\\focus\\:theme-danger:focus{\n            color:var(--color-neutral-50);\n        }"
            .to_string(),
        ".\\focus\\:text-color-theme-danger:focus{\n            color: var(--color-neutral-50);\n        }"
            .to_string(),
    ]
    .join("\n");
    assert_eq!(pair.dark, expected);
    assert!(!pair.dark.contains("hover"));
    assert!(pair.light.contains(".\\hover\\:theme-danger:hover{"));
}

#[test]
fn base_colors_in_light_mode_are_usages_of_custom_properties() {
    let light = Base::new().light_tokens().unwrap();
    assert_eq!(light.bg_main, "var(--color-neutral-50)");
    assert_eq!(light.border_main, "var(--color-neutral-300)");
    assert_eq!(light.text_color_main_light, "var(--color-neutral-500)");
    assert_eq!(light.text_color_main, "var(--color-neutral-700)");
    assert_eq!(light.text_color_main_dark, "var(--color-neutral-900)");
    assert_eq!(light.bg_main_disabled, "var(--color-neutral-200)");
    assert_eq!(light.text_color_main_disabled, "var(--color-neutral-500)");
    assert_eq!(light.border_main_disabled, "var(--color-neutral-300)");
}

#[test]
fn base_colors_in_dark_mode_are_the_roles_with_a_dark_reference() {
    let pair = Base::new().to_stylesheet().unwrap();
    assert!(pair.light.starts_with("--bg-main:var(--color-neutral-50);\n"));
    assert_eq!(
        pair.dark,
        "--bg-main:var(--color-neutral-950);\n\
         --text-color-main:var(--color-neutral-300);\n\
         --text-color-main-dark:var(--color-neutral-100);\n\
         --text-color-main-light:var(--color-neutral-500);\n\
         --border-main:var(--color-neutral-700);\n\
         --bg-main-disabled:var(--color-neutral-700);\n\
         --border-main-disabled:var(--color-neutral-600);\n\
         --text-color-main-disabled:var(--color-neutral-500);"
    );
    let mut base = Base::new();
    for token in [
        &mut base.background,
        &mut base.border,
        &mut base.text_light,
        &mut base.text_default,
        &mut base.text_dark,
        &mut base.background_disabled,
        &mut base.text_disabled,
        &mut base.border_disabled,
    ] {
        token.dark = None;
    }
    let light = pair.light;
    let pair = base.to_stylesheet().unwrap();
    assert_eq!(pair.light, light);
    assert_eq!(pair.dark, "");
    base.border.dark = Some("palette-neutral-700".to_string());
    base.text_disabled.dark = Some("gradient-neutral-400".to_string());
    assert_eq!(
        base.to_stylesheet().unwrap().dark,
        "--border-main:var(--color-neutral-700);\n--text-color-main-disabled:var(--gradient-neutral-400);"
    );
    base.text_dark.default = None;
    assert!(base.light_tokens().is_none());
    assert!(base.to_stylesheet().is_none());
}

fn neutral_palette() -> Palette {
    Palette {
        palette_name: "neutral".to_string(),
        palette_path: None,
        shades: ShadesFile::to(&ShadesFile::new()),
    }
}

#[test]
fn palette_and_spaces_as_the_compiler_takes_them() {
    let palette = neutral_palette().to_color_palette();
    assert_eq!(palette.palette_name, "neutral");
    assert_eq!(palette.shades.0.len(), 11);
    assert_eq!(palette.shades.0[0], ("50".to_string(), "#FAFAFA".to_string()));
    assert_eq!(palette.shades.0[10], ("950".to_string(), "#0A0A0A".to_string()));
    let spaces = to_space_palette(&SpacesFile::to(&SpacesFile::new()));
    assert_eq!(spaces.0.len(), 16);
    assert_eq!(spaces.0[4], ("4".to_string(), "12px".to_string()));
    assert!(spaces.to_stylesheet().ends_with("--space-15:160px"));
}

fn compiled(theme: ThemeColor) -> String {
    let design_system = DesignSystem {
        metadata: DesignSystemMetadata {
            dark_mode: true,
            ..metadata()
        },
        palettes: vec![neutral_palette()],
        base: Base::new(),
        themes: vec![theme],
        fonts: Fonts::new(),
        typography: Typography::new(),
        spaces: SpacesFile::to(&SpacesFile::new()),
        radius: Radius::new(),
        effects: vec![Effect::new()],
    };
    design_system.to_stylesheet().unwrap()
}

#[test]
fn darkable_border_is_solid_in_both_scopes() {
    let theme = danger_theme(token(Some("palette-neutral-300"), Some("palette-neutral-700")));
    let text = compiled(theme);
    assert_eq!(text.matches("@media (prefers-color-scheme: dark)").count(), 1);
    let place = text.find("@media").unwrap();
    let (light, dark) = text.split_at(place);
    let light_rule = ".border-theme-danger{border: 1px solid var(--color-neutral-300);}";
    let dark_rule = ".border-theme-danger{border: 1px solid var(--color-neutral-700);}";
    assert_eq!(light.matches(light_rule).count(), 1);
    assert_eq!(light.matches(dark_rule).count(), 0);
    assert_eq!(dark.matches(dark_rule).count(), 1);
    assert_eq!(dark.matches(light_rule).count(), 0);
    assert_eq!(text.matches("border-image-source").count(), 0);
    for side in ["-top", "-right", "-bottom", "-left"] {
        assert!(light.contains(&format!(
            ".border-theme-danger{side}{{border{side}: 1px solid var(--color-neutral-300);}}"
        )));
        assert!(dark.contains(&format!(
            ".border-theme-danger{side}{{border{side}: 1px solid var(--color-neutral-700);}}"
        )));
    }
    assert!(light.contains(".bg-theme-danger{"));
    assert!(!dark.contains("bg-theme-danger"));
    assert!(!dark.contains("text-color-theme-danger"));
    assert!(!dark.contains(".theme-danger{"));
}

#[test]
fn theme_danger_with_only_a_default_state() {
    let text = compiled(danger_theme(token(Some("palette-neutral-300"), None)));
    assert!(text.contains(".theme-danger{"));
    assert!(!text.contains("hover"));
    assert!(!text.contains("active"));
    assert!(!text.contains("focus"));
}
