use pathframe::compiler_service::{
    design_system_to_stylesheet, write_declared_property, CompileError, ReferenceError,
    ValidationError,
};
use pathframe::workspace_domain::design_system_domain::{
    BackgroundColorToken, BaseColorTokens, BorderColorToken, ColorPalette, ColorSet, ColorState,
    ColorTheme, DesignSystem, Effect, EffectType, Primitives, RadiusTokens, Shades, SingleColors,
    SpacePalette, SpaceTokens, TextColorToken, TextTheme, TextTokens, Tokens,
};
use pathframe::workspace_domain::design_system_to_stylesheet_domain::{
    ToStylesheet, ToStylesheetDarkable,
};

fn pairs(entries: &[(&str, &str)]) -> Vec<(String, String)> {
    entries
        .iter()
        .map(|(key, value)| (key.to_string(), value.to_string()))
        .collect()
}

fn state(bg: &str, border: &str, text: &str) -> ColorState {
    ColorState {
        bg: BackgroundColorToken(bg.to_string()),
        border: BorderColorToken(border.to_string()),
        text: TextColorToken(text.to_string()),
    }
}

fn base(value: &str) -> BaseColorTokens {
    BaseColorTokens {
        bg_main: format!("{value}1"),
        text_color_main_light: format!("{value}2"),
        text_color_main: format!("{value}3"),
        text_color_main_dark: format!("{value}4"),
        border_main: format!("{value}5"),
        bg_main_disabled: format!("{value}6"),
        text_color_main_disabled: format!("{value}7"),
        border_main_disabled: format!("{value}8"),
    }
}

fn text_theme(font_size: &str, font_weight: u32, line_height: &str) -> TextTheme {
    TextTheme {
        font_size: font_size.to_string(),
        font_weight,
        line_height: line_height.to_string(),
    }
}

fn theme(name: &str, light: ColorSet, dark: Option<ColorSet>) -> ColorTheme {
    ColorTheme {
        theme_name: name.to_string(),
        light,
        dark,
    }
}

fn only_default(colors: ColorState) -> ColorSet {
    ColorSet {
        default: colors,
        hover: None,
        active: None,
        focus: None,
    }
}

fn design_system() -> DesignSystem {
    DesignSystem {
        design_system_id: "ds-1".to_string(),
        design_system_name: "Main".to_string(),
        dark_mode: true,
        primitives: Primitives {
            color_palettes: vec![
                ColorPalette {
                    palette_name: "primary".to_string(),
                    shades: Shades(pairs(&[("50", "#FFFFFF"), ("950", "#000000")])),
                },
                ColorPalette {
                    palette_name: "neutral".to_string(),
                    shades: Shades(pairs(&[("300", "#D4D4D4"), ("700", "#404040")])),
                },
            ],
            single_colors: SingleColors(pairs(&[("white", "#ffffff")])),
            space: SpacePalette(pairs(&[("0", "0px"), ("1", "2px")])),
        },
        tokens: Tokens {
            light_default_single_tokens: base("#00000"),
            dark_default_single_tokens: Some(base("#FFFFF")),
            colors_themes: vec![
                theme(
                    "danger",
                    only_default(state(
                        "--color-primary-50",
                        "--color-neutral-300",
                        "--color-primary-950",
                    )),
                    Some(only_default(state(
                        "--color-primary-950",
                        "--color-neutral-700",
                        "--color-single-white",
                    ))),
                ),
                theme(
                    "calm",
                    only_default(state(
                        "--color-single-white",
                        "--color-neutral-300",
                        "--color-neutral-700",
                    )),
                    None,
                ),
            ],
            text_tokens: TextTokens {
                p: text_theme("14px", 400, "20px"),
                h1: text_theme("32px", 700, "40px"),
                h2: text_theme("28px", 600, "36px"),
                h3: text_theme("24px", 500, "32px"),
                font: "sans-serif".to_string(),
                light_weight: 300,
                default_weight: 400,
                bold_weight: 700,
                font_size_sm: "12px".to_string(),
                font_size_md: "14px".to_string(),
                font_size_lg: "18px".to_string(),
            },
            radius_tokens: RadiusTokens {
                default: "4px".to_string(),
                large: "12px".to_string(),
            },
            space_tokens: SpaceTokens {
                default_page_padding: "32px".to_string(),
                default_element_padding: "8px".to_string(),
            },
            effects: vec![
                Effect {
                    effect_name: "shadow".to_string(),
                    light: "0 1px 3px black".to_string(),
                    dark: Some("0 1px 3px white".to_string()),
                    effect_type: EffectType::Shadow,
                },
                Effect {
                    effect_name: "glow".to_string(),
                    light: "0 0 8px gold".to_string(),
                    dark: None,
                    effect_type: EffectType::Shadow,
                },
            ],
        },
        design_system_path: "/tmp/ds".to_string(),
    }
}

fn base_text(value: &str) -> String {
    format!(
        "--bg-main:{value}1;\n            \
         --text-color-main:{value}3;\n            \
         --text-color-main-dark:{value}4;\n            \
         --text-color-main-light:{value}2;\n            \
         --border-main:{value}5;\n            \
         --bg-main-disabled:{value}6;\n            \
         --border-main-disabled:{value}8;\n            \
         --text-color-main-disabled:{value}7;"
    )
}

fn default_state_text(theme: &str, bg: &str, border: &str, text: &str) -> String {
    format!(
        ".theme-{theme}{{\n            background:var({bg});\n            color:var({text});\n        }}\n        \
         .bg-theme-{theme}{{\n            background: var({bg});\n        }}\n\
         .text-color-theme-{theme}{{\n            color: var({text});\n        }}\n\
         .border-theme-{theme}{{border: 1px solid var({border});}}\n\
         .border-theme-{theme}-top{{border-top: 1px solid var({border});}}\n\
         .border-theme-{theme}-right{{border-right: 1px solid var({border});}}\n\
         .border-theme-{theme}-bottom{{border-bottom: 1px solid var({border});}}\n\
         .border-theme-{theme}-left{{border-left: 1px solid var({border});}}"
    )
}

fn expected_light() -> String {
    let parts: Vec<String> = vec![
        "--color-primary-50:#FFFFFF".to_string(),
        "--color-primary-950:#000000".to_string(),
        "--color-neutral-300:#D4D4D4".to_string(),
        "--color-neutral-700:#404040".to_string(),
        "--color-single-white:#ffffff".to_string(),
        "--space-0:0px".to_string(),
        "--space-1:2px".to_string(),
        base_text("#00000"),
        default_state_text(
            "danger",
            "--color-primary-50",
            "--color-neutral-300",
            "--color-primary-950",
        ),
        default_state_text(
            "calm",
            "--color-single-white",
            "--color-neutral-300",
            "--color-neutral-700",
        ),
        ".font-default{font-family:sans-serif;}".to_string(),
        ".font-light{font-weight:300;}".to_string(),
        ".font-normal{font-weight:400;}".to_string(),
        ".font-bold{font-weight:700;}".to_string(),
        ".text-sm{font-size:12px;}".to_string(),
        ".text-md{font-size:14px;}".to_string(),
        ".text-lg{font-size:18px;}".to_string(),
        ".text-p{font-size:14px;font-weight:400;line-height:20px;}".to_string(),
        ".text-h1{font-size:32px;font-weight:700;line-height:40px;}".to_string(),
        ".text-h2{font-size:28px;font-weight:600;line-height:36px;}".to_string(),
        ".text-h3{font-size:24px;font-weight:500;line-height:32px;}".to_string(),
        ".rounded{border-radius:4px;}".to_string(),
        ".rounded-lg{border-radius:12px;}".to_string(),
        "--page-padding:32px;".to_string(),
        "--element-padding:8px;".to_string(),
        ".shadow{box-shadow:0 1px 3px black;}".to_string(),
        ".glow{box-shadow:0 0 8px gold;}".to_string(),
    ];
    parts.join("\n")
}

fn expected_dark() -> String {
    let parts: Vec<String> = vec![
        base_text("#FFFFF"),
        default_state_text(
            "danger",
            "--color-primary-950",
            "--color-neutral-700",
            "--color-single-white",
        ),
        String::new(),
        ".shadow{box-shadow:0 1px 3px white;}".to_string(),
        String::new(),
    ];
    parts.join("\n")
}

#[test]
fn tokens_fragments_in_section_order() {
    let pair = design_system().tokens.to_stylesheet();
    assert!(expected_light().ends_with(&pair.light));
    assert_eq!(pair.dark, expected_dark());
}

#[test]
fn whole_stylesheet_of_a_design_system() {
    let expected = format!(
        ":root{{\n{}\n}}\n@media (prefers-color-scheme: dark){{\n:root{{\n{}\n}}\n}}",
        expected_light(),
        expected_dark()
    );
    assert_eq!(design_system().to_stylesheet(), expected);
    match design_system_to_stylesheet(&design_system()) {
        Ok(text) => assert_eq!(text, expected),
        Err(error) => panic!("unexpected fault: {error:?}"),
    }
}

#[test]
fn compiling_twice_gives_the_same_text() {
    let design_system = design_system();
    let first = design_system_to_stylesheet(&design_system).unwrap();
    let second = design_system_to_stylesheet(&design_system).unwrap();
    assert_eq!(first, second);
    let copy = design_system.clone();
    assert_eq!(copy.to_stylesheet(), first);
}

#[test]
fn stylesheet_has_one_dark_scope_behind_the_light_rules() {
    let text = design_system().to_stylesheet();
    assert_eq!(text.matches("@media").count(), 1);
    assert_eq!(text.matches("prefers-color-scheme: dark").count(), 1);
    let place = text.find("@media").unwrap();
    let (light, dark) = text.split_at(place);
    assert!(light.starts_with(":root{\n"));
    assert!(light.ends_with("\n}\n"));
    assert!(dark.ends_with("\n}\n}"));
    assert!(!light.contains("border: 1px solid var(--color-neutral-700);"));
    assert!(!light.contains("#FFFFF1"));
    assert!(!light.contains("3px white"));
    assert!(dark.contains("border: 1px solid var(--color-neutral-700);"));
    assert!(dark.contains("--bg-main:#FFFFF1;"));
    assert!(dark.contains(".shadow{box-shadow:0 1px 3px white;}"));
}

#[test]
fn value_that_holds_the_opening_words_is_written_as_it_is() {
    let mut design_system = design_system();
    design_system.primitives.space.0[1].1 =
        "0;\n}\n@media (prefers-color-scheme: dark){\n:root{".to_string();
    let text = design_system.to_stylesheet();
    assert_eq!(text.matches("@media (prefers-color-scheme: dark){\n:root{\n").count(), 2);
    assert!(design_system_to_stylesheet(&design_system).is_ok());
}

#[test]
fn every_primitive_is_declared_once_in_the_light_scope() {
    let text = design_system().to_stylesheet();
    let place = text.find("@media").unwrap();
    let (light, dark) = text.split_at(place);
    for declaration in [
        "--color-primary-50:#FFFFFF",
        "--color-primary-950:#000000",
        "--color-neutral-300:#D4D4D4",
        "--color-neutral-700:#404040",
        "--color-single-white:#ffffff",
        "--space-0:0px",
        "--space-1:2px",
    ] {
        assert_eq!(light.matches(declaration).count(), 1);
        assert_eq!(dark.matches(declaration).count(), 0);
    }
}

#[test]
fn palette_primary_shade_50_is_declared() {
    let text = design_system_to_stylesheet(&design_system()).unwrap();
    assert!(text
        .lines()
        .any(|line| line.contains("--color-primary-50:#FFFFFF")));
}

#[test]
fn without_dark_mode_the_dark_scope_is_empty() {
    let mut design_system = design_system();
    design_system.dark_mode = false;
    let text = design_system.to_stylesheet();
    let expected = format!(
        ":root{{\n{}\n}}\n@media (prefers-color-scheme: dark){{\n:root{{\n\n}}\n}}",
        expected_light()
    );
    assert_eq!(text, expected);
    let streams = design_system.to_streams();
    assert_eq!(streams.light, expected_light());
    assert_eq!(streams.dark, "");
}

#[test]
fn dark_variants_do_not_change_the_light_stream() {
    let with_dark = design_system();
    let mut without_dark = design_system();
    without_dark.tokens.dark_default_single_tokens = None;
    for theme in without_dark.tokens.colors_themes.iter_mut() {
        theme.dark = None;
    }
    for effect in without_dark.tokens.effects.iter_mut() {
        effect.dark = None;
    }
    assert_eq!(with_dark.to_streams().light, without_dark.to_streams().light);
    assert_eq!(without_dark.to_streams().dark, "\n\n\n\n");
}

fn validation_error(design_system: &DesignSystem) -> ValidationError {
    match design_system_to_stylesheet(design_system) {
        Err(CompileError::Validation(error)) => error,
        other => panic!("expected a structural fault, got {other:?}"),
    }
}

fn reference_error(design_system: &DesignSystem) -> ReferenceError {
    match design_system_to_stylesheet(design_system) {
        Err(CompileError::Reference(error)) => error,
        other => panic!("expected a dangling reference, got {other:?}"),
    }
}

#[test]
fn valid_design_system_passes_validation() {
    assert!(design_system().validate().is_ok());
}

#[test]
fn two_palettes_with_one_name_are_refused() {
    let mut design_system = design_system();
    design_system.primitives.color_palettes[1].palette_name = "primary".to_string();
    assert!(matches!(
        validation_error(&design_system),
        ValidationError::DuplicatePalette(name) if name == "primary"
    ));
}

#[test]
fn two_shades_with_one_label_are_refused() {
    let mut design_system = design_system();
    design_system.primitives.color_palettes[1]
        .shades
        .0
        .push(("300".to_string(), "#123456".to_string()));
    assert!(matches!(
        validation_error(&design_system),
        ValidationError::DuplicateShade { palette, label } if palette == "neutral" && label == "300"
    ));
}

#[test]
fn two_single_colors_with_one_name_are_refused() {
    let mut design_system = design_system();
    design_system
        .primitives
        .single_colors
        .0
        .push(("white".to_string(), "#fefefe".to_string()));
    assert!(matches!(
        validation_error(&design_system),
        ValidationError::DuplicateSingleColor(name) if name == "white"
    ));
}

#[test]
fn two_spaces_with_one_key_are_refused() {
    let mut design_system = design_system();
    design_system
        .primitives
        .space
        .0
        .push(("0".to_string(), "1px".to_string()));
    assert!(matches!(
        validation_error(&design_system),
        ValidationError::DuplicateSpace(key) if key == "0"
    ));
}

#[test]
fn two_themes_with_one_name_are_refused() {
    let mut design_system = design_system();
    design_system.tokens.colors_themes[1].theme_name = "danger".to_string();
    assert!(matches!(
        validation_error(&design_system),
        ValidationError::DuplicateTheme(name) if name == "danger"
    ));
}

#[test]
fn structural_faults_come_before_dangling_references() {
    let mut design_system = design_system();
    design_system.tokens.colors_themes[0].light.default.bg =
        BackgroundColorToken("--color-missing-1".to_string());
    design_system.tokens.colors_themes[1].theme_name = "danger".to_string();
    assert!(matches!(
        validation_error(&design_system),
        ValidationError::DuplicateTheme(name) if name == "danger"
    ));
}

#[test]
fn dangling_reference_names_token_and_target() {
    let mut design_system = design_system();
    design_system.tokens.colors_themes[1].light.default.border =
        BorderColorToken("--color-neutral-999".to_string());
    let error = reference_error(&design_system);
    assert_eq!(error.token, "calm.light.default.border");
    assert_eq!(error.target, "--color-neutral-999");
}

#[test]
fn first_dangling_reference_is_reported() {
    let mut design_system = design_system();
    design_system.tokens.colors_themes[0].dark = Some(ColorSet {
        default: state("--color-primary-950", "--color-neutral-700", "--nowhere"),
        hover: Some(state("--color-primary-950", "--missing", "--color-primary-50")),
        active: None,
        focus: None,
    });
    design_system.tokens.colors_themes[1].light.default.bg =
        BackgroundColorToken("--later".to_string());
    let error = reference_error(&design_system);
    assert_eq!(error.token, "danger.dark.default.text");
    assert_eq!(error.target, "--nowhere");
}

#[test]
fn reference_in_an_optional_state_is_checked() {
    let mut design_system = design_system();
    design_system.tokens.colors_themes[0].light.focus = Some(state(
        "--color-primary-50",
        "--color-primary-50",
        "--color-single-black",
    ));
    let error = reference_error(&design_system);
    assert_eq!(error.token, "danger.light.focus.text");
    assert_eq!(error.target, "--color-single-black");
}

#[test]
fn nothing_is_written_for_a_design_system_with_a_fault() {
    let mut design_system = design_system();
    design_system.tokens.colors_themes[0].light.default.bg =
        BackgroundColorToken("--color-primary-51".to_string());
    assert!(design_system_to_stylesheet(&design_system).is_err());
    assert!(design_system.validate().is_err());
}

fn gradient_block(theme: &str, side: &str, reference: &str) -> String {
    format!(
        ".border-theme-{theme}{side}{{border{side}: 1px solid;\n        border-image-slice: 1;\n        border-width: 1px;\n        border-image-source: var({reference});}}"
    )
}

#[test]
fn gradient_border_of_a_standalone_color_compiles() {
    let mut design_system = design_system();
    design_system
        .primitives
        .single_colors
        .0
        .push(("sunset".to_string(), "linear-gradient(red, gold)".to_string()));
    design_system.tokens.colors_themes[1].light.default.border =
        BorderColorToken("--gradient-single-sunset".to_string());
    assert!(design_system.validate().is_ok());
    let text = design_system_to_stylesheet(&design_system).unwrap();
    assert_eq!(text, design_system.to_stylesheet());
    let place = text.find("@media").unwrap();
    let (light, dark) = text.split_at(place);
    assert_eq!(light.matches("--color-single-sunset:linear-gradient(red, gold)").count(), 1);
    for side in ["", "-top", "-right", "-bottom", "-left"] {
        assert_eq!(
            light.matches(&gradient_block("calm", side, "--gradient-single-sunset")).count(),
            1
        );
    }
    assert_eq!(light.matches("border-image-source").count(), 5);
    assert_eq!(dark.matches("border-image-source").count(), 0);
    assert!(!text.contains("solid var(--gradient-single-sunset)"));
    assert!(light.contains(".border-theme-danger{border: 1px solid var(--color-neutral-300);}"));
}

#[test]
fn gradient_border_of_a_shade_compiles_in_both_scopes() {
    let mut design_system = design_system();
    design_system.tokens.colors_themes[0].light.default.border =
        BorderColorToken("--gradient-neutral-300".to_string());
    design_system.tokens.colors_themes[0]
        .dark
        .as_mut()
        .unwrap()
        .default
        .border = BorderColorToken("--gradient-neutral-700".to_string());
    design_system.tokens.colors_themes[0].light.hover = Some(state(
        "--color-primary-50",
        "--gradient-primary-950",
        "--color-primary-950",
    ));
    let text = design_system_to_stylesheet(&design_system).unwrap();
    let place = text.find("@media").unwrap();
    let (light, dark) = text.split_at(place);
    for side in ["", "-top", "-right", "-bottom", "-left"] {
        assert!(light.contains(&gradient_block("danger", side, "--gradient-neutral-300")));
        assert!(dark.contains(&gradient_block("danger", side, "--gradient-neutral-700")));
        assert!(!light.contains(&gradient_block("danger", side, "--gradient-neutral-700")));
        assert!(light.contains(&format!(
            ".\\hover\\:border-theme-danger{side}:hover{{border{side}: 1px solid;\n        border-image-slice: 1;\n        border-width: 1px;\n        border-image-source: var(--gradient-primary-950);}}"
        )));
    }
    assert_eq!(light.matches("border-image-source").count(), 10);
    assert_eq!(dark.matches("border-image-source").count(), 5);
}

#[test]
fn gradient_reference_must_name_a_declared_entry() {
    let mut design_system = design_system();
    design_system.tokens.colors_themes[1].light.default.border =
        BorderColorToken("--gradient-single-sunset".to_string());
    let error = reference_error(&design_system);
    assert_eq!(error.token, "calm.light.default.border");
    assert_eq!(error.target, "--gradient-single-sunset");
    for dangling in ["--gradient", "--gradient-", "--gradient-neutral-301", "--gradientneutral-300"] {
        design_system.tokens.colors_themes[1].light.default.border =
            BorderColorToken(dangling.to_string());
        assert_eq!(reference_error(&design_system).target, dangling);
    }
}

#[test]
fn gradient_marker_may_stand_on_any_color_reference() {
    let mut design_system = design_system();
    design_system.tokens.colors_themes[1].light.default.bg =
        BackgroundColorToken("--gradient-single-white".to_string());
    let text = design_system_to_stylesheet(&design_system).unwrap();
    assert!(text.contains(".bg-theme-calm{\n            background: var(--gradient-single-white);\n        }"));
    assert_eq!(text.matches("border-image-source").count(), 0);
}

#[test]
fn references_name_entries_with_or_without_the_marker() {
    let primitives = design_system().primitives;
    assert!(primitives.resolves("--color-primary-50"));
    assert!(primitives.resolves("--gradient-primary-50"));
    assert!(primitives.resolves("--color-single-white"));
    assert!(primitives.resolves("--gradient-single-white"));
    assert!(!primitives.resolves("--gradient-primary-51"));
    assert!(!primitives.resolves("--gradient-single-black"));
    assert!(!primitives.resolves("--gradient"));
    assert!(!primitives.resolves("gradient-primary-50"));
    assert!(!primitives.resolves("--color-gradient-primary-50"));
    assert!(!primitives.declares_color("--gradient-primary-50"));
    assert_eq!(write_declared_property("--gradient-primary-50"), "--color-primary-50");
    assert_eq!(write_declared_property("--gradient"), "--color");
    assert_eq!(write_declared_property("--gradient-é"), "--color-é");
    assert_eq!(write_declared_property("--color-primary-50"), "--color-primary-50");
    assert_eq!(write_declared_property("-gradient-x"), "-gradient-x");
    assert_eq!(write_declared_property(""), "");
}

#[test]
fn primitives_answer_which_colors_they_declare() {
    let primitives = design_system().primitives;
    assert!(primitives.declares_color("--color-primary-50"));
    assert!(primitives.declares_color("--color-neutral-700"));
    assert!(primitives.declares_color("--color-single-white"));
    assert!(!primitives.declares_color("--color-primary-51"));
    assert!(!primitives.declares_color("--color-primary-"));
    assert!(!primitives.declares_color("--space-0"));
    assert!(!primitives.declares_color("color-primary-50"));
    assert!(!primitives.declares_color(""));
}

#[test]
fn space_palette_is_parsed_from_distinct_keys() {
    let palette = SpacePalette::parse(pairs(&[("0", "0px"), ("1", "2px")])).unwrap();
    assert_eq!(palette.0, pairs(&[("0", "0px"), ("1", "2px")]));
    assert_eq!(palette.to_stylesheet(), "--space-0:0px\n--space-1:2px");
    assert!(SpacePalette::parse(Vec::new()).is_ok());
}

#[test]
fn space_palette_with_a_repeated_key_is_refused() {
    let parsed = SpacePalette::parse(pairs(&[("0", "0px"), ("1", "2px"), ("2", "3px"), ("1", "4px"), ("0", "9px")]));
    assert!(matches!(
        parsed,
        Err(ValidationError::DuplicateSpace(key)) if key == "1"
    ));
}
