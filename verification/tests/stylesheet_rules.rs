use pathframe::workspace_domain::design_system_domain::{
    BackgroundColorToken, BorderColorToken, ColorPalette, ColorSet, ColorState, ColorTheme, Effect,
    EffectType, Primitives, RadiusTokens, Shades, SingleColors, SpacePalette, SpaceTokens,
    TextColorToken, TextTheme, TextTokens,
};
use pathframe::workspace_domain::design_system_to_stylesheet_domain::{
    get_class_state_headers, StylesheetLightDark, ToStylesheet, ToStylesheetDarkable,
};

fn pairs(entries: &[(&str, &str)]) -> Vec<(String, String)> {
    entries
        .iter()
        .map(|(key, value)| (key.to_string(), value.to_string()))
        .collect()
}

fn state(bg: &str, border: &str, text: &str) -> ColorState {
    ColorState {
        bg: BackgroundColorToken(bg.to_string()),
        border: BorderColorToken(border.to_string()),
        text: TextColorToken(text.to_string()),
    }
}

#[test]
fn palette_declares_each_shade_once_and_in_order() {
    let palette = ColorPalette {
        palette_name: "primary".to_string(),
        shades: Shades(pairs(&[("50", "#FFFFFF"), ("950", "#DDDDDD"), ("500", "#888888")])),
    };
    assert_eq!(
        palette.to_stylesheet(),
        "--color-primary-50:#FFFFFF\n--color-primary-950:#DDDDDD\n--color-primary-500:#888888"
    );
}

#[test]
fn palette_without_shades_is_empty() {
    let palette = ColorPalette {
        palette_name: "primary".to_string(),
        shades: Shades(Vec::new()),
    };
    assert_eq!(palette.to_stylesheet(), "");
}

#[test]
fn primitives_come_as_palettes_then_single_colors_then_spaces() {
    let primitives = Primitives {
        color_palettes: vec![
            ColorPalette {
                palette_name: "primary".to_string(),
                shades: Shades(pairs(&[("50", "#FFFFFF")])),
            },
            ColorPalette {
                palette_name: "neutral".to_string(),
                shades: Shades(pairs(&[("100", "#F5F5F5"), ("900", "#171717")])),
            },
        ],
        single_colors: SingleColors(pairs(&[("white", "#ffffff"), ("red", "#e24")])),
        space: SpacePalette(pairs(&[("0", "10px"), ("1", "20px")])),
    };
    assert_eq!(
        primitives.to_stylesheet(),
        "--color-primary-50:#FFFFFF\n\
         --color-neutral-100:#F5F5F5\n\
         --color-neutral-900:#171717\n\
         --color-single-white:#ffffff\n\
         --color-single-red:#e24\n\
         --space-0:10px\n\
         --space-1:20px"
    );
}

#[test]
fn class_state_headers_of_each_form() {
    let (prefix, sufix) = get_class_state_headers(None, false);
    assert_eq!((prefix.as_str(), sufix.as_str()), (".", ""));
    let (prefix, sufix) = get_class_state_headers(Some("hover"), false);
    assert_eq!((prefix.as_str(), sufix.as_str()), (".\\hover\\:", ":hover"));
    let (prefix, sufix) = get_class_state_headers(Some("active"), true);
    assert_eq!((prefix.as_str(), sufix.as_str()), (".active.", ""));
}

#[test]
fn escaped_selector_has_one_backslash_before_the_colon() {
    let (prefix, _) = get_class_state_headers(Some("focus"), false);
    assert_eq!(prefix.matches("\\:").count(), 1);
    assert_eq!(prefix.matches("\\\\").count(), 0);
    let (again, _) = get_class_state_headers(Some("focus"), false);
    assert_eq!(prefix, again);
}

#[test]
fn background_token_rule() {
    let token = BackgroundColorToken("--color-primary-50".to_string());
    assert_eq!(
        token.to_stylesheet(".", "danger", ""),
        ".bg-theme-danger{\n            background: var(--color-primary-50);\n        }"
    );
}

#[test]
fn text_color_token_rule() {
    let token = TextColorToken("--color-primary-900".to_string());
    assert_eq!(
        token.to_stylesheet(".\\hover\\:", "danger", ":hover"),
        ".\\hover\\:text-color-theme-danger:hover{\n            color: var(--color-primary-900);\n        }"
    );
}

#[test]
fn plain_border_reference_gives_five_solid_rules() {
    let token = BorderColorToken("--color-neutral-300".to_string());
    assert_eq!(
        token.to_stylesheet(".", "danger", ""),
        ".border-theme-danger{border: 1px solid var(--color-neutral-300);}\n\
         .border-theme-danger-top{border-top: 1px solid var(--color-neutral-300);}\n\
         .border-theme-danger-right{border-right: 1px solid var(--color-neutral-300);}\n\
         .border-theme-danger-bottom{border-bottom: 1px solid var(--color-neutral-300);}\n\
         .border-theme-danger-left{border-left: 1px solid var(--color-neutral-300);}"
    );
}

#[test]
fn gradient_border_reference_gives_five_gradient_blocks() {
    let token = BorderColorToken("--gradient-sunset".to_string());
    let stylesheet = token.to_stylesheet(".", "danger", "");
    let block = |side: &str| {
        format!(
            ".border-theme-danger{side}{{border{side}: 1px solid;\n        border-image-slice: 1;\n        border-width: 1px;\n        border-image-source: var(--gradient-sunset);}}"
        )
    };
    let expected = vec![
        block(""),
        block("-top"),
        block("-right"),
        block("-bottom"),
        block("-left"),
    ]
    .join("\n");
    assert_eq!(stylesheet, expected);
    assert_eq!(stylesheet.matches("border-image-source").count(), 5);
    assert_eq!(stylesheet.matches("solid var(").count(), 0);
}

#[test]
fn gradient_marker_must_stand_at_the_start() {
    let token = BorderColorToken("--color-gradient".to_string());
    let stylesheet = token.to_stylesheet(".", "danger", "");
    assert_eq!(stylesheet.matches("solid var(--color-gradient);").count(), 5);
    assert_eq!(stylesheet.matches("border-image-source").count(), 0);
}

#[test]
fn boilerplate_of_one_border_side() {
    let token = BorderColorToken("--color-neutral-300".to_string());
    assert_eq!(
        token.get_class_boilerplate(false, "-left", ".active.", "", "card"),
        ".active.border-theme-card-left{border-left: 1px solid var(--color-neutral-300);}"
    );
    assert_eq!(
        token.get_class_boilerplate(true, "", ".", "", "card"),
        ".border-theme-card{border: 1px solid;\n        border-image-slice: 1;\n        border-width: 1px;\n        border-image-source: var(--color-neutral-300);}"
    );
}

fn default_state_text(theme: &str, bg: &str, border: &str, text: &str) -> String {
    format!(
        ".theme-{theme}{{\n            background:var({bg});\n            color:var({text});\n        }}\n        \
         .bg-theme-{theme}{{\n            background: var({bg});\n        }}\n\
         .text-color-theme-{theme}{{\n            color: var({text});\n        }}\n\
         .border-theme-{theme}{{border: 1px solid var({border});}}\n\
         .border-theme-{theme}-top{{border-top: 1px solid var({border});}}\n\
         .border-theme-{theme}-right{{border-right: 1px solid var({border});}}\n\
         .border-theme-{theme}-bottom{{border-bottom: 1px solid var({border});}}\n\
         .border-theme-{theme}-left{{border-left: 1px solid var({border});}}"
    )
}

#[test]
fn color_state_of_the_default_state() {
    let colors = state("--color-a-1", "--color-a-2", "--color-a-3");
    assert_eq!(
        colors.to_stylesheet("danger", None, false),
        default_state_text("danger", "--color-a-1", "--color-a-2", "--color-a-3")
    );
}

#[test]
fn theme_with_only_a_default_state_has_no_state_selectors() {
    let colors = ColorSet {
        default: state("--color-a-1", "--color-a-2", "--color-a-3"),
        hover: None,
        active: None,
        focus: None,
    };
    let stylesheet = colors.to_stylesheet("danger");
    assert!(stylesheet.contains(".theme-danger{"));
    assert!(!stylesheet.contains("hover"));
    assert!(!stylesheet.contains("active"));
    assert!(!stylesheet.contains("focus"));
    assert_eq!(
        stylesheet,
        default_state_text("danger", "--color-a-1", "--color-a-2", "--color-a-3")
    );
}

#[test]
fn active_state_has_the_escaped_and_the_plain_selector() {
    let colors = ColorSet {
        default: state("--color-a-1", "--color-a-2", "--color-a-3"),
        hover: None,
        active: Some(state("--color-b-1", "--color-b-2", "--color-b-3")),
        focus: None,
    };
    let stylesheet = colors.to_stylesheet("danger");
    let declarations =
        "{\n            background:var(--color-b-1);\n            color:var(--color-b-3);\n        }";
    assert!(stylesheet.contains(&format!(".\\active\\:theme-danger:active{declarations}")));
    assert!(stylesheet.contains(&format!(".active.theme-danger{declarations}")));
    assert!(stylesheet.contains(".active.bg-theme-danger{"));
    assert!(stylesheet.contains(".\\active\\:border-theme-danger-top:active{"));
    assert!(!stylesheet.contains("hover"));
    assert!(!stylesheet.contains("focus"));
}

#[test]
fn states_come_in_the_order_default_hover_active_focus() {
    let colors = ColorSet {
        default: state("--d", "--d", "--d"),
        hover: Some(state("--h", "--h", "--h")),
        active: Some(state("--a", "--a", "--a")),
        focus: Some(state("--f", "--f", "--f")),
    };
    let stylesheet = colors.to_stylesheet("card");
    let default = stylesheet.find(".theme-card{").unwrap();
    let hover = stylesheet.find(".\\hover\\:theme-card:hover{").unwrap();
    let active = stylesheet.find(".\\active\\:theme-card:active{").unwrap();
    let by_class = stylesheet.find(".active.theme-card{").unwrap();
    let focus = stylesheet.find(".\\focus\\:theme-card:focus{").unwrap();
    assert!(default < hover && hover < active && active < by_class && by_class < focus);
    assert!(!stylesheet.contains(".hover.theme-card"));
    assert!(!stylesheet.contains(".focus.theme-card"));
}

#[test]
fn theme_without_dark_colors_has_an_empty_dark_fragment() {
    let theme = ColorTheme {
        theme_name: "danger".to_string(),
        light: ColorSet {
            default: state("--color-a-1", "--color-a-2", "--color-a-3"),
            hover: None,
            active: None,
            focus: None,
        },
        dark: None,
    };
    let pair = theme.to_stylesheet();
    assert_eq!(
        pair.light,
        default_state_text("danger", "--color-a-1", "--color-a-2", "--color-a-3")
    );
    assert_eq!(pair.dark, "");
}

#[test]
fn theme_with_dark_colors_has_both_fragments() {
    let theme = ColorTheme {
        theme_name: "danger".to_string(),
        light: ColorSet {
            default: state("--color-a-1", "--color-a-2", "--color-a-3"),
            hover: None,
            active: None,
            focus: None,
        },
        dark: Some(ColorSet {
            default: state("--color-a-9", "--color-a-8", "--color-a-7"),
            hover: None,
            active: None,
            focus: None,
        }),
    };
    let pair = theme.to_stylesheet();
    assert_eq!(
        pair.light,
        default_state_text("danger", "--color-a-1", "--color-a-2", "--color-a-3")
    );
    assert_eq!(
        pair.dark,
        default_state_text("danger", "--color-a-9", "--color-a-8", "--color-a-7")
    );
}

#[test]
fn text_theme_declarations() {
    let theme = TextTheme {
        font_size: "14px".to_string(),
        font_weight: 400,
        line_height: "20px".to_string(),
    };
    assert_eq!(
        theme.to_stylesheet(),
        "font-size:14px;font-weight:400;line-height:20px;"
    );
}

#[test]
fn font_weights_are_written_in_decimal() {
    let weights: [(u32, &str); 6] = [
        (0, "0"),
        (7, "7"),
        (10, "10"),
        (909, "909"),
        (1000, "1000"),
        (u32::MAX, "4294967295"),
    ];
    for (weight, text) in weights {
        let theme = TextTheme {
            font_size: "1px".to_string(),
            font_weight: weight,
            line_height: "2px".to_string(),
        };
        assert_eq!(
            theme.to_stylesheet(),
            format!("font-size:1px;font-weight:{text};line-height:2px;")
        );
    }
}

fn text_theme(font_size: &str, font_weight: u32, line_height: &str) -> TextTheme {
    TextTheme {
        font_size: font_size.to_string(),
        font_weight,
        line_height: line_height.to_string(),
    }
}

#[test]
fn text_tokens_rules() {
    let tokens = TextTokens {
        p: text_theme("14px", 400, "20px"),
        h1: text_theme("32px", 700, "40px"),
        h2: text_theme("28px", 600, "36px"),
        h3: text_theme("24px", 500, "32px"),
        font: "'Arial', sans-serif".to_string(),
        light_weight: 300,
        default_weight: 400,
        bold_weight: 700,
        font_size_sm: "12px".to_string(),
        font_size_md: "14px".to_string(),
        font_size_lg: "18px".to_string(),
    };
    assert_eq!(
        tokens.to_stylesheet(),
        ".font-default{font-family:'Arial', sans-serif;}\n\
         .font-light{font-weight:300;}\n\
         .font-normal{font-weight:400;}\n\
         .font-bold{font-weight:700;}\n\
         .text-sm{font-size:12px;}\n\
         .text-md{font-size:14px;}\n\
         .text-lg{font-size:18px;}\n\
         .text-p{font-size:14px;font-weight:400;line-height:20px;}\n\
         .text-h1{font-size:32px;font-weight:700;line-height:40px;}\n\
         .text-h2{font-size:28px;font-weight:600;line-height:36px;}\n\
         .text-h3{font-size:24px;font-weight:500;line-height:32px;}"
    );
}

#[test]
fn radius_tokens_rules() {
    let tokens = RadiusTokens {
        default: "4px".to_string(),
        large: "12px".to_string(),
    };
    assert_eq!(
        tokens.to_stylesheet(),
        ".rounded{border-radius:4px;}\n.rounded-lg{border-radius:12px;}"
    );
}

#[test]
fn space_tokens_declarations() {
    let tokens = SpaceTokens {
        default_page_padding: "32px".to_string(),
        default_element_padding: "8px".to_string(),
    };
    assert_eq!(
        tokens.to_stylesheet(),
        "--page-padding:32px;\n--element-padding:8px;"
    );
}

#[test]
fn effect_without_dark_value() {
    let effect = Effect {
        effect_name: "shadow".to_string(),
        light: "0 1px 3px rgba(0, 0, 0, 0.1)".to_string(),
        dark: None,
        effect_type: EffectType::Shadow,
    };
    let pair = effect.to_stylesheet();
    assert_eq!(pair.light, ".shadow{box-shadow:0 1px 3px rgba(0, 0, 0, 0.1);}");
    assert_eq!(pair.dark, "");
}

#[test]
fn effect_with_dark_value() {
    let effect = Effect {
        effect_name: "shadow".to_string(),
        light: "0 1px 3px rgba(0, 0, 0, 0.1)".to_string(),
        dark: Some("0 1px 3px rgba(255, 255, 255, 0.1)".to_string()),
        effect_type: EffectType::Shadow,
    };
    let pair = effect.to_stylesheet();
    assert_eq!(pair.light, ".shadow{box-shadow:0 1px 3px rgba(0, 0, 0, 0.1);}");
    assert_eq!(
        pair.dark,
        ".shadow{box-shadow:0 1px 3px rgba(255, 255, 255, 0.1);}"
    );
}

fn pair(light: &str, dark: &str) -> StylesheetLightDark {
    StylesheetLightDark {
        light: light.to_string(),
        dark: dark.to_string(),
    }
}

#[test]
fn combining_two_pairs_joins_each_side_with_a_line_feed() {
    let combined = pair("a", "x").combine(pair("b", ""));
    assert_eq!(combined.light, "a\nb");
    assert_eq!(combined.dark, "x\n");
}

#[test]
fn combining_is_associative() {
    let left = pair("a", "x").combine(pair("b", "y")).combine(pair("c", "z"));
    let right = pair("a", "x").combine(pair("b", "y").combine(pair("c", "z")));
    assert_eq!(left.light, right.light);
    assert_eq!(left.dark, right.dark);
    assert_eq!(left.light, "a\nb\nc");
    assert_eq!(left.dark, "x\ny\nz");
}

#[test]
fn combining_many_pairs_keeps_their_order() {
    let pairs = vec![pair("a", "x"), pair("b", "y"), pair("c", "z")];
    let combined = StylesheetLightDark::combine_all(&pairs);
    assert_eq!(combined.light, "a\nb\nc");
    assert_eq!(combined.dark, "x\ny\nz");
    let none = StylesheetLightDark::combine_all(&Vec::new());
    assert_eq!(none.light, "");
    assert_eq!(none.dark, "");
    let one = StylesheetLightDark::combine_all(&vec![pair("a", "x")]);
    assert_eq!(one.light, "a");
    assert_eq!(one.dark, "x");
}

#[test]
fn joining_the_streams_writes_one_dark_scope_behind_the_light_scope() {
    let text = pair("LIGHT", "DARK").join();
    assert_eq!(
        text,
        ":root{\nLIGHT\n}\n@media (prefers-color-scheme: dark){\n:root{\nDARK\n}\n}"
    );
    assert_eq!(text.matches("@media (prefers-color-scheme: dark)").count(), 1);
}
