use pathframe::workspace_domain::design_system_domain::{
    BaseColorTokens, ColorPalette, Shades, SingleColors, SpacePalette,
};
use pathframe::workspace_domain::design_system_to_stylesheet_domain::ToStylesheet;

#[test]
fn test_color_palette_to_stylesheet() {
    let mut palette = ColorPalette {
        palette_name: String::from("primary"),
        shades: Shades(Vec::new()),
    };

    palette
        .shades
        .0
        .push((String::from("50"), String::from("#FFFFFF")));
    palette
        .shades
        .0
        .push((String::from("950"), String::from("#DDDDDD")));

    let expected_contain = "--color-primary-50:#FFFFFF";
    let expected_contain2 = "--color-primary-950:#DDDDDD";

    let palette_to_stylesheet: String = palette.to_stylesheet();

    assert!(palette_to_stylesheet.contains(expected_contain));
    assert!(palette_to_stylesheet.contains(expected_contain2));
}

#[test]
fn test_single_colors_to_stylesheet() {
    let mut single_colors = SingleColors(Vec::new());

    single_colors
        .0
        .push((String::from("white"), String::from("#ffffff")));
    single_colors
        .0
        .push((String::from("red"), String::from("#e24")));

    let stylesheet: String = single_colors.to_stylesheet();

    let contain_1 = "--color-single-white:#ffffff";
    let contain_2 = "--color-single-red:#e24";

    assert!(stylesheet.contains(contain_1));
    assert!(stylesheet.contains(contain_2));
}

#[test]
fn test_space_palette_to_stylesheet() {
    let mut single_colors = SpacePalette(Vec::new());

    single_colors
        .0
        .push((String::from("0"), String::from("10px")));
    single_colors
        .0
        .push((String::from("1"), String::from("20px")));

    let stylesheet: String = single_colors.to_stylesheet();

    let contain_1 = "--space-0:10px";
    let contain_2 = "--space-1:20px";

    assert!(stylesheet.contains(contain_1));
    assert!(stylesheet.contains(contain_2));
}

#[test]
fn test_base_color_to_stylesheet() {
    let tokens = BaseColorTokens {
        bg_main: "#FFFFFF".to_string(),
        text_color_main: "#000000".to_string(),
        text_color_main_dark: "#333333".to_string(),
        text_color_main_light: "#666666".to_string(),
        border_main: "#CCCCCC".to_string(),
        bg_main_disabled: "#F0F0F0".to_string(),
        border_main_disabled: "#AAAAAA".to_string(),
        text_color_main_disabled: "#BBBBBB".to_string(),
    };

    let stylesheet = tokens.to_stylesheet();

    let expected_stylesheet = "--bg-main:#FFFFFF;\
            --text-color-main:#000000;\
            --text-color-main-dark:#333333;\
            --text-color-main-light:#666666;\
            --border-main:#CCCCCC;\
            --bg-main-disabled:#F0F0F0;\
            --border-main-disabled:#AAAAAA;\
            --text-color-main-disabled:#BBBBBB;"
        .replace("\n", "")
        .replace(" ", "");

    assert_eq!(
        stylesheet.replace("\n", "").replace(" ", ""),
        expected_stylesheet
    );
}
