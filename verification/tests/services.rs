use pathframe::compiler_service::{CompileError, ValidationError};
use pathframe::infrastructure::{compute_file_path, hyphenate, is_kebab_case};
use pathframe::workspace_domain::application_prototype_domain::{
    ApplicationPrototypeMetadata, Frame, FrameMetadata, FrameName, FrameType,
};
use pathframe::workspace_domain::design_system_domain::{
    BackgroundColorToken, BaseColorTokens, BorderColorToken, ColorSet, ColorState, ColorTheme,
    DesignSystem, Primitives, RadiusTokens, SingleColors, SpacePalette, SpaceTokens,
    TextColorToken, TextTheme, TextTokens, Tokens,
};
use pathframe::workspace_domain::design_system_to_stylesheet_domain::ToStylesheet;
use pathframe::workspace_repository::{
    find_frames_metadata, frame_file_name, get_frame_uri, DirectoryEntry,
};
use pathframe::workspace_service::application_prototype_service::{
    create_application_prototype, create_component, create_page, find_application_by_id,
    find_components_by_application, find_pages_by_application,
};
use pathframe::workspace_service::design_system_service::{
    design_system_to_stylesheet, find_design_system_by_id, write_not_found_message,
    DesignSystemError,
};
use regex::Regex;

const KEBAB_SAMPLES: [&str; 40] = [
    "", "a", "z", "0", "9", "abc", "a-b", "a_b", "a-b_c-d", "my-component", "my_component",
    "page-1", "1-page", "a--b", "a__b", "a-_b", "a_-b", "-a", "_a", "a-", "a_", "-", "_", "A",
    "aB", "my-Component", "a b", " a", "a ", "a.b", "a/b", "é", "a-é", "a\n", "\na", "a-b\n",
    "abc-def-ghi-0-1-2", "a1b2c3", "a-1_b-2", "`", 
];

#[test]
fn kebab_case_names_are_recognised() {
    for name in ["a", "abc", "a-b", "a_b", "my-component", "page-1", "1-page", "a-1_b-2"] {
        assert!(is_kebab_case(name), "{name:?} is in kebab case");
    }
}

#[test]
fn other_names_are_refused() {
    for name in [
        "", "-a", "a-", "_", "a--b", "a-_b", "A", "aB", "a b", "a.b", "é", "a\n", "{", "/", ":",
        "`",
    ] {
        assert!(!is_kebab_case(name), "{name:?} is not in kebab case");
    }
}

#[test]
fn kebab_case_agrees_with_the_pattern() {
    let pattern = Regex::new(r"^[a-z0-9]+([-_][a-z0-9]+)*$").unwrap();
    for name in KEBAB_SAMPLES {
        assert_eq!(is_kebab_case(name), pattern.is_match(name), "on {name:?}");
    }
    for first in ['a', 'z', '0', '9', '-', '_', 'A', '{', '/', ':', '`', ' '] {
        for second in ['a', '5', '-', '_', 'Z', '.'] {
            for third in ['b', '-', '_', '@'] {
                let name: String = [first, second, third].iter().collect();
                assert_eq!(is_kebab_case(&name), pattern.is_match(&name), "on {name:?}");
            }
        }
    }
}

#[test]
fn frame_name_is_parsed_from_a_kebab_case_name() {
    let name = FrameName::parse("my-component".to_string()).unwrap();
    assert_eq!(name.value(), "my-component");
    assert_eq!(name.clone().value(), "my-component");
}

#[test]
fn frame_name_refuses_other_names() {
    let error = FrameName::parse("My Component".to_string()).unwrap_err();
    assert_eq!(error.name, "My Component");
    assert_eq!(
        error.message(),
        "Fail to parse selector name in snake case: My Component"
    );
    assert!(FrameName::parse(String::new()).is_err());
}

#[test]
fn default_frame_name_is_empty() {
    assert_eq!(FrameName::default().value(), "");
}

fn frame_metadata(name: &str, path: &str, frame_type: FrameType) -> FrameMetadata {
    FrameMetadata {
        frame_name: FrameName::parse(name.to_string()).unwrap(),
        frame_path: path.to_string(),
        frame_type,
    }
}

#[test]
fn frame_starts_with_the_template_of_its_kind() {
    let layout = Frame::from(frame_metadata("layout", "/app/layout.html", FrameType::Layout));
    assert_eq!(layout.template, "<body></body>");
    assert_eq!(layout.frame_name.value(), "layout");
    assert_eq!(layout.frame_path, "/app/layout.html");
    assert_eq!(layout.frame_type, FrameType::Layout);
    let page = Frame::from(frame_metadata("home", "/app/pages/home.html", FrameType::Page));
    assert_eq!(page.template, "<main></main>");
    assert_eq!(page.frame_type, FrameType::Page);
    let component = Frame::from(frame_metadata("card", "c.html", FrameType::Component));
    assert_eq!(component.template, "<div></div>");
    assert_eq!(component.frame_path, "c.html");
    assert_eq!(component.frame_type, FrameType::Component);
}

#[test]
fn frame_directories_and_file_names() {
    assert_eq!(get_frame_uri(&FrameType::Component), "components");
    assert_eq!(get_frame_uri(&FrameType::Page), "pages");
    assert_eq!(get_frame_uri(&FrameType::Layout), "");
    let name = FrameName::parse("my-card".to_string()).unwrap();
    assert_eq!(frame_file_name(&name), "my-card.html");
}

fn entry(path: &str, stem: Option<&str>, extension: Option<&str>) -> DirectoryEntry {
    DirectoryEntry {
        path: path.to_string(),
        file_stem: stem.map(str::to_string),
        extension: extension.map(str::to_string),
    }
}

#[test]
fn frames_are_the_html_files_with_kebab_case_names() {
    let entries = vec![
        entry("/c/card.html", Some("card"), Some("html")),
        entry("/c/notes.txt", Some("notes"), Some("txt")),
        entry("/c/Big Card.html", Some("Big Card"), Some("html")),
        entry("/c/README", Some("README"), None),
        entry("/c/nav-bar.html", Some("nav-bar"), Some("html")),
        entry("/c/.html", None, Some("html")),
        entry("/c/old.HTML", Some("old"), Some("HTML")),
    ];
    let frames = find_frames_metadata(&entries, FrameType::Component);
    assert_eq!(frames.len(), 2);
    assert_eq!(frames[0].frame_name.value(), "card");
    assert_eq!(frames[0].frame_path, "/c/card.html");
    assert_eq!(frames[0].frame_type, FrameType::Component);
    assert_eq!(frames[1].frame_name.value(), "nav-bar");
    assert_eq!(frames[1].frame_path, "/c/nav-bar.html");
    let components = find_components_by_application(&entries);
    assert_eq!(components.len(), 2);
    assert_eq!(components[1].frame_type, FrameType::Component);
    let pages = find_pages_by_application(&entries);
    assert_eq!(pages.len(), 2);
    assert_eq!(pages[0].frame_type, FrameType::Page);
    assert!(find_frames_metadata(&Vec::new(), FrameType::Page).is_empty());
}

#[test]
fn new_application_has_no_design_system_and_no_path() {
    let application = create_application_prototype(
        "id-1".to_string(),
        "Shop",
        Some("A shop".to_string()),
    );
    assert_eq!(application.application_id, "id-1");
    assert_eq!(application.application_name, "Shop");
    assert_eq!(application.description, Some("A shop".to_string()));
    assert_eq!(application.design_system_id, None);
    assert_eq!(application.application_path, "");
}

fn application(id: &str, name: &str) -> ApplicationPrototypeMetadata {
    ApplicationPrototypeMetadata {
        application_id: id.to_string(),
        application_name: name.to_string(),
        description: None,
        design_system_id: None,
        application_path: format!("/apps/{name}"),
    }
}

#[test]
fn application_is_found_by_its_identifier() {
    let applications = vec![
        application("a", "first"),
        application("b", "second"),
        application("b", "third"),
    ];
    let found = find_application_by_id(applications, "b").unwrap();
    assert_eq!(found.application_name, "second");
    assert_eq!(found.application_path, "/apps/second");
    assert_eq!(found.clone().application_id, "b");
}

#[test]
fn unknown_application_is_reported() {
    let error = find_application_by_id(vec![application("a", "first")], "z").unwrap_err();
    assert_eq!(error.application_id, "z");
    assert_eq!(error.message(), "Application with ID z not found");
    assert!(find_application_by_id(Vec::new(), "a").is_err());
}

#[test]
fn new_component_and_page() {
    let component = create_component("nav-bar").unwrap();
    assert_eq!(component.frame_name.value(), "nav-bar");
    assert_eq!(component.frame_path, "");
    assert_eq!(component.frame_type, FrameType::Component);
    let copy = component.clone();
    assert_eq!(copy.frame_name.value(), "nav-bar");
    assert_eq!(copy.frame_type, FrameType::Component);
    let page = create_page("home").unwrap();
    assert_eq!(page.frame_name.value(), "home");
    assert_eq!(page.frame_path, "");
    assert_eq!(page.frame_type, FrameType::Page);
    assert_eq!(create_component("Nav Bar").unwrap_err().name, "Nav Bar");
    assert_eq!(create_page("").unwrap_err().name, "");
}

#[test]
fn spaces_in_file_names_become_hyphens() {
    assert_eq!(hyphenate("my shop app"), "my-shop-app");
    assert_eq!(hyphenate(""), "");
    assert_eq!(hyphenate(" é x "), "-é-x-");
    assert_eq!(hyphenate("a-b"), "a-b");
}

fn names(list: &[&str]) -> Vec<String> {
    list.iter().map(|name| name.to_string()).collect()
}

#[test]
fn free_file_name_is_taken_as_it_is() {
    assert_eq!(compute_file_path("my app", &names(&[])), "my-app");
    assert_eq!(compute_file_path("my app", &names(&["other", "my app"])), "my-app");
}

#[test]
fn taken_file_name_gets_the_first_free_number() {
    assert_eq!(compute_file_path("my app", &names(&["my-app"])), "my-app (1)");
    assert_eq!(
        compute_file_path("my app", &names(&["my-app (1)", "my-app"])),
        "my-app (2)"
    );
    assert_eq!(
        compute_file_path("my app", &names(&["my-app (2)", "my-app", "x"])),
        "my-app (1)"
    );
    let mut taken = names(&["shop"]);
    for i in 1..=11 {
        taken.push(format!("shop ({i})"));
    }
    taken.push("shop (1)".to_string());
    assert_eq!(compute_file_path("shop", &taken), "shop (12)");
}

fn text_theme() -> TextTheme {
    TextTheme {
        font_size: "1px".to_string(),
        font_weight: 1,
        line_height: "1px".to_string(),
    }
}

fn design_system(id: &str, name: &str) -> DesignSystem {
    let base = BaseColorTokens {
        bg_main: "a".to_string(),
        text_color_main_light: "b".to_string(),
        text_color_main: "c".to_string(),
        text_color_main_dark: "d".to_string(),
        border_main: "e".to_string(),
        bg_main_disabled: "f".to_string(),
        text_color_main_disabled: "g".to_string(),
        border_main_disabled: "h".to_string(),
    };
    DesignSystem {
        design_system_id: id.to_string(),
        design_system_name: name.to_string(),
        dark_mode: false,
        primitives: Primitives {
            color_palettes: Vec::new(),
            single_colors: SingleColors(Vec::new()),
            space: SpacePalette(Vec::new()),
        },
        tokens: Tokens {
            light_default_single_tokens: base,
            dark_default_single_tokens: None,
            colors_themes: Vec::new(),
            text_tokens: TextTokens {
                p: text_theme(),
                h1: text_theme(),
                h2: text_theme(),
                h3: text_theme(),
                font: "serif".to_string(),
                light_weight: 1,
                default_weight: 2,
                bold_weight: 3,
                font_size_sm: "1px".to_string(),
                font_size_md: "2px".to_string(),
                font_size_lg: "3px".to_string(),
            },
            radius_tokens: RadiusTokens {
                default: "0".to_string(),
                large: "1px".to_string(),
            },
            space_tokens: SpaceTokens {
                default_page_padding: "0".to_string(),
                default_element_padding: "0".to_string(),
            },
            effects: Vec::new(),
        },
        design_system_path: String::new(),
    }
}

#[test]
fn design_system_is_found_by_its_identifier() {
    let design_systems = vec![
        design_system("a", "first"),
        design_system("b", "second"),
        design_system("b", "third"),
    ];
    let found = find_design_system_by_id(design_systems, "b").unwrap();
    assert_eq!(found.design_system_name, "second");
}

#[test]
fn unknown_design_system_is_reported() {
    let error = find_design_system_by_id(vec![design_system("a", "first")], "zz").unwrap_err();
    assert!(matches!(error, DesignSystemError::NotFound(id) if id == "zz"));
    assert_eq!(
        write_not_found_message("zz"),
        "Design system with ID zz not found"
    );
}

#[test]
fn stylesheet_of_the_design_system_with_an_identifier() {
    let design_systems = vec![design_system("a", "first"), design_system("b", "second")];
    let text = design_system_to_stylesheet(design_systems, "b").unwrap();
    assert_eq!(text, design_system("b", "second").to_stylesheet());
    assert!(text.starts_with(":root{\n\n\n\n--bg-main:a;"));
    let missing = design_system_to_stylesheet(vec![design_system("a", "first")], "b");
    assert!(matches!(missing, Err(DesignSystemError::NotFound(id)) if id == "b"));
}

#[test]
fn faulty_design_system_of_a_workspace_has_no_stylesheet() {
    let mut faulty = design_system("a", "first");
    faulty.primitives.space = SpacePalette(vec![
        ("1".to_string(), "1px".to_string()),
        ("1".to_string(), "2px".to_string()),
    ]);
    let result = design_system_to_stylesheet(vec![faulty], "a");
    assert!(matches!(
        result,
        Err(DesignSystemError::Compile(CompileError::Validation(
            ValidationError::DuplicateSpace(key)
        ))) if key == "1"
    ));
}

#[test]
fn design_system_of_a_workspace_with_a_gradient_border_has_a_stylesheet() {
    let mut with_gradient = design_system("g", "gradient");
    with_gradient.primitives.single_colors = SingleColors(vec![(
        "sunset".to_string(),
        "linear-gradient(red, gold)".to_string(),
    )]);
    with_gradient.tokens.colors_themes = vec![ColorTheme {
        theme_name: "card".to_string(),
        light: ColorSet {
            default: ColorState {
                bg: BackgroundColorToken("--color-single-sunset".to_string()),
                border: BorderColorToken("--gradient-single-sunset".to_string()),
                text: TextColorToken("--color-single-sunset".to_string()),
            },
            hover: None,
            active: None,
            focus: None,
        },
        dark: None,
    }];
    let text = design_system_to_stylesheet(vec![design_system("a", "first"), with_gradient], "g")
        .unwrap();
    assert_eq!(text.matches("border-image-source: var(--gradient-single-sunset);").count(), 5);
    assert_eq!(text.matches("border-image-slice: 1;").count(), 5);
    assert_eq!(text.matches("solid var(").count(), 0);
}
