use vstd::prelude::*;

verus! {

/// An ordered list of `(key, value)` pairs as texts.
pub type Entries = Seq<(Seq<char>, Seq<char>)>;

/// Whether no key occurs twice in `entries`.
pub open spec fn keys_distinct(entries: Entries) -> bool {
    forall|i: int, j: int|
        0 <= i < j < entries.len() ==> (#[trigger] entries[i]).0 != (#[trigger] entries[j]).0
}

/// A design system: its identity, whether dark mode is enabled, the primitive
/// values and the semantic tokens that refer to them.
#[derive(Debug, Clone)]
pub struct DesignSystem {
    pub design_system_id: String,
    pub design_system_name: String,
    pub dark_mode: bool,
    pub primitives: Primitives,
    pub tokens: Tokens,
    pub design_system_path: String,
}

/// The view of [`DesignSystem`]: its texts as sequences of characters.
pub struct DesignSystemView {
    pub design_system_id: Seq<char>,
    pub design_system_name: Seq<char>,
    pub dark_mode: bool,
    pub primitives: PrimitivesView,
    pub tokens: TokensView,
    pub design_system_path: Seq<char>,
}

impl View for DesignSystem {
    type V = DesignSystemView;

    open spec fn view(&self) -> DesignSystemView {
        DesignSystemView {
            design_system_id: self.design_system_id@,
            design_system_name: self.design_system_name@,
            dark_mode: self.dark_mode,
            primitives: self.primitives@,
            tokens: self.tokens@,
            design_system_path: self.design_system_path@,
        }
    }
}

impl DeepView for DesignSystem {
    type V = DesignSystemView;

    open spec fn deep_view(&self) -> DesignSystemView {
        self@
    }
}

/// The primitive values: colour palettes, standalone colours and spacing steps.
#[derive(Debug, Clone)]
pub struct Primitives {
    pub color_palettes: Vec<ColorPalette>,
    pub single_colors: SingleColors,
    pub space: SpacePalette,
}

/// The view of [`Primitives`]: its texts as sequences of characters.
pub struct PrimitivesView {
    pub color_palettes: Seq<ColorPaletteView>,
    pub single_colors: Entries,
    pub space: Entries,
}

impl View for Primitives {
    type V = PrimitivesView;

    open spec fn view(&self) -> PrimitivesView {
        PrimitivesView {
            color_palettes: self.color_palettes.deep_view(),
            single_colors: self.single_colors@,
            space: self.space@,
        }
    }
}

/// Standalone colours, `(name, value)`, in the order in which they were declared.
#[derive(Debug, Clone)]
pub struct SingleColors(pub Vec<(String, String)>);

impl View for SingleColors {
    type V = Entries;

    open spec fn view(&self) -> Entries {
        self.0.deep_view()
    }
}

/// Spacing steps, `(key, value)`, in the order in which they were declared.
#[derive(Debug, Clone)]
pub struct SpacePalette(pub Vec<(String, String)>);

impl View for SpacePalette {
    type V = Entries;

    open spec fn view(&self) -> Entries {
        self.0.deep_view()
    }
}

/// A named colour palette.
#[derive(Debug, Clone)]
pub struct ColorPalette {
    pub palette_name: String,
    pub shades: Shades,
}

/// The view of [`ColorPalette`]: its texts as sequences of characters.
pub struct ColorPaletteView {
    pub palette_name: Seq<char>,
    pub shades: Entries,
}

impl View for ColorPalette {
    type V = ColorPaletteView;

    open spec fn view(&self) -> ColorPaletteView {
        ColorPaletteView { palette_name: self.palette_name@, shades: self.shades@ }
    }
}

impl DeepView for ColorPalette {
    type V = ColorPaletteView;

    open spec fn deep_view(&self) -> ColorPaletteView {
        self@
    }
}

/// The shades of a palette, `(label, colour)`, in the order in which they were declared.
#[derive(Debug, Clone)]
pub struct Shades(pub Vec<(String, String)>);

impl View for Shades {
    type V = Entries;

    open spec fn view(&self) -> Entries {
        self.0.deep_view()
    }
}

/// The semantic tokens of a design system.
#[derive(Debug, Clone)]
pub struct Tokens {
    pub light_default_single_tokens: BaseColorTokens,
    pub dark_default_single_tokens: Option<BaseColorTokens>,
    pub colors_themes: Vec<ColorTheme>,
    pub text_tokens: TextTokens,
    pub radius_tokens: RadiusTokens,
    pub space_tokens: SpaceTokens,
    pub effects: Vec<Effect>,
}

/// The view of [`Tokens`]: its texts as sequences of characters.
pub struct TokensView {
    pub light_default_single_tokens: BaseColorTokensView,
    pub dark_default_single_tokens: Option<BaseColorTokensView>,
    pub colors_themes: Seq<ColorThemeView>,
    pub text_tokens: TextTokensView,
    pub radius_tokens: RadiusTokensView,
    pub space_tokens: SpaceTokensView,
    pub effects: Seq<EffectView>,
}

impl View for Tokens {
    type V = TokensView;

    open spec fn view(&self) -> TokensView {
        TokensView {
            light_default_single_tokens: self.light_default_single_tokens@,
            dark_default_single_tokens: self.dark_default_single_tokens.deep_view(),
            colors_themes: self.colors_themes.deep_view(),
            text_tokens: self.text_tokens@,
            radius_tokens: self.radius_tokens@,
            space_tokens: self.space_tokens@,
            effects: self.effects.deep_view(),
        }
    }
}

/// The base colours of a design system, one value per role.
#[derive(Debug, Clone)]
pub struct BaseColorTokens {
    pub bg_main: String,
    pub text_color_main_light: String,
    pub text_color_main: String,
    pub text_color_main_dark: String,
    pub border_main: String,
    pub bg_main_disabled: String,
    pub text_color_main_disabled: String,
    pub border_main_disabled: String,
}

/// The view of [`BaseColorTokens`]: its texts as sequences of characters.
pub struct BaseColorTokensView {
    pub bg_main: Seq<char>,
    pub text_color_main_light: Seq<char>,
    pub text_color_main: Seq<char>,
    pub text_color_main_dark: Seq<char>,
    pub border_main: Seq<char>,
    pub bg_main_disabled: Seq<char>,
    pub text_color_main_disabled: Seq<char>,
    pub border_main_disabled: Seq<char>,
}

impl View for BaseColorTokens {
    type V = BaseColorTokensView;

    open spec fn view(&self) -> BaseColorTokensView {
        BaseColorTokensView {
            bg_main: self.bg_main@,
            text_color_main_light: self.text_color_main_light@,
            text_color_main: self.text_color_main@,
            text_color_main_dark: self.text_color_main_dark@,
            border_main: self.border_main@,
            bg_main_disabled: self.bg_main_disabled@,
            text_color_main_disabled: self.text_color_main_disabled@,
            border_main_disabled: self.border_main_disabled@,
        }
    }
}

impl DeepView for BaseColorTokens {
    type V = BaseColorTokensView;

    open spec fn deep_view(&self) -> BaseColorTokensView {
        self@
    }
}

/// A colour theme: its name, its colours in light mode and, where the theme
/// has them, its colours in dark mode.
#[derive(Debug, Clone)]
pub struct ColorTheme {
    pub theme_name: String,
    pub light: ColorSet,
    pub dark: Option<ColorSet>,
}

/// The view of [`ColorTheme`]: its texts as sequences of characters.
pub struct ColorThemeView {
    pub theme_name: Seq<char>,
    pub light: ColorSetView,
    pub dark: Option<ColorSetView>,
}

impl View for ColorTheme {
    type V = ColorThemeView;

    open spec fn view(&self) -> ColorThemeView {
        ColorThemeView {
            theme_name: self.theme_name@,
            light: self.light@,
            dark: self.dark.deep_view(),
        }
    }
}

impl DeepView for ColorTheme {
    type V = ColorThemeView;

    open spec fn deep_view(&self) -> ColorThemeView {
        self@
    }
}

/// The colours of a theme per interaction state. Only the default state is
/// mandatory; a state that is absent has no rules of its own.
#[derive(Debug, Clone)]
pub struct ColorSet {
    pub default: ColorState,
    pub hover: Option<ColorState>,
    pub active: Option<ColorState>,
    pub focus: Option<ColorState>,
}

/// The view of [`ColorSet`]: its texts as sequences of characters.
pub struct ColorSetView {
    pub default: ColorStateView,
    pub hover: Option<ColorStateView>,
    pub active: Option<ColorStateView>,
    pub focus: Option<ColorStateView>,
}

impl View for ColorSet {
    type V = ColorSetView;

    open spec fn view(&self) -> ColorSetView {
        ColorSetView {
            default: self.default@,
            hover: self.hover.deep_view(),
            active: self.active.deep_view(),
            focus: self.focus.deep_view(),
        }
    }
}

impl DeepView for ColorSet {
    type V = ColorSetView;

    open spec fn deep_view(&self) -> ColorSetView {
        self@
    }
}

/// The three colour references of one interaction state.
#[derive(Debug, Clone)]
pub struct ColorState {
    pub bg: BackgroundColorToken,
    pub border: BorderColorToken,
    pub text: TextColorToken,
}

/// The view of [`ColorState`]: its texts as sequences of characters.
pub struct ColorStateView {
    pub bg: Seq<char>,
    pub border: Seq<char>,
    pub text: Seq<char>,
}

impl View for ColorState {
    type V = ColorStateView;

    open spec fn view(&self) -> ColorStateView {
        ColorStateView { bg: self.bg@, border: self.border@, text: self.text@ }
    }
}

impl DeepView for ColorState {
    type V = ColorStateView;

    open spec fn deep_view(&self) -> ColorStateView {
        self@
    }
}

/// A reference to the custom property that holds a background colour.
#[derive(Debug, Clone)]
pub struct BackgroundColorToken(pub String);

impl View for BackgroundColorToken {
    type V = Seq<char>;

    open spec fn view(&self) -> Seq<char> {
        self.0@
    }
}

/// A reference to the custom property that holds a text colour.
#[derive(Debug, Clone)]
pub struct TextColorToken(pub String);

impl View for TextColorToken {
    type V = Seq<char>;

    open spec fn view(&self) -> Seq<char> {
        self.0@
    }
}

/// A reference to the custom property that holds a border colour or gradient.
#[derive(Debug, Clone)]
pub struct BorderColorToken(pub String);

impl View for BorderColorToken {
    type V = Seq<char>;

    open spec fn view(&self) -> Seq<char> {
        self.0@
    }
}

/// The typography tokens.
#[derive(Debug, Clone)]
pub struct TextTokens {
    pub p: TextTheme,
    pub h1: TextTheme,
    pub h2: TextTheme,
    pub h3: TextTheme,
    pub font: String,
    pub light_weight: u32,
    pub default_weight: u32,
    pub bold_weight: u32,
    pub font_size_sm: String,
    pub font_size_md: String,
    pub font_size_lg: String,
}

/// The view of [`TextTokens`]: its texts as sequences of characters.
pub struct TextTokensView {
    pub p: TextThemeView,
    pub h1: TextThemeView,
    pub h2: TextThemeView,
    pub h3: TextThemeView,
    pub font: Seq<char>,
    pub light_weight: nat,
    pub default_weight: nat,
    pub bold_weight: nat,
    pub font_size_sm: Seq<char>,
    pub font_size_md: Seq<char>,
    pub font_size_lg: Seq<char>,
}

impl View for TextTokens {
    type V = TextTokensView;

    open spec fn view(&self) -> TextTokensView {
        TextTokensView {
            p: self.p@,
            h1: self.h1@,
            h2: self.h2@,
            h3: self.h3@,
            font: self.font@,
            light_weight: self.light_weight as nat,
            default_weight: self.default_weight as nat,
            bold_weight: self.bold_weight as nat,
            font_size_sm: self.font_size_sm@,
            font_size_md: self.font_size_md@,
            font_size_lg: self.font_size_lg@,
        }
    }
}

/// The typography of one text scale.
#[derive(Debug, Clone)]
pub struct TextTheme {
    pub font_size: String,
    pub font_weight: u32,
    pub line_height: String,
}

/// The view of [`TextTheme`]: its texts as sequences of characters.
pub struct TextThemeView {
    pub font_size: Seq<char>,
    pub font_weight: nat,
    pub line_height: Seq<char>,
}

impl View for TextTheme {
    type V = TextThemeView;

    open spec fn view(&self) -> TextThemeView {
        TextThemeView {
            font_size: self.font_size@,
            font_weight: self.font_weight as nat,
            line_height: self.line_height@,
        }
    }
}

/// The kinds of visual effect.
#[derive(Debug, Clone, Copy, PartialEq, Eq, Structural)]
pub enum EffectType {
    Shadow,
}

/// A named visual effect: its value in light mode and, where it has one, the
/// value that replaces it in dark mode.
#[derive(Debug, Clone)]
pub struct Effect {
    pub effect_name: String,
    pub light: String,
    pub dark: Option<String>,
    pub effect_type: EffectType,
}

/// The view of [`Effect`]: its texts as sequences of characters.
pub struct EffectView {
    pub effect_name: Seq<char>,
    pub light: Seq<char>,
    pub dark: Option<Seq<char>>,
    pub effect_type: EffectType,
}

impl View for Effect {
    type V = EffectView;

    open spec fn view(&self) -> EffectView {
        EffectView {
            effect_name: self.effect_name@,
            light: self.light@,
            dark: self.dark.deep_view(),
            effect_type: self.effect_type,
        }
    }
}

impl DeepView for Effect {
    type V = EffectView;

    open spec fn deep_view(&self) -> EffectView {
        self@
    }
}

/// The corner radii.
#[derive(Debug, Clone)]
pub struct RadiusTokens {
    pub default: String,
    pub large: String,
}

/// The view of [`RadiusTokens`]: its texts as sequences of characters.
pub struct RadiusTokensView {
    pub default: Seq<char>,
    pub large: Seq<char>,
}

impl View for RadiusTokens {
    type V = RadiusTokensView;

    open spec fn view(&self) -> RadiusTokensView {
        RadiusTokensView { default: self.default@, large: self.large@ }
    }
}

/// The default paddings of pages and elements.
#[derive(Debug, Clone)]
pub struct SpaceTokens {
    pub default_page_padding: String,
    pub default_element_padding: String,
}

/// The view of [`SpaceTokens`]: its texts as sequences of characters.
pub struct SpaceTokensView {
    pub default_page_padding: Seq<char>,
    pub default_element_padding: Seq<char>,
}

impl View for SpaceTokens {
    type V = SpaceTokensView;

    open spec fn view(&self) -> SpaceTokensView {
        SpaceTokensView {
            default_page_padding: self.default_page_padding@,
            default_element_padding: self.default_element_padding@,
        }
    }
}

} // verus!
