use vstd::prelude::*;
use vstd::string::*;
use crate::design_system_domain::{
    Base, BaseView, ColorDarkable, Palette, PaletteView, Space, ThemeColor, ThemeColorSet,
    ThemeColorSetView, ThemeColorView,
};
use crate::text::starts_with;
use crate::workspace_domain::design_system_domain::{
    BackgroundColorToken, BaseColorTokens, BaseColorTokensView, BorderColorToken, ColorPalette,
    ColorPaletteView, ColorSet, ColorSetView, ColorState, ColorStateView, Shades, SpacePalette,
    TextColorToken,
};

verus! {

/// The custom property that a colour reference is written as. The shade
/// `<label>` of the palette `<name>` is referred to as
/// `palette-<name>-<label>` and written as `--color-<name>-<label>`, the
/// custom property under which it is declared. Any other reference is written
/// with two hyphens before it, so that `gradient-<name>-<label>` gives
/// `--gradient-<name>-<label>`: the same shade with the gradient marker,
/// which says that its value is a gradient.
pub open spec fn custom_property(reference: Seq<char>) -> Seq<char> {
    if "palette-"@.is_prefix_of(reference) {
        "--color-"@ + reference.skip("palette-"@.len() as int)
    } else {
        "--"@ + reference
    }
}

/// How a resolved reference is used as a value: `var(<custom property>)`.
pub open spec fn variable_usage(reference: Seq<char>) -> Seq<char> {
    "var("@ + custom_property(reference) + ")"@
}

/// The custom property that `reference` names.
pub fn resolve_reference(reference: &str) -> (res: String)
    ensures
        res@ == custom_property(reference@),
{
    if starts_with(reference, "palette-") {
        let from = "palette-".unicode_len();
        let to = reference.unicode_len();
        let rest = reference.substring_char(from, to);
        proof {
            assert(reference@.subrange(from as int, to as int) =~= reference@.skip(from as int));
        }
        let mut out = String::from_str("--color-");
        out.append(rest);
        out
    } else {
        let mut out = String::from_str("--");
        out.append(reference);
        out
    }
}

/// Writes how `reference` is used as a value.
pub fn write_variable_usage(reference: &str) -> (res: String)
    ensures
        res@ == variable_usage(reference@),
{
    let property = resolve_reference(reference);
    let mut out = String::from_str("var(");
    out.append(property.as_str());
    out.append(")");
    out
}

impl ThemeColorSetView {
    /// Whether each of the three tokens has its light reference.
    pub open spec fn complete(self) -> bool {
        self.background.default is Some && self.border.default is Some && self.text.default
            is Some
    }

    /// The custom properties of the state in light mode.
    pub open spec fn light_state(self) -> ColorStateView {
        ColorStateView {
            bg: custom_property(self.background.default->0),
            border: custom_property(self.border.default->0),
            text: custom_property(self.text.default->0),
        }
    }
}

/// Whether a state that may be absent is complete where it is present.
pub open spec fn optional_complete(state: Option<ThemeColorSetView>) -> bool {
    match state {
        Some(colors) => colors.complete(),
        None => true,
    }
}

/// The custom properties in light mode of a state that may be absent.
pub open spec fn optional_light_state(state: Option<ThemeColorSetView>) -> Option<ColorStateView> {
    match state {
        Some(colors) => Some(colors.light_state()),
        None => None,
    }
}

impl ThemeColorView {
    /// Whether every token of every state that the theme defines has its
    /// light reference.
    pub open spec fn complete(self) -> bool {
        &&& self.default.complete()
        &&& optional_complete(self.hover)
        &&& optional_complete(self.active)
        &&& optional_complete(self.focus)
    }

    /// The custom properties of every state in light mode.
    pub open spec fn light_colors(self) -> ColorSetView {
        ColorSetView {
            default: self.default.light_state(),
            hover: optional_light_state(self.hover),
            active: optional_light_state(self.active),
            focus: optional_light_state(self.focus),
        }
    }
}

/// The state whose colours are the custom properties that the three
/// references name.
fn resolve_state(bg: &String, border: &String, text: &String) -> (res: ColorState)
    ensures
        res@ == (ColorStateView {
            bg: custom_property(bg@),
            border: custom_property(border@),
            text: custom_property(text@),
        }),
{
    ColorState {
        bg: BackgroundColorToken(resolve_reference(bg.as_str())),
        border: BorderColorToken(resolve_reference(border.as_str())),
        text: TextColorToken(resolve_reference(text.as_str())),
    }
}

impl ThemeColorSet {
    /// The custom properties of the state in light mode, where each token
    /// has its light reference.
    pub fn light_state(&self) -> (res: Option<ColorState>)
        ensures
            res is Some <==> self@.complete(),
            res matches Some(state) ==> state@ == self@.light_state(),
    {
        match (&self.background.default, &self.border.default, &self.text.default) {
            (Some(bg), Some(border), Some(text)) => Some(resolve_state(bg, border, text)),
            _ => None,
        }
    }
}

/// The custom properties in light mode of a state that may be absent; the
/// outer result is nothing where the state is present and incomplete.
fn resolve_optional_light(state: &Option<ThemeColorSet>) -> (res: Option<Option<ColorState>>)
    ensures
        res is Some <==> optional_complete(state.deep_view()),
        res matches Some(resolved) ==> resolved.deep_view() == optional_light_state(
            state.deep_view(),
        ),
{
    match state {
        Some(colors) => match colors.light_state() {
            Some(resolved) => Some(Some(resolved)),
            None => None,
        },
        None => Some(None),
    }
}

impl ThemeColor {
    /// The colours of the theme in light mode, as the custom properties that
    /// its light references name; nothing where a token lacks its light
    /// reference.
    pub fn light_colors(&self) -> (res: Option<ColorSet>)
        ensures
            res is Some <==> self@.complete(),
            res matches Some(colors) ==> colors@ == self@.light_colors(),
    {
        match (
            self.default.light_state(),
            resolve_optional_light(&self.hover),
            resolve_optional_light(&self.active),
            resolve_optional_light(&self.focus),
        ) {
            (Some(default), Some(hover), Some(active), Some(focus)) => Some(
                ColorSet { default, hover, active, focus },
            ),
            _ => None,
        }
    }
}

impl BaseView {
    /// Whether each role has its light reference.
    pub open spec fn complete(self) -> bool {
        &&& self.background.default is Some
        &&& self.border.default is Some
        &&& self.text_light.default is Some
        &&& self.text_default.default is Some
        &&& self.text_dark.default is Some
        &&& self.background_disabled.default is Some
        &&& self.text_disabled.default is Some
        &&& self.border_disabled.default is Some
    }

    /// The base colours in light mode, each as the usage of the custom
    /// property that its reference names.
    pub open spec fn light_tokens(self) -> BaseColorTokensView {
        BaseColorTokensView {
            bg_main: variable_usage(self.background.default->0),
            text_color_main_light: variable_usage(self.text_light.default->0),
            text_color_main: variable_usage(self.text_default.default->0),
            text_color_main_dark: variable_usage(self.text_dark.default->0),
            border_main: variable_usage(self.border.default->0),
            bg_main_disabled: variable_usage(self.background_disabled.default->0),
            text_color_main_disabled: variable_usage(self.text_disabled.default->0),
            border_main_disabled: variable_usage(self.border_disabled.default->0),
        }
    }
}

/// How the light reference of a token is used as a value, if it has one.
fn light_usage(token: &ColorDarkable) -> (res: Option<String>)
    ensures
        res is Some <==> token@.default is Some,
        res matches Some(usage) ==> usage@ == variable_usage(token@.default->0),
{
    match &token.default {
        Some(reference) => Some(write_variable_usage(reference.as_str())),
        None => None,
    }
}

impl Base {
    /// The base colours in light mode, each as the usage of the custom
    /// property that its light reference names; nothing where a role lacks its
    /// light reference.
    pub fn light_tokens(&self) -> (res: Option<BaseColorTokens>)
        ensures
            res is Some <==> self@.complete(),
            res matches Some(tokens) ==> tokens@ == self@.light_tokens(),
    {
        match (
            light_usage(&self.background),
            light_usage(&self.text_light),
            light_usage(&self.text_default),
            light_usage(&self.text_dark),
            light_usage(&self.border),
            light_usage(&self.background_disabled),
            light_usage(&self.text_disabled),
            light_usage(&self.border_disabled),
        ) {
            (
                Some(bg_main),
                Some(text_color_main_light),
                Some(text_color_main),
                Some(text_color_main_dark),
                Some(border_main),
                Some(bg_main_disabled),
                Some(text_color_main_disabled),
                Some(border_main_disabled),
            ) => Some(
                BaseColorTokens {
                    bg_main,
                    text_color_main_light,
                    text_color_main,
                    text_color_main_dark,
                    border_main,
                    bg_main_disabled,
                    text_color_main_disabled,
                    border_main_disabled,
                },
            ),
            _ => None,
        }
    }
}

impl PaletteView {
    /// The palette as the compiler takes it: its name and its shades.
    pub open spec fn color_palette(self) -> ColorPaletteView {
        ColorPaletteView { palette_name: self.palette_name, shades: self.shades }
    }
}

impl Palette {
    /// The palette as the compiler takes it: its name and its shades, in order.
    pub fn to_color_palette(&self) -> (res: ColorPalette)
        ensures
            res@ == self@.color_palette(),
    {
        let mut shades: Vec<(String, String)> = Vec::new();
        let n: usize = self.shades.len();
        let mut i: usize = 0;
        while i < n
            invariant
                n == self.shades.len(),
                i <= n,
                shades.len() == i,
                forall|k: int|
                    0 <= k < i ==> (#[trigger] shades@[k]).deep_view() == self.shades@[k]@,
            decreases n - i,
        {
            shades.push((self.shades[i].label.clone(), self.shades[i].color.clone()));
            i = i + 1;
        }
        proof {
            assert(shades.deep_view() =~= self.shades.deep_view());
        }
        ColorPalette { palette_name: self.palette_name.clone(), shades: Shades(shades) }
    }
}

/// The spacing steps as the compiler takes them, in order.
pub fn to_space_palette(spaces: &Vec<Space>) -> (res: SpacePalette)
    ensures
        res@ == spaces.deep_view(),
{
    let mut steps: Vec<(String, String)> = Vec::new();
    let n: usize = spaces.len();
    let mut i: usize = 0;
    while i < n
        invariant
            n == spaces.len(),
            i <= n,
            steps.len() == i,
            forall|k: int| 0 <= k < i ==> (#[trigger] steps@[k]).deep_view() == spaces@[k]@,
        decreases n - i,
    {
        steps.push((spaces[i].space_key.clone(), spaces[i].space_value.clone()));
        i = i + 1;
    }
    proof {
        assert(steps.deep_view() =~= spaces.deep_view());
    }
    SpacePalette(steps)
}

} // verus!
