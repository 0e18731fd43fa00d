use vstd::prelude::*;
use vstd::string::*;
use crate::text::{
    decimal_string, decimal_text, join_lines, join_with_newlines, push_text, starts_with, texts,
};
use crate::workspace_domain::design_system_domain::{
    BackgroundColorToken, BaseColorTokens, BaseColorTokensView, BorderColorToken, ColorPalette,
    ColorPaletteView, ColorSet, ColorSetView, ColorState, ColorStateView, ColorTheme,
    ColorThemeView, DesignSystem, DesignSystemView, Effect, EffectType, EffectView, Entries,
    Primitives, PrimitivesView, RadiusTokens, RadiusTokensView, SingleColors, SpacePalette,
    SpaceTokens, SpaceTokensView, TextColorToken, TextTheme, TextThemeView, TextTokens,
    TextTokensView, Tokens, TokensView,
};

verus! {

/// A stylesheet fragment of a token that looks the same in light and dark mode.
pub trait ToStylesheet {
    /// The fragment, as a text.
    spec fn stylesheet(&self) -> Seq<char>;

    fn to_stylesheet(&self) -> (res: String)
        ensures
            res@ == self.stylesheet(),
    ;
}

/// A pair of stylesheet fragments: the rules that always hold, and the rules
/// that replace them in dark mode.
#[derive(Debug)]
pub struct StylesheetLightDark {
    pub light: String,
    pub dark: String,
}

/// The view of [`StylesheetLightDark`]: its texts as sequences of characters.
pub struct StylesheetLightDarkView {
    pub light: Seq<char>,
    pub dark: Seq<char>,
}

impl View for StylesheetLightDark {
    type V = StylesheetLightDarkView;

    open spec fn view(&self) -> StylesheetLightDarkView {
        StylesheetLightDarkView { light: self.light@, dark: self.dark@ }
    }
}

impl DeepView for StylesheetLightDark {
    type V = StylesheetLightDarkView;

    open spec fn deep_view(&self) -> StylesheetLightDarkView {
        self@
    }
}

/// The stylesheet fragments of a token that may look different in dark mode.
pub trait ToStylesheetDarkable {
    /// The light and the dark fragment, as texts.
    spec fn stylesheet(&self) -> StylesheetLightDarkView;

    fn to_stylesheet(&self) -> (res: StylesheetLightDark)
        ensures
            res@ == self.stylesheet(),
    ;
}

/// One custom-property declaration: `<prefix><key>:<value>`.
pub open spec fn declaration(prefix: Seq<char>, key: Seq<char>, value: Seq<char>) -> Seq<char> {
    prefix + key + ":"@ + value
}

/// One declaration per entry, in the order of the entries.
pub open spec fn declarations(prefix: Seq<char>, entries: Entries) -> Seq<Seq<char>> {
    Seq::new(entries.len(), |i: int| declaration(prefix, entries[i].0, entries[i].1))
}

/// The prefix of the custom properties of the palette called `palette_name`.
pub open spec fn palette_prefix(palette_name: Seq<char>) -> Seq<char> {
    "--color-"@ + palette_name + "-"@
}

/// The prefix of the custom properties of standalone colours.
pub open spec fn single_color_prefix() -> Seq<char> {
    "--color-single-"@
}

/// The prefix of the custom properties of spacing steps.
pub open spec fn space_prefix() -> Seq<char> {
    "--space-"@
}

impl ColorPaletteView {
    /// `--color-<palette>-<label>:<colour>` for each shade, one per line.
    pub open spec fn stylesheet(self) -> Seq<char> {
        join_lines(declarations(palette_prefix(self.palette_name), self.shades))
    }
}

impl PrimitivesView {
    /// The fragment of each palette, in order.
    pub open spec fn palette_fragments(self) -> Seq<Seq<char>> {
        Seq::new(self.color_palettes.len(), |i: int| self.color_palettes[i].stylesheet())
    }

    /// The palettes, then the standalone colours, then the spacing steps.
    pub open spec fn stylesheet(self) -> Seq<char> {
        join_lines(self.palette_fragments()) + "\n"@ + join_lines(
            declarations(single_color_prefix(), self.single_colors),
        ) + "\n"@ + join_lines(declarations(space_prefix(), self.space))
    }
}

/// Writes one declaration per entry, each with `prefix` before its key.
fn declaration_lines(prefix: &str, entries: &Vec<(String, String)>) -> (res: Vec<String>)
    ensures
        texts(res@) == declarations(prefix@, entries.deep_view()),
{
    let mut lines: Vec<String> = Vec::new();
    let n: usize = entries.len();
    let mut i: usize = 0;
    while i < n
        invariant
            n == entries.len(),
            i <= n,
            lines.len() == i,
            forall|k: int|
                0 <= k < i ==> (#[trigger] lines@[k])@ == declaration(
                    prefix@,
                    entries.deep_view()[k].0,
                    entries.deep_view()[k].1,
                ),
        decreases n - i,
    {
        let entry = &entries[i];
        let mut line = String::from_str(prefix);
        line.append(entry.0.as_str());
        line.append(":");
        line.append(entry.1.as_str());
        proof {
            assert(entries.deep_view()[i as int] == entries@[i as int].deep_view());
        }
        lines.push(line);
        i = i + 1;
    }
    proof {
        assert(entries.deep_view().len() == entries.len());
        assert(texts(lines@) =~= declarations(prefix@, entries.deep_view()));
    }
    lines
}

impl ToStylesheet for ColorPalette {
    open spec fn stylesheet(&self) -> Seq<char> {
        self@.stylesheet()
    }

    fn to_stylesheet(&self) -> (res: String) {
        let mut prefix = String::from_str("--color-");
        prefix.append(self.palette_name.as_str());
        prefix.append("-");
        let lines = declaration_lines(prefix.as_str(), &self.shades.0);
        join_with_newlines(&lines)
    }
}

impl ToStylesheet for SingleColors {
    open spec fn stylesheet(&self) -> Seq<char> {
        join_lines(declarations(single_color_prefix(), self@))
    }

    fn to_stylesheet(&self) -> (res: String) {
        let lines = declaration_lines("--color-single-", &self.0);
        join_with_newlines(&lines)
    }
}

impl ToStylesheet for SpacePalette {
    open spec fn stylesheet(&self) -> Seq<char> {
        join_lines(declarations(space_prefix(), self@))
    }

    fn to_stylesheet(&self) -> (res: String) {
        let lines = declaration_lines("--space-", &self.0);
        join_with_newlines(&lines)
    }
}

impl ToStylesheet for Primitives {
    open spec fn stylesheet(&self) -> Seq<char> {
        self@.stylesheet()
    }

    fn to_stylesheet(&self) -> (res: String) {
        let mut fragments: Vec<String> = Vec::new();
        let n: usize = self.color_palettes.len();
        let mut i: usize = 0;
        while i < n
            invariant
                n == self.color_palettes.len(),
                i <= n,
                fragments.len() == i,
                forall|k: int|
                    0 <= k < i ==> (#[trigger] fragments@[k])@
                        == self.color_palettes@[k]@.stylesheet(),
            decreases n - i,
        {
            let fragment = self.color_palettes[i].to_stylesheet();
            fragments.push(fragment);
            i = i + 1;
        }
        proof {
            assert(self@.color_palettes.len() == n);
            assert(texts(fragments@) =~= self@.palette_fragments());
        }
        let mut out = join_with_newlines(&fragments);
        let single_colors = self.single_colors.to_stylesheet();
        let spaces = self.space.to_stylesheet();
        out.append("\n");
        out.append(single_colors.as_str());
        out.append("\n");
        out.append(spaces.as_str());
        out
    }
}

/// A rule: a selector and, in braces, its declarations.
pub open spec fn css_rule(selector: Seq<char>, body: Seq<char>) -> Seq<char> {
    selector + "{"@ + body + "}"@
}

/// What stands before and after a class name so that the class applies in an
/// interaction state. Without a state the class stands alone. With one, the
/// class is either the escaped form `\<state>\:<class>` bound to the
/// pseudo-class of the same name, or, with `by_class`, the plain class next
/// to a class named like the state.
pub open spec fn class_state_headers(state: Option<Seq<char>>, by_class: bool) -> (
    Seq<char>,
    Seq<char>,
) {
    match state {
        None => ("."@, Seq::empty()),
        Some(name) => if by_class {
            ("."@ + name + "."@, Seq::empty())
        } else {
            (".\\"@ + name + "\\:"@, ":"@ + name)
        },
    }
}

/// The selector of a utility class of a theme.
pub open spec fn theme_selector(
    class_prefix: Seq<char>,
    utility: Seq<char>,
    theme_name: Seq<char>,
    class_sufix: Seq<char>,
) -> Seq<char> {
    class_prefix + utility + theme_name + class_sufix
}

/// The declarations of the class that sets background and text colour at once.
pub open spec fn theme_declarations(bg: Seq<char>, text: Seq<char>) -> Seq<char> {
    "\n            background:var("@ + bg + ");\n            color:var("@ + text
        + ");\n        "@
}

/// The declaration of the background utility class.
pub open spec fn background_declaration(color: Seq<char>) -> Seq<char> {
    "\n            background: var("@ + color + ");\n        "@
}

/// The declaration of the text-colour utility class.
pub open spec fn text_color_declaration(color: Seq<char>) -> Seq<char> {
    "\n            color: var("@ + color + ");\n        "@
}

/// The rule of the background utility class of a theme.
pub open spec fn background_rule(
    color: Seq<char>,
    class_prefix: Seq<char>,
    theme_name: Seq<char>,
    class_sufix: Seq<char>,
) -> Seq<char> {
    css_rule(
        theme_selector(class_prefix, "bg-theme-"@, theme_name, class_sufix),
        background_declaration(color),
    )
}

/// The rule of the text-colour utility class of a theme.
pub open spec fn text_color_rule(
    color: Seq<char>,
    class_prefix: Seq<char>,
    theme_name: Seq<char>,
    class_sufix: Seq<char>,
) -> Seq<char> {
    css_rule(
        theme_selector(class_prefix, "text-color-theme-"@, theme_name, class_sufix),
        text_color_declaration(color),
    )
}

/// Whether a border reference names a gradient instead of a plain colour.
pub open spec fn is_gradient(token: Seq<char>) -> bool {
    "--gradient"@.is_prefix_of(token)
}

/// The five border variants: all sides at once, then each side.
pub open spec fn border_sides() -> Seq<Seq<char>> {
    seq![Seq::empty(), "-top"@, "-right"@, "-bottom"@, "-left"@]
}

/// The declarations that draw a border on `border_sufix` from a plain colour.
pub open spec fn solid_border_declarations(border_sufix: Seq<char>, token: Seq<char>) -> Seq<
    char,
> {
    "border"@ + border_sufix + ": 1px solid var("@ + token + ");"@
}

/// The declarations that draw a border on `border_sufix` from a gradient.
pub open spec fn gradient_border_declarations(border_sufix: Seq<char>, token: Seq<char>) -> Seq<
    char,
> {
    "border"@ + border_sufix
        + ": 1px solid;\n        border-image-slice: 1;\n        border-width: 1px;\n        border-image-source: var("@
        + token + ");"@
}

/// The selector of the border utility class of a theme on `border_sufix`.
pub open spec fn border_selector(
    border_sufix: Seq<char>,
    class_prefix: Seq<char>,
    class_state: Seq<char>,
    theme_name: Seq<char>,
) -> Seq<char> {
    class_prefix + "border-theme-"@ + theme_name + border_sufix + class_state
}

/// The rule of one border variant.
pub open spec fn border_rule(
    token: Seq<char>,
    gradient: bool,
    border_sufix: Seq<char>,
    class_prefix: Seq<char>,
    class_state: Seq<char>,
    theme_name: Seq<char>,
) -> Seq<char> {
    css_rule(
        border_selector(border_sufix, class_prefix, class_state, theme_name),
        if gradient {
            gradient_border_declarations(border_sufix, token)
        } else {
            solid_border_declarations(border_sufix, token)
        },
    )
}

/// The rules of the five border variants, each from the same reference.
pub open spec fn border_rules(
    token: Seq<char>,
    class_prefix: Seq<char>,
    theme_name: Seq<char>,
    class_sufix: Seq<char>,
) -> Seq<Seq<char>> {
    Seq::new(
        5,
        |i: int|
            border_rule(
                token,
                is_gradient(token),
                border_sides()[i],
                class_prefix,
                class_sufix,
                theme_name,
            ),
    )
}

impl ColorStateView {
    /// The rules of one interaction state of a theme: the class that sets
    /// background and text colour, then the background, text-colour and border
    /// utility classes.
    pub open spec fn stylesheet(
        self,
        theme_name: Seq<char>,
        state: Option<Seq<char>>,
        by_class: bool,
    ) -> Seq<char> {
        let (class_prefix, class_sufix) = class_state_headers(state, by_class);
        css_rule(
            theme_selector(class_prefix, "theme-"@, theme_name, class_sufix),
            theme_declarations(self.bg, self.text),
        ) + "\n        "@ + background_rule(self.bg, class_prefix, theme_name, class_sufix) + "\n"@
            + text_color_rule(self.text, class_prefix, theme_name, class_sufix) + "\n"@
            + join_lines(border_rules(self.border, class_prefix, theme_name, class_sufix))
    }
}

/// The fragments of an optional interaction state: none where the state is
/// absent; else its escaped form and, with `with_class`, its plain-class form.
pub open spec fn optional_state_fragments(
    state: Option<ColorStateView>,
    theme_name: Seq<char>,
    name: Seq<char>,
    with_class: bool,
) -> Seq<Seq<char>> {
    match state {
        None => Seq::empty(),
        Some(colors) => if with_class {
            seq![
                colors.stylesheet(theme_name, Some(name), false),
                colors.stylesheet(theme_name, Some(name), true),
            ]
        } else {
            seq![colors.stylesheet(theme_name, Some(name), false)]
        },
    }
}

impl ColorSetView {
    /// The fragments of the states that the set defines: default, hover,
    /// active (in both selector forms) and focus, in that order.
    pub open spec fn state_fragments(self, theme_name: Seq<char>) -> Seq<Seq<char>> {
        seq![self.default.stylesheet(theme_name, None, false)] + optional_state_fragments(
            self.hover,
            theme_name,
            "hover"@,
            false,
        ) + optional_state_fragments(self.active, theme_name, "active"@, true)
            + optional_state_fragments(self.focus, theme_name, "focus"@, false)
    }

    pub open spec fn stylesheet(self, theme_name: Seq<char>) -> Seq<char> {
        join_lines(self.state_fragments(theme_name))
    }
}

impl ColorThemeView {
    /// The rules of the light set and, where the theme has a dark set, of the
    /// dark set; else the dark fragment is empty.
    pub open spec fn stylesheet(self) -> StylesheetLightDarkView {
        StylesheetLightDarkView {
            light: self.light.stylesheet(self.theme_name),
            dark: match self.dark {
                Some(colors) => colors.stylesheet(self.theme_name),
                None => Seq::empty(),
            },
        }
    }
}

/// Writes a rule from its selector and its declarations.
fn write_rule(selector: &str, body: &str) -> (res: String)
    ensures
        res@ == css_rule(selector@, body@),
{
    let mut out = String::from_str(selector);
    out.append("{");
    out.append(body);
    out.append("}");
    out
}

/// Writes the selector of a utility class of a theme.
fn write_theme_selector(class_prefix: &str, utility: &str, theme_name: &str, class_sufix: &str) -> (res:
    String)
    ensures
        res@ == theme_selector(class_prefix@, utility@, theme_name@, class_sufix@),
{
    let mut out = String::from_str(class_prefix);
    out.append(utility);
    out.append(theme_name);
    out.append(class_sufix);
    out
}

/// The selector parts for an interaction state: see [`class_state_headers`].
pub fn get_class_state_headers(color_state: Option<&str>, by_class: bool) -> (res: (String, String))
    ensures
        (res.0@, res.1@) == class_state_headers(
            match color_state {
                Some(name) => Some(name@),
                None => None,
            },
            by_class,
        ),
{
    match color_state {
        Some(state) => {
            if by_class {
                let mut prefix = String::from_str(".");
                prefix.append(state);
                prefix.append(".");
                (prefix, String::new())
            } else {
                let mut prefix = String::from_str(".\\");
                prefix.append(state);
                prefix.append("\\:");
                let mut sufix = String::from_str(":");
                sufix.append(state);
                (prefix, sufix)
            }
        },
        None => (String::from_str("."), String::new()),
    }
}

impl BackgroundColorToken {
    /// The rule of the background utility class of the theme `theme_name`.
    pub fn to_stylesheet(&self, class_prefix: &str, theme_name: &str, class_sufix: &str) -> (res:
        String)
        ensures
            res@ == background_rule(self@, class_prefix@, theme_name@, class_sufix@),
    {
        let selector = write_theme_selector(class_prefix, "bg-theme-", theme_name, class_sufix);
        let mut body = String::from_str("\n            background: var(");
        body.append(self.0.as_str());
        body.append(");\n        ");
        write_rule(selector.as_str(), body.as_str())
    }
}

impl TextColorToken {
    /// The rule of the text-colour utility class of the theme `theme_name`.
    pub fn to_stylesheet(&self, class_prefix: &str, theme_name: &str, class_sufix: &str) -> (res:
        String)
        ensures
            res@ == text_color_rule(self@, class_prefix@, theme_name@, class_sufix@),
    {
        let selector = write_theme_selector(
            class_prefix,
            "text-color-theme-",
            theme_name,
            class_sufix,
        );
        let mut body = String::from_str("\n            color: var(");
        body.append(self.0.as_str());
        body.append(");\n        ");
        write_rule(selector.as_str(), body.as_str())
    }
}

impl BorderColorToken {
    /// The rules of the five border utility classes of the theme
    /// `theme_name`, one per line: gradient rules where the reference names a
    /// gradient, else plain ones.
    pub fn to_stylesheet(&self, class_prefix: &str, theme_name: &str, class_sufix: &str) -> (res:
        String)
        ensures
            res@ == join_lines(border_rules(self@, class_prefix@, theme_name@, class_sufix@)),
    {
        let gradient = starts_with(self.0.as_str(), "--gradient");
        let mut rules: Vec<String> = Vec::new();
        rules.push(self.get_class_boilerplate(gradient, "", class_prefix, class_sufix, theme_name));
        rules.push(
            self.get_class_boilerplate(gradient, "-top", class_prefix, class_sufix, theme_name),
        );
        rules.push(
            self.get_class_boilerplate(gradient, "-right", class_prefix, class_sufix, theme_name),
        );
        rules.push(
            self.get_class_boilerplate(gradient, "-bottom", class_prefix, class_sufix, theme_name),
        );
        rules.push(
            self.get_class_boilerplate(gradient, "-left", class_prefix, class_sufix, theme_name),
        );
        proof {
            assert(""@ =~= Seq::<char>::empty()) by {
                reveal_strlit("");
            }
            assert(texts(rules@) =~= border_rules(
                self@,
                class_prefix@,
                theme_name@,
                class_sufix@,
            ));
        }
        join_with_newlines(&rules)
    }

    /// The rule of one border variant, for the side named by `border_sufix`.
    pub fn get_class_boilerplate(
        &self,
        is_gradient: bool,
        border_sufix: &str,
        class_prefix: &str,
        class_state: &str,
        theme_name: &str,
    ) -> (res: String)
        ensures
            res@ == border_rule(
                self@,
                is_gradient,
                border_sufix@,
                class_prefix@,
                class_state@,
                theme_name@,
            ),
    {
        let mut class = String::from_str(class_prefix);
        class.append("border-theme-");
        class.append(theme_name);
        class.append(border_sufix);
        class.append(class_state);
        let mut body = String::from_str("border");
        body.append(border_sufix);
        if is_gradient {
            body.append(
                ": 1px solid;\n        border-image-slice: 1;\n        border-width: 1px;\n        border-image-source: var(",
            );
        } else {
            body.append(": 1px solid var(");
        }
        body.append(self.0.as_str());
        body.append(");");
        write_rule(class.as_str(), body.as_str())
    }
}

impl ColorState {
    /// The rules of this interaction state of the theme `theme_name`.
    pub fn to_stylesheet(&self, theme_name: &str, state: Option<&str>, by_class: bool) -> (res:
        String)
        ensures
            res@ == self@.stylesheet(
                theme_name@,
                match state {
                    Some(name) => Some(name@),
                    None => None,
                },
                by_class,
            ),
    {
        let (class_prefix, class_sufix) = get_class_state_headers(state, by_class);
        let selector = write_theme_selector(
            class_prefix.as_str(),
            "theme-",
            theme_name,
            class_sufix.as_str(),
        );
        let mut body = String::from_str("\n            background:var(");
        body.append(self.bg.0.as_str());
        body.append(");\n            color:var(");
        body.append(self.text.0.as_str());
        body.append(");\n        ");
        let mut out = write_rule(selector.as_str(), body.as_str());
        let bg_stylesheet = self.bg.to_stylesheet(
            class_prefix.as_str(),
            theme_name,
            class_sufix.as_str(),
        );
        let text_color_stylesheet = self.text.to_stylesheet(
            class_prefix.as_str(),
            theme_name,
            class_sufix.as_str(),
        );
        let border_stylesheet = self.border.to_stylesheet(
            class_prefix.as_str(),
            theme_name,
            class_sufix.as_str(),
        );
        out.append("\n        ");
        out.append(bg_stylesheet.as_str());
        out.append("\n");
        out.append(text_color_stylesheet.as_str());
        out.append("\n");
        out.append(border_stylesheet.as_str());
        out
    }
}

/// Appends the fragments of an optional interaction state to `fragments`.
fn push_state_fragments(
    fragments: &mut Vec<String>,
    state: &Option<ColorState>,
    theme_name: &str,
    name: &str,
    with_class: bool,
)
    ensures
        texts(final(fragments)@) == texts(old(fragments)@) + optional_state_fragments(
            state.deep_view(),
            theme_name@,
            name@,
            with_class,
        ),
{
    match state {
        Some(colors) => {
            let escaped = colors.to_stylesheet(theme_name, Some(name), false);
            fragments.push(escaped);
            if with_class {
                let plain = colors.to_stylesheet(theme_name, Some(name), true);
                fragments.push(plain);
            }
        },
        None => {},
    }
    proof {
        assert(texts(fragments@) =~= texts(old(fragments)@) + optional_state_fragments(
            state.deep_view(),
            theme_name@,
            name@,
            with_class,
        ));
    }
}

impl ColorSet {
    /// The rules of every state that the set defines, for the theme `theme_name`.
    pub fn to_stylesheet(&self, theme_name: &str) -> (res: String)
        ensures
            res@ == self@.stylesheet(theme_name@),
    {
        let mut fragments: Vec<String> = Vec::new();
        let default_stylesheet = self.default.to_stylesheet(theme_name, None, false);
        fragments.push(default_stylesheet);
        proof {
            assert(texts(fragments@) =~= seq![self@.default.stylesheet(theme_name@, None, false)]);
        }
        push_state_fragments(&mut fragments, &self.hover, theme_name, "hover", false);
        push_state_fragments(&mut fragments, &self.active, theme_name, "active", true);
        push_state_fragments(&mut fragments, &self.focus, theme_name, "focus", false);
        join_with_newlines(&fragments)
    }
}

impl ToStylesheetDarkable for ColorTheme {
    open spec fn stylesheet(&self) -> StylesheetLightDarkView {
        self@.stylesheet()
    }

    fn to_stylesheet(&self) -> (res: StylesheetLightDark) {
        let light_stylesheet = self.light.to_stylesheet(self.theme_name.as_str());
        let dark_stylesheet = match &self.dark {
            Some(color_set) => color_set.to_stylesheet(self.theme_name.as_str()),
            None => String::new(),
        };
        StylesheetLightDark { light: light_stylesheet, dark: dark_stylesheet }
    }
}

/// A rule with one declaration: `<selector>{<property>:<value>;}`.
pub open spec fn single_declaration_rule(
    selector: Seq<char>,
    property: Seq<char>,
    value: Seq<char>,
) -> Seq<char> {
    css_rule(selector, property + ":"@ + value + ";"@)
}

/// Writes a rule with one declaration.
fn write_single_declaration_rule(selector: &str, property: &str, value: &str) -> (res: String)
    ensures
        res@ == single_declaration_rule(selector@, property@, value@),
{
    let mut body = String::from_str(property);
    body.append(":");
    body.append(value);
    body.append(";");
    write_rule(selector, body.as_str())
}

impl BaseColorTokensView {
    /// One custom property per base colour role.
    pub open spec fn stylesheet(self) -> Seq<char> {
        "--bg-main:"@ + self.bg_main + ";\n            --text-color-main:"@ + self.text_color_main
            + ";\n            --text-color-main-dark:"@ + self.text_color_main_dark
            + ";\n            --text-color-main-light:"@ + self.text_color_main_light
            + ";\n            --border-main:"@ + self.border_main
            + ";\n            --bg-main-disabled:"@ + self.bg_main_disabled
            + ";\n            --border-main-disabled:"@ + self.border_main_disabled
            + ";\n            --text-color-main-disabled:"@ + self.text_color_main_disabled + ";"@
    }
}

impl ToStylesheet for BaseColorTokens {
    open spec fn stylesheet(&self) -> Seq<char> {
        self@.stylesheet()
    }

    fn to_stylesheet(&self) -> (res: String) {
        let mut out = String::from_str("--bg-main:");
        out.append(self.bg_main.as_str());
        out.append(";\n            --text-color-main:");
        out.append(self.text_color_main.as_str());
        out.append(";\n            --text-color-main-dark:");
        out.append(self.text_color_main_dark.as_str());
        out.append(";\n            --text-color-main-light:");
        out.append(self.text_color_main_light.as_str());
        out.append(";\n            --border-main:");
        out.append(self.border_main.as_str());
        out.append(";\n            --bg-main-disabled:");
        out.append(self.bg_main_disabled.as_str());
        out.append(";\n            --border-main-disabled:");
        out.append(self.border_main_disabled.as_str());
        out.append(";\n            --text-color-main-disabled:");
        out.append(self.text_color_main_disabled.as_str());
        out.append(";");
        out
    }
}

impl TextThemeView {
    /// The declarations of one text scale: size, weight and line height.
    pub open spec fn stylesheet(self) -> Seq<char> {
        "font-size:"@ + self.font_size + ";font-weight:"@ + decimal_text(self.font_weight)
            + ";line-height:"@ + self.line_height + ";"@
    }
}

impl ToStylesheet for TextTheme {
    open spec fn stylesheet(&self) -> Seq<char> {
        self@.stylesheet()
    }

    fn to_stylesheet(&self) -> (res: String) {
        let weight = decimal_string(self.font_weight as u64);
        let mut out = String::from_str("font-size:");
        out.append(self.font_size.as_str());
        out.append(";font-weight:");
        out.append(weight.as_str());
        out.append(";line-height:");
        out.append(self.line_height.as_str());
        out.append(";");
        out
    }
}

impl TextTokensView {
    /// The font classes, the font-size classes and the class of each text
    /// scale, one rule each.
    pub open spec fn rules(self) -> Seq<Seq<char>> {
        Seq::empty().push(
            single_declaration_rule(".font-default"@, "font-family"@, self.font),
        ).push(
            single_declaration_rule(".font-light"@, "font-weight"@, decimal_text(self.light_weight)),
        ).push(
            single_declaration_rule(
                ".font-normal"@,
                "font-weight"@,
                decimal_text(self.default_weight),
            ),
        ).push(
            single_declaration_rule(".font-bold"@, "font-weight"@, decimal_text(self.bold_weight)),
        ).push(single_declaration_rule(".text-sm"@, "font-size"@, self.font_size_sm)).push(
            single_declaration_rule(".text-md"@, "font-size"@, self.font_size_md),
        ).push(single_declaration_rule(".text-lg"@, "font-size"@, self.font_size_lg)).push(
            css_rule(".text-p"@, self.p.stylesheet()),
        ).push(css_rule(".text-h1"@, self.h1.stylesheet())).push(
            css_rule(".text-h2"@, self.h2.stylesheet()),
        ).push(css_rule(".text-h3"@, self.h3.stylesheet()))
    }

    pub open spec fn stylesheet(self) -> Seq<char> {
        join_lines(self.rules())
    }
}

impl ToStylesheet for TextTokens {
    open spec fn stylesheet(&self) -> Seq<char> {
        self@.stylesheet()
    }

    fn to_stylesheet(&self) -> (res: String) {
        let light_weight = decimal_string(self.light_weight as u64);
        let default_weight = decimal_string(self.default_weight as u64);
        let bold_weight = decimal_string(self.bold_weight as u64);
        let p = self.p.to_stylesheet();
        let h1 = self.h1.to_stylesheet();
        let h2 = self.h2.to_stylesheet();
        let h3 = self.h3.to_stylesheet();
        let mut rules: Vec<String> = Vec::new();
        proof {
            assert(texts(rules@) =~= Seq::empty());
        }
        push_text(
            &mut rules,
            write_single_declaration_rule(".font-default", "font-family", self.font.as_str()),
        );
        push_text(
            &mut rules,
            write_single_declaration_rule(".font-light", "font-weight", light_weight.as_str()),
        );
        push_text(
            &mut rules,
            write_single_declaration_rule(".font-normal", "font-weight", default_weight.as_str()),
        );
        push_text(
            &mut rules,
            write_single_declaration_rule(".font-bold", "font-weight", bold_weight.as_str()),
        );
        push_text(
            &mut rules,
            write_single_declaration_rule(".text-sm", "font-size", self.font_size_sm.as_str()),
        );
        push_text(
            &mut rules,
            write_single_declaration_rule(".text-md", "font-size", self.font_size_md.as_str()),
        );
        push_text(
            &mut rules,
            write_single_declaration_rule(".text-lg", "font-size", self.font_size_lg.as_str()),
        );
        push_text(&mut rules, write_rule(".text-p", p.as_str()));
        push_text(&mut rules, write_rule(".text-h1", h1.as_str()));
        push_text(&mut rules, write_rule(".text-h2", h2.as_str()));
        push_text(&mut rules, write_rule(".text-h3", h3.as_str()));
        join_with_newlines(&rules)
    }
}

impl RadiusTokensView {
    /// The class of the default radius, then the class of the large one.
    pub open spec fn stylesheet(self) -> Seq<char> {
        single_declaration_rule(".rounded"@, "border-radius"@, self.default) + "\n"@
            + single_declaration_rule(".rounded-lg"@, "border-radius"@, self.large)
    }
}

impl ToStylesheet for RadiusTokens {
    open spec fn stylesheet(&self) -> Seq<char> {
        self@.stylesheet()
    }

    fn to_stylesheet(&self) -> (res: String) {
        let large = write_single_declaration_rule(
            ".rounded-lg",
            "border-radius",
            self.large.as_str(),
        );
        let mut out = write_single_declaration_rule(
            ".rounded",
            "border-radius",
            self.default.as_str(),
        );
        out.append("\n");
        out.append(large.as_str());
        out
    }
}

impl SpaceTokensView {
    /// The custom properties of the default page and element paddings.
    pub open spec fn stylesheet(self) -> Seq<char> {
        "--page-padding:"@ + self.default_page_padding + ";\n--element-padding:"@
            + self.default_element_padding + ";"@
    }
}

impl ToStylesheet for SpaceTokens {
    open spec fn stylesheet(&self) -> Seq<char> {
        self@.stylesheet()
    }

    fn to_stylesheet(&self) -> (res: String) {
        let mut out = String::from_str("--page-padding:");
        out.append(self.default_page_padding.as_str());
        out.append(";\n--element-padding:");
        out.append(self.default_element_padding.as_str());
        out.append(";");
        out
    }
}

/// The property that an effect of the given kind sets.
pub open spec fn effect_property(effect_type: EffectType) -> Seq<char> {
    match effect_type {
        EffectType::Shadow => "box-shadow"@,
    }
}

impl EffectView {
    /// The rule of the class named like the effect, with a given value.
    pub open spec fn rule(self, value: Seq<char>) -> Seq<char> {
        single_declaration_rule("."@ + self.effect_name, effect_property(self.effect_type), value)
    }

    /// The rule with the light value and, where the effect has a dark value,
    /// the rule with the dark value; else the dark fragment is empty.
    pub open spec fn stylesheet(self) -> StylesheetLightDarkView {
        StylesheetLightDarkView {
            light: self.rule(self.light),
            dark: match self.dark {
                Some(value) => self.rule(value),
                None => Seq::empty(),
            },
        }
    }
}

impl Effect {
    fn write_effect_rule(&self, value: &str) -> (res: String)
        ensures
            res@ == self@.rule(value@),
    {
        let mut selector = String::from_str(".");
        selector.append(self.effect_name.as_str());
        let property = match self.effect_type {
            EffectType::Shadow => "box-shadow",
        };
        write_single_declaration_rule(selector.as_str(), property, value)
    }
}

impl ToStylesheetDarkable for Effect {
    open spec fn stylesheet(&self) -> StylesheetLightDarkView {
        self@.stylesheet()
    }

    fn to_stylesheet(&self) -> (res: StylesheetLightDark) {
        let light = self.write_effect_rule(self.light.as_str());
        let dark = match &self.dark {
            Some(value) => self.write_effect_rule(value.as_str()),
            None => String::new(),
        };
        StylesheetLightDark { light, dark }
    }
}

/// The light fragments of a sequence of pairs, in order.
pub open spec fn lights(pairs: Seq<StylesheetLightDarkView>) -> Seq<Seq<char>> {
    Seq::new(pairs.len(), |i: int| pairs[i].light)
}

/// The dark fragments of a sequence of pairs, in order.
pub open spec fn darks(pairs: Seq<StylesheetLightDarkView>) -> Seq<Seq<char>> {
    Seq::new(pairs.len(), |i: int| pairs[i].dark)
}

impl StylesheetLightDarkView {
    /// The pair whose fragments are those of `self`, a line feed and those of
    /// `other`, side by side.
    pub open spec fn combine(self, other: StylesheetLightDarkView) -> StylesheetLightDarkView {
        StylesheetLightDarkView {
            light: self.light + "\n"@ + other.light,
            dark: self.dark + "\n"@ + other.dark,
        }
    }

    /// The pairs combined in their order: the light fragments joined by line
    /// feeds, and the dark fragments joined by line feeds.
    pub open spec fn combine_all(pairs: Seq<StylesheetLightDarkView>) -> StylesheetLightDarkView {
        StylesheetLightDarkView { light: join_lines(lights(pairs)), dark: join_lines(darks(pairs)) }
    }
}

impl StylesheetLightDark {
    /// Combines two pairs, `self` first.
    pub fn combine(self, other: StylesheetLightDark) -> (res: StylesheetLightDark)
        ensures
            res@ == self@.combine(other@),
    {
        let mut light = self.light;
        light.append("\n");
        light.append(other.light.as_str());
        let mut dark = self.dark;
        dark.append("\n");
        dark.append(other.dark.as_str());
        StylesheetLightDark { light, dark }
    }

    /// Combines any number of pairs without changing their order.
    pub fn combine_all(pairs: &Vec<StylesheetLightDark>) -> (res: StylesheetLightDark)
        ensures
            res@ == StylesheetLightDarkView::combine_all(pairs.deep_view()),
    {
        let ghost views = pairs.deep_view();
        let mut light_parts: Vec<String> = Vec::new();
        let mut dark_parts: Vec<String> = Vec::new();
        let n: usize = pairs.len();
        let mut i: usize = 0;
        while i < n
            invariant
                n == pairs.len(),
                i <= n,
                views == pairs.deep_view(),
                light_parts.len() == i,
                dark_parts.len() == i,
                forall|k: int| 0 <= k < i ==> (#[trigger] light_parts@[k])@ == views[k].light,
                forall|k: int| 0 <= k < i ==> (#[trigger] dark_parts@[k])@ == views[k].dark,
            decreases n - i,
        {
            light_parts.push(pairs[i].light.clone());
            dark_parts.push(pairs[i].dark.clone());
            i = i + 1;
        }
        proof {
            assert(texts(light_parts@) =~= lights(views));
            assert(texts(dark_parts@) =~= darks(views));
        }
        StylesheetLightDark {
            light: join_with_newlines(&light_parts),
            dark: join_with_newlines(&dark_parts),
        }
    }
}

impl TokensView {
    /// The pair of the base colours: the light ones and, where there are dark
    /// ones, the dark ones.
    pub open spec fn base_stylesheet(self) -> StylesheetLightDarkView {
        StylesheetLightDarkView {
            light: self.light_default_single_tokens.stylesheet(),
            dark: match self.dark_default_single_tokens {
                Some(base) => base.stylesheet(),
                None => Seq::empty(),
            },
        }
    }

    /// The pairs of the themes, combined in order.
    pub open spec fn themes_stylesheet(self) -> StylesheetLightDarkView {
        StylesheetLightDarkView::combine_all(
            Seq::new(self.colors_themes.len(), |i: int| self.colors_themes[i].stylesheet()),
        )
    }

    /// The pairs of the effects, combined in order.
    pub open spec fn effects_stylesheet(self) -> StylesheetLightDarkView {
        StylesheetLightDarkView::combine_all(
            Seq::new(self.effects.len(), |i: int| self.effects[i].stylesheet()),
        )
    }

    /// The sections in their fixed order. The light fragment holds base
    /// colours, themes, typography, radii, paddings and effects; the dark
    /// fragment holds what has a dark variant: base colours, themes, effects.
    pub open spec fn stylesheet(self) -> StylesheetLightDarkView {
        StylesheetLightDarkView {
            light: join_lines(
                Seq::empty().push(self.base_stylesheet().light).push(
                    self.themes_stylesheet().light,
                ).push(self.text_tokens.stylesheet()).push(self.radius_tokens.stylesheet()).push(
                    self.space_tokens.stylesheet(),
                ).push(self.effects_stylesheet().light),
            ),
            dark: join_lines(
                Seq::empty().push(self.base_stylesheet().dark).push(
                    self.themes_stylesheet().dark,
                ).push(self.effects_stylesheet().dark),
            ),
        }
    }
}

impl Tokens {
    fn themes_to_stylesheet(&self) -> (res: StylesheetLightDark)
        ensures
            res@ == self@.themes_stylesheet(),
    {
        let mut pairs: Vec<StylesheetLightDark> = Vec::new();
        let n: usize = self.colors_themes.len();
        let mut i: usize = 0;
        while i < n
            invariant
                n == self.colors_themes.len(),
                i <= n,
                pairs.len() == i,
                forall|k: int|
                    0 <= k < i ==> (#[trigger] pairs@[k])@ == self.colors_themes@[k]@.stylesheet(),
            decreases n - i,
        {
            let pair = self.colors_themes[i].to_stylesheet();
            pairs.push(pair);
            i = i + 1;
        }
        proof {
            assert(pairs.deep_view() =~= Seq::new(
                self@.colors_themes.len(),
                |i: int| self@.colors_themes[i].stylesheet(),
            ));
        }
        StylesheetLightDark::combine_all(&pairs)
    }

    fn effects_to_stylesheet(&self) -> (res: StylesheetLightDark)
        ensures
            res@ == self@.effects_stylesheet(),
    {
        let mut pairs: Vec<StylesheetLightDark> = Vec::new();
        let n: usize = self.effects.len();
        let mut i: usize = 0;
        while i < n
            invariant
                n == self.effects.len(),
                i <= n,
                pairs.len() == i,
                forall|k: int|
                    0 <= k < i ==> (#[trigger] pairs@[k])@ == self.effects@[k]@.stylesheet(),
            decreases n - i,
        {
            let pair = self.effects[i].to_stylesheet();
            pairs.push(pair);
            i = i + 1;
        }
        proof {
            assert(pairs.deep_view() =~= Seq::new(
                self@.effects.len(),
                |i: int| self@.effects[i].stylesheet(),
            ));
        }
        StylesheetLightDark::combine_all(&pairs)
    }
}

impl ToStylesheetDarkable for Tokens {
    open spec fn stylesheet(&self) -> StylesheetLightDarkView {
        self@.stylesheet()
    }

    fn to_stylesheet(&self) -> (res: StylesheetLightDark) {
        let base_light = self.light_default_single_tokens.to_stylesheet();
        let base_dark = match &self.dark_default_single_tokens {
            Some(base) => base.to_stylesheet(),
            None => String::new(),
        };
        let themes = self.themes_to_stylesheet();
        let effects = self.effects_to_stylesheet();
        let mut light_parts: Vec<String> = Vec::new();
        proof {
            assert(texts(light_parts@) =~= Seq::empty());
        }
        push_text(&mut light_parts, base_light);
        push_text(&mut light_parts, themes.light);
        push_text(&mut light_parts, self.text_tokens.to_stylesheet());
        push_text(&mut light_parts, self.radius_tokens.to_stylesheet());
        push_text(&mut light_parts, self.space_tokens.to_stylesheet());
        push_text(&mut light_parts, effects.light);
        let mut dark_parts: Vec<String> = Vec::new();
        proof {
            assert(texts(dark_parts@) =~= Seq::empty());
        }
        push_text(&mut dark_parts, base_dark);
        push_text(&mut dark_parts, themes.dark);
        push_text(&mut dark_parts, effects.dark);
        StylesheetLightDark {
            light: join_with_newlines(&light_parts),
            dark: join_with_newlines(&dark_parts),
        }
    }
}

/// The scope that always applies, around the light rules.
pub open spec fn light_scope(rules: Seq<char>) -> Seq<char> {
    ":root{\n"@ + rules + "\n}"@
}

/// What opens the scope that applies only where dark colours are preferred.
pub open spec fn dark_scope_opening() -> Seq<char> {
    "@media (prefers-color-scheme: dark){\n:root{\n"@
}

/// The scope that applies only where dark colours are preferred, around the
/// dark rules.
pub open spec fn dark_scope(rules: Seq<char>) -> Seq<char> {
    dark_scope_opening() + rules + "\n}\n}"@
}

/// The two streams joined into the final text: the light scope, then the one
/// dark scope.
pub open spec fn join_streams(streams: StylesheetLightDarkView) -> Seq<char> {
    light_scope(streams.light) + "\n"@ + dark_scope(streams.dark)
}

impl DesignSystemView {
    /// Everything that goes into the light scope: the primitives, then the
    /// light fragment of the tokens.
    pub open spec fn light_stream(self) -> Seq<char> {
        self.primitives.stylesheet() + "\n"@ + self.tokens.stylesheet().light
    }

    /// Everything that goes into the dark scope: the dark fragment of the
    /// tokens where dark mode is enabled, else nothing.
    pub open spec fn dark_stream(self) -> Seq<char> {
        if self.dark_mode {
            self.tokens.stylesheet().dark
        } else {
            Seq::empty()
        }
    }

    /// The two streams, before they are joined.
    pub open spec fn streams(self) -> StylesheetLightDarkView {
        StylesheetLightDarkView { light: self.light_stream(), dark: self.dark_stream() }
    }

    /// The whole stylesheet.
    pub open spec fn stylesheet(self) -> Seq<char> {
        join_streams(self.streams())
    }
}

impl StylesheetLightDark {
    /// Joins the two streams into the final text. This is the one place
    /// where a dark scope is written.
    pub fn join(&self) -> (res: String)
        ensures
            res@ == join_streams(self@),
    {
        let mut light_scope = String::from_str(":root{\n");
        light_scope.append(self.light.as_str());
        light_scope.append("\n}");
        let mut dark_scope = String::from_str("@media (prefers-color-scheme: dark){\n:root{\n");
        dark_scope.append(self.dark.as_str());
        dark_scope.append("\n}\n}");
        let mut out = light_scope;
        out.append("\n");
        out.append(dark_scope.as_str());
        out
    }
}

impl DesignSystem {
    /// The light and the dark stream of the whole design system.
    pub fn to_streams(&self) -> (res: StylesheetLightDark)
        ensures
            res@ == self@.streams(),
    {
        let tokens = self.tokens.to_stylesheet();
        let mut light = self.primitives.to_stylesheet();
        light.append("\n");
        light.append(tokens.light.as_str());
        let dark = if self.dark_mode {
            tokens.dark
        } else {
            String::new()
        };
        StylesheetLightDark { light, dark }
    }
}

impl ToStylesheet for DesignSystem {
    open spec fn stylesheet(&self) -> Seq<char> {
        self@.stylesheet()
    }

    fn to_stylesheet(&self) -> (res: String) {
        self.to_streams().join()
    }
}

} // verus!
