use vstd::prelude::*;
use vstd::string::*;
use crate::compiler_service::{
    all_distinct, find_repeat, first_repeat, keys, push_reference, CompileError, CompileErrorView,
    ReferenceError, ValidationError, ValidationErrorView,
};
use crate::design_system_domain::{
    Base, BaseView, ColorDarkable, ColorDarkableView, DesignSystem, DesignSystemView, Effect,
    EffectView, Palette, Space, ThemeColor, ThemeColorSet, ThemeColorSetView, ThemeColorView,
};
use crate::reference_resolver::{custom_property, resolve_reference, to_space_palette};
use crate::text::{join_lines, join_with_newlines, push_text, texts};
use crate::workspace_domain::design_system_domain::{
    ColorPalette, Entries, Primitives, PrimitivesView, SingleColors,
};
use crate::workspace_domain::design_system_to_stylesheet_domain::{
    join_streams, StylesheetLightDark, StylesheetLightDarkView, ToStylesheet,
};

verus! {

/// The first of two paths that may be absent.
pub open spec fn first_of(a: Option<Seq<char>>, b: Option<Seq<char>>) -> Option<Seq<char>> {
    match a {
        Some(path) => Some(path),
        None => b,
    }
}

/// The path of a token, if the token has no light reference.
pub open spec fn token_missing(token: ColorDarkableView, path: Seq<char>) -> Option<Seq<char>> {
    if token.default is None {
        Some(path)
    } else {
        None
    }
}

/// The references of a token, each with its path and as the custom property
/// that it names: the light one, then the dark one.
pub open spec fn token_references(token: ColorDarkableView, path: Seq<char>) -> Entries {
    (match token.default {
        Some(reference) => seq![(path + ".default"@, custom_property(reference))],
        None => Seq::empty(),
    }) + (match token.dark {
        Some(reference) => seq![(path + ".dark"@, custom_property(reference))],
        None => Seq::empty(),
    })
}

impl ThemeColorSetView {
    /// The path of the first token without a light reference: background,
    /// border, text.
    pub open spec fn missing(self, path: Seq<char>) -> Option<Seq<char>> {
        first_of(
            token_missing(self.background, path + ".background"@),
            first_of(
                token_missing(self.border, path + ".border"@),
                token_missing(self.text, path + ".text"@),
            ),
        )
    }

    /// The references of the three tokens.
    pub open spec fn references(self, path: Seq<char>) -> Entries {
        token_references(self.background, path + ".background"@) + token_references(
            self.border,
            path + ".border"@,
        ) + token_references(self.text, path + ".text"@)
    }
}

/// The first token without a light reference in a state that may be absent.
pub open spec fn optional_missing(state: Option<ThemeColorSetView>, path: Seq<char>) -> Option<
    Seq<char>,
> {
    match state {
        Some(colors) => colors.missing(path),
        None => None,
    }
}

/// The references of a state that may be absent.
pub open spec fn optional_references(state: Option<ThemeColorSetView>, path: Seq<char>) -> Entries {
    match state {
        Some(colors) => colors.references(path),
        None => Seq::empty(),
    }
}

impl ThemeColorView {
    /// The path of the first token without a light reference: the states in
    /// the order default, hover, active, focus.
    pub open spec fn missing(self) -> Option<Seq<char>> {
        first_of(
            self.default.missing(self.theme_name + ".default"@),
            first_of(
                optional_missing(self.hover, self.theme_name + ".hover"@),
                first_of(
                    optional_missing(self.active, self.theme_name + ".active"@),
                    optional_missing(self.focus, self.theme_name + ".focus"@),
                ),
            ),
        )
    }

    /// The references of every state that the theme defines.
    pub open spec fn references(self) -> Entries {
        self.default.references(self.theme_name + ".default"@) + optional_references(
            self.hover,
            self.theme_name + ".hover"@,
        ) + optional_references(self.active, self.theme_name + ".active"@) + optional_references(
            self.focus,
            self.theme_name + ".focus"@,
        )
    }
}

impl BaseView {
    /// The path of the first role without a light reference.
    pub open spec fn missing(self) -> Option<Seq<char>> {
        first_of(
            token_missing(self.background, "base.background"@),
            first_of(
                token_missing(self.border, "base.border"@),
                first_of(
                    token_missing(self.text_light, "base.text_light"@),
                    first_of(
                        token_missing(self.text_default, "base.text_default"@),
                        first_of(
                            token_missing(self.text_dark, "base.text_dark"@),
                            first_of(
                                token_missing(
                                    self.background_disabled,
                                    "base.background_disabled"@,
                                ),
                                first_of(
                                    token_missing(self.text_disabled, "base.text_disabled"@),
                                    token_missing(self.border_disabled, "base.border_disabled"@),
                                ),
                            ),
                        ),
                    ),
                ),
            ),
        )
    }

    /// The references of the eight roles.
    pub open spec fn references(self) -> Entries {
        token_references(self.background, "base.background"@) + token_references(
            self.border,
            "base.border"@,
        ) + token_references(self.text_light, "base.text_light"@) + token_references(
            self.text_default,
            "base.text_default"@,
        ) + token_references(self.text_dark, "base.text_dark"@) + token_references(
            self.background_disabled,
            "base.background_disabled"@,
        ) + token_references(self.text_disabled, "base.text_disabled"@) + token_references(
            self.border_disabled,
            "base.border_disabled"@,
        )
    }
}

/// The path of the first token of the first theme that lacks a light reference.
pub open spec fn themes_missing(themes: Seq<ThemeColorView>) -> Option<Seq<char>>
    decreases themes.len(),
{
    if themes.len() == 0 {
        None
    } else {
        first_of(themes_missing(themes.drop_last()), themes.last().missing())
    }
}

/// The references of all themes, in order.
pub open spec fn themes_references(themes: Seq<ThemeColorView>) -> Entries
    decreases themes.len(),
{
    if themes.len() == 0 {
        Seq::empty()
    } else {
        themes_references(themes.drop_last()) + themes.last().references()
    }
}

/// The reference of the background of an effect, if it has one.
pub open spec fn effect_references(effect: EffectView) -> Entries {
    match effect.bg {
        Some(reference) => seq![(effect.effect_name + ".bg"@, custom_property(reference))],
        None => Seq::empty(),
    }
}

/// The references of all effects, in order.
pub open spec fn effects_references(effects: Seq<EffectView>) -> Entries
    decreases effects.len(),
{
    if effects.len() == 0 {
        Seq::empty()
    } else {
        effects_references(effects.drop_last()) + effect_references(effects.last())
    }
}

/// Every theme is complete where none lacks a light reference, and the
/// other way round.
pub proof fn lemma_themes_missing_nothing(themes: Seq<ThemeColorView>)
    ensures
        themes_missing(themes) is None <==> forall|t: int|
            0 <= t < themes.len() ==> (#[trigger] themes[t]).complete(),
    decreases themes.len(),
{
    if themes.len() > 0 {
        let front = themes.drop_last();
        lemma_themes_missing_nothing(front);
        assert(themes.last().missing() is None <==> themes.last().complete());
        if themes_missing(themes) is None {
            assert forall|t: int| 0 <= t < themes.len() implies (#[trigger] themes[t]).complete() by {
                if t < front.len() {
                    assert(front[t] == themes[t]);
                }
            }
        } else if themes_missing(front) is Some {
            let t = choose|t: int| 0 <= t < front.len() && !(#[trigger] front[t]).complete();
            assert(front[t] == themes[t]);
        }
    }
}

impl DesignSystemView {
    /// The names of the palettes, in order.
    pub open spec fn palette_names(self) -> Seq<Seq<char>> {
        Seq::new(self.palettes.len(), |i: int| self.palettes[i].palette_name)
    }

    /// The names of the themes, in order.
    pub open spec fn theme_names(self) -> Seq<Seq<char>> {
        Seq::new(self.themes.len(), |i: int| self.themes[i].theme_name)
    }

    /// Whether no shade label stands twice in any of the first `n` palettes.
    pub open spec fn shades_distinct(self, n: int) -> bool {
        forall|i: int| 0 <= i < n ==> all_distinct(keys((#[trigger] self.palettes[i]).shades))
    }

    /// Whether no palette, shade, spacing step or theme is declared twice.
    pub open spec fn structure_valid(self) -> bool {
        &&& all_distinct(self.palette_names())
        &&& self.shades_distinct(self.palettes.len() as int)
        &&& all_distinct(keys(self.spaces))
        &&& all_distinct(self.theme_names())
    }

    /// The path of the first token without a light reference: the base
    /// colours, then the themes.
    pub open spec fn missing(self) -> Option<Seq<char>> {
        first_of(self.base.missing(), themes_missing(self.themes))
    }

    /// Whether every base colour and every token of every theme has its
    /// light reference.
    pub open spec fn complete(self) -> bool {
        &&& self.base.complete()
        &&& forall|t: int| 0 <= t < self.themes.len() ==> (#[trigger] self.themes[t]).complete()
    }

    /// Every reference of the design system, with the path of its token and
    /// as the custom property that it names: base colours, themes, effects.
    pub open spec fn references(self) -> Entries {
        self.base.references() + themes_references(self.themes) + effects_references(self.effects)
    }

    /// The primitive values as the compiler takes them: the palettes and the
    /// spacing steps; this design system has no standalone colours.
    pub open spec fn primitives(self) -> PrimitivesView {
        PrimitivesView {
            color_palettes: Seq::new(self.palettes.len(), |i: int| self.palettes[i].color_palette()),
            single_colors: Seq::empty(),
            space: self.spaces,
        }
    }

    /// Whether every reference names a declared shade, as a plain colour or,
    /// with the gradient marker, as a gradient.
    pub open spec fn references_resolve(self) -> bool {
        forall|k: int|
            0 <= k < self.references().len() ==> self.primitives().resolves(
                (#[trigger] self.references()[k]).1,
            )
    }

    /// Whether the design system can be compiled.
    pub open spec fn valid(self) -> bool {
        self.structure_valid() && self.complete() && self.references_resolve()
    }

    /// Whether `error` is the first fault of the design system. Faults are
    /// looked for in this order: palette names, shade labels palette by
    /// palette, spacing steps, theme names, tokens without a light reference,
    /// references that name no declared colour.
    pub open spec fn first_fault(self, error: CompileErrorView) -> bool {
        let names = self.palette_names();
        match error {
            CompileErrorView::Validation(ValidationErrorView::DuplicatePalette(name)) => {
                exists|j: int| first_repeat(names, j) && name == names[j]
            },
            CompileErrorView::Validation(ValidationErrorView::DuplicateShade { palette, label }) => {
                &&& all_distinct(names)
                &&& exists|i: int, j: int|
                    {
                        &&& 0 <= i < self.palettes.len()
                        &&& self.shades_distinct(i)
                        &&& first_repeat(keys(self.palettes[i].shades), j)
                        &&& palette == self.palettes[i].palette_name
                        &&& label == self.palettes[i].shades[j].0
                    }
            },
            CompileErrorView::Validation(ValidationErrorView::DuplicateSingleColor(_)) => false,
            CompileErrorView::Validation(ValidationErrorView::DuplicateSpace(key)) => {
                &&& all_distinct(names)
                &&& self.shades_distinct(self.palettes.len() as int)
                &&& exists|j: int| first_repeat(keys(self.spaces), j) && key == self.spaces[j].0
            },
            CompileErrorView::Validation(ValidationErrorView::DuplicateTheme(name)) => {
                &&& all_distinct(names)
                &&& self.shades_distinct(self.palettes.len() as int)
                &&& all_distinct(keys(self.spaces))
                &&& exists|j: int| first_repeat(self.theme_names(), j) && name == self.theme_names()[j]
            },
            CompileErrorView::Validation(ValidationErrorView::MissingReference(token)) => {
                &&& self.structure_valid()
                &&& self.missing() == Some(token)
            },
            CompileErrorView::Reference { token, target } => {
                &&& self.structure_valid()
                &&& self.complete()
                &&& exists|k: int|
                    {
                        &&& 0 <= k < self.references().len()
                        &&& self.references()[k] == (token, target)
                        &&& !self.primitives().resolves(target)
                        &&& forall|m: int|
                            0 <= m < k ==> self.primitives().resolves(
                                (#[trigger] self.references()[m]).1,
                            )
                    }
            },
        }
    }
}

/// The path made of `path` and `part`, if `token` has no light reference.
fn find_token_missing(token: &ColorDarkable, path: &str, part: &str) -> (res: Option<String>)
    ensures
        res.deep_view() == token_missing(token@, path@ + part@),
{
    match &token.default {
        Some(_) => None,
        None => {
            let mut out = String::from_str(path);
            out.append(part);
            Some(out)
        },
    }
}

/// The first of two paths that may be absent.
fn first_missing(a: Option<String>, b: Option<String>) -> (res: Option<String>)
    ensures
        res.deep_view() == first_of(a.deep_view(), b.deep_view()),
{
    match a {
        Some(path) => Some(path),
        None => b,
    }
}

impl ThemeColorSet {
    /// The path of the first token without a light reference.
    fn find_missing(&self, path: &str) -> (res: Option<String>)
        ensures
            res.deep_view() == self@.missing(path@),
    {
        first_missing(
            find_token_missing(&self.background, path, ".background"),
            first_missing(
                find_token_missing(&self.border, path, ".border"),
                find_token_missing(&self.text, path, ".text"),
            ),
        )
    }
}

/// The first token without a light reference in a state that may be absent,
/// whose path is made of `path` and `part`.
fn find_optional_missing(state: &Option<ThemeColorSet>, path: &str, part: &str) -> (res: Option<
    String,
>)
    ensures
        res.deep_view() == optional_missing(state.deep_view(), path@ + part@),
{
    match state {
        Some(colors) => {
            let mut state_path = String::from_str(path);
            state_path.append(part);
            colors.find_missing(state_path.as_str())
        },
        None => None,
    }
}

impl ThemeColor {
    /// The path of the first token without a light reference.
    fn find_missing(&self) -> (res: Option<String>)
        ensures
            res.deep_view() == self@.missing(),
    {
        let name = self.theme_name.as_str();
        let mut default_path = String::from_str(name);
        default_path.append(".default");
        first_missing(
            self.default.find_missing(default_path.as_str()),
            first_missing(
                find_optional_missing(&self.hover, name, ".hover"),
                first_missing(
                    find_optional_missing(&self.active, name, ".active"),
                    find_optional_missing(&self.focus, name, ".focus"),
                ),
            ),
        )
    }
}

/// The path of a role of the base colours, if the role has no light reference.
fn find_role_missing(token: &ColorDarkable, path: &str) -> (res: Option<String>)
    ensures
        res.deep_view() == token_missing(token@, path@),
{
    match &token.default {
        Some(_) => None,
        None => Some(String::from_str(path)),
    }
}

impl Base {
    /// The path of the first role without a light reference.
    fn find_missing(&self) -> (res: Option<String>)
        ensures
            res.deep_view() == self@.missing(),
    {
        first_missing(
            find_role_missing(&self.background, "base.background"),
            first_missing(
                find_role_missing(&self.border, "base.border"),
                first_missing(
                    find_role_missing(&self.text_light, "base.text_light"),
                    first_missing(
                        find_role_missing(&self.text_default, "base.text_default"),
                        first_missing(
                            find_role_missing(&self.text_dark, "base.text_dark"),
                            first_missing(
                                find_role_missing(
                                    &self.background_disabled,
                                    "base.background_disabled",
                                ),
                                first_missing(
                                    find_role_missing(&self.text_disabled, "base.text_disabled"),
                                    find_role_missing(
                                        &self.border_disabled,
                                        "base.border_disabled",
                                    ),
                                ),
                            ),
                        ),
                    ),
                ),
            ),
        )
    }
}

/// The path of the first token of the first theme that lacks a light reference.
fn find_themes_missing(themes: &Vec<ThemeColor>) -> (res: Option<String>)
    ensures
        res.deep_view() == themes_missing(themes.deep_view()),
{
    let n: usize = themes.len();
    let mut i: usize = 0;
    proof {
        assert(themes.deep_view().take(0) =~= Seq::empty());
    }
    while i < n
        invariant
            n == themes.len(),
            i <= n,
            themes_missing(themes.deep_view().take(i as int)) is None,
        decreases n - i,
    {
        proof {
            let next = themes.deep_view().take(i + 1);
            assert(next.drop_last() =~= themes.deep_view().take(i as int));
            assert(next.last() == themes@[i as int]@);
        }
        match themes[i].find_missing() {
            Some(path) => {
                proof {
                    lemma_first_missing_stays(themes.deep_view(), i + 1);
                }
                return Some(path);
            },
            None => {},
        }
        i = i + 1;
    }
    proof {
        assert(themes.deep_view().take(n as int) =~= themes.deep_view());
    }
    None
}

/// A token that is missing among the first `n` themes is the first that is
/// missing among all themes.
proof fn lemma_first_missing_stays(themes: Seq<ThemeColorView>, n: int)
    requires
        0 <= n <= themes.len(),
        themes_missing(themes.take(n)) is Some,
    ensures
        themes_missing(themes) == themes_missing(themes.take(n)),
    decreases themes.len() - n,
{
    if n < themes.len() {
        let next = themes.take(n + 1);
        assert(next.drop_last() =~= themes.take(n));
        lemma_first_missing_stays(themes, n + 1);
    } else {
        assert(themes.take(n) =~= themes);
    }
}

/// Appends the references of a token whose path is made of `path` and `part`.
fn push_token_references(out: &mut Vec<(String, String)>, token: &ColorDarkable, path: &str, part: &str)
    ensures
        final(out).deep_view() == old(out).deep_view() + token_references(token@, path@ + part@),
{
    let mut token_path = String::from_str(path);
    token_path.append(part);
    match &token.default {
        Some(reference) => {
            let target = resolve_reference(reference.as_str());
            push_reference(out, token_path.as_str(), ".default", &target);
        },
        None => {},
    }
    let ghost middle = out.deep_view();
    match &token.dark {
        Some(reference) => {
            let target = resolve_reference(reference.as_str());
            push_reference(out, token_path.as_str(), ".dark", &target);
        },
        None => {},
    }
    proof {
        let light = match token@.default {
            Some(reference) => seq![(path@ + part@ + ".default"@, custom_property(reference))],
            None => Seq::empty(),
        };
        let dark = match token@.dark {
            Some(reference) => seq![(path@ + part@ + ".dark"@, custom_property(reference))],
            None => Seq::empty(),
        };
        assert(middle =~= old(out).deep_view() + light);
        assert(out.deep_view() =~= middle + dark);
        assert(out.deep_view() =~= old(out).deep_view() + (light + dark));
    }
}

impl ThemeColorSet {
    /// Appends the references of the three tokens.
    fn push_references(&self, out: &mut Vec<(String, String)>, path: &str)
        ensures
            final(out).deep_view() == old(out).deep_view() + self@.references(path@),
    {
        push_token_references(out, &self.background, path, ".background");
        push_token_references(out, &self.border, path, ".border");
        push_token_references(out, &self.text, path, ".text");
        proof {
            assert(out.deep_view() =~= old(out).deep_view() + self@.references(path@));
        }
    }
}

/// Appends the references of a state that may be absent, whose path is made
/// of `path` and `part`.
fn push_optional_references(
    out: &mut Vec<(String, String)>,
    state: &Option<ThemeColorSet>,
    path: &str,
    part: &str,
)
    ensures
        final(out).deep_view() == old(out).deep_view() + optional_references(
            state.deep_view(),
            path@ + part@,
        ),
{
    match state {
        Some(colors) => {
            let mut state_path = String::from_str(path);
            state_path.append(part);
            colors.push_references(out, state_path.as_str());
        },
        None => {
            proof {
                assert(out.deep_view() =~= old(out).deep_view() + Seq::<
                    (Seq<char>, Seq<char>),
                >::empty());
            }
        },
    }
}

impl ThemeColor {
    /// Appends the references of every state that the theme defines.
    fn push_references(&self, out: &mut Vec<(String, String)>)
        ensures
            final(out).deep_view() == old(out).deep_view() + self@.references(),
    {
        let name = self.theme_name.as_str();
        push_default_references(out, &self.default, name);
        push_optional_references(out, &self.hover, name, ".hover");
        push_optional_references(out, &self.active, name, ".active");
        push_optional_references(out, &self.focus, name, ".focus");
        proof {
            assert(out.deep_view() =~= old(out).deep_view() + self@.references());
        }
    }
}

/// Appends the references of the default state of the theme called `name`.
fn push_default_references(out: &mut Vec<(String, String)>, colors: &ThemeColorSet, name: &str)
    ensures
        final(out).deep_view() == old(out).deep_view() + colors@.references(name@ + ".default"@),
{
    let mut default_path = String::from_str(name);
    default_path.append(".default");
    colors.push_references(out, default_path.as_str());
}

/// Appends the references of a role of the base colours.
fn push_role_references(out: &mut Vec<(String, String)>, token: &ColorDarkable, path: &str)
    ensures
        final(out).deep_view() == old(out).deep_view() + token_references(token@, path@),
{
    push_token_references(out, token, path, "");
    proof {
        reveal_strlit("");
        assert(path@ + ""@ =~= path@);
    }
}

/// Appending to what was appended is appending the two at once.
proof fn lemma_appended_twice(before: Entries, done: Entries, next: Entries)
    ensures
        before + done + next == before + (done + next),
{
    assert(before + done + next =~= before + (done + next));
}

impl Base {
    /// Appends the references of the eight roles.
    fn push_references(&self, out: &mut Vec<(String, String)>)
        ensures
            final(out).deep_view() == old(out).deep_view() + self@.references(),
    {
        let ghost before = out.deep_view();
        push_role_references(out, &self.background, "base.background");
        let ghost done = token_references(self@.background, "base.background"@);
        push_role_references(out, &self.border, "base.border");
        proof {
            lemma_appended_twice(before, done, token_references(self@.border, "base.border"@));
        }
        let ghost done = done + token_references(self@.border, "base.border"@);
        push_role_references(out, &self.text_light, "base.text_light");
        proof {
            lemma_appended_twice(
                before,
                done,
                token_references(self@.text_light, "base.text_light"@),
            );
        }
        let ghost done = done + token_references(self@.text_light, "base.text_light"@);
        push_role_references(out, &self.text_default, "base.text_default");
        proof {
            lemma_appended_twice(
                before,
                done,
                token_references(self@.text_default, "base.text_default"@),
            );
        }
        let ghost done = done + token_references(self@.text_default, "base.text_default"@);
        push_role_references(out, &self.text_dark, "base.text_dark");
        proof {
            lemma_appended_twice(before, done, token_references(self@.text_dark, "base.text_dark"@));
        }
        let ghost done = done + token_references(self@.text_dark, "base.text_dark"@);
        push_role_references(out, &self.background_disabled, "base.background_disabled");
        proof {
            lemma_appended_twice(
                before,
                done,
                token_references(self@.background_disabled, "base.background_disabled"@),
            );
        }
        let ghost done = done + token_references(
            self@.background_disabled,
            "base.background_disabled"@,
        );
        push_role_references(out, &self.text_disabled, "base.text_disabled");
        proof {
            lemma_appended_twice(
                before,
                done,
                token_references(self@.text_disabled, "base.text_disabled"@),
            );
        }
        let ghost done = done + token_references(self@.text_disabled, "base.text_disabled"@);
        push_role_references(out, &self.border_disabled, "base.border_disabled");
        proof {
            lemma_appended_twice(
                before,
                done,
                token_references(self@.border_disabled, "base.border_disabled"@),
            );
        }
    }
}

impl Effect {
    /// Appends the reference of the background, if the effect has one.
    fn push_references(&self, out: &mut Vec<(String, String)>)
        ensures
            final(out).deep_view() == old(out).deep_view() + effect_references(self@),
    {
        match &self.bg {
            Some(reference) => {
                let target = resolve_reference(reference.as_str());
                push_reference(out, self.effect_name.as_str(), ".bg", &target);
                proof {
                    assert(out.deep_view() =~= old(out).deep_view() + effect_references(self@));
                }
            },
            None => {
                proof {
                    assert(out.deep_view() =~= old(out).deep_view() + effect_references(self@));
                }
            },
        }
    }
}

impl DesignSystem {
    /// Every reference of the design system, with the path of its token and
    /// as the custom property that it names.
    fn collect_references(&self) -> (res: Vec<(String, String)>)
        ensures
            res.deep_view() == self@.references(),
    {
        let mut out: Vec<(String, String)> = Vec::new();
        proof {
            assert(out.deep_view() =~= Seq::empty());
        }
        self.base.push_references(&mut out);
        proof {
            assert(out.deep_view() =~= self@.base.references() + themes_references(
                self@.themes.take(0),
            ));
        }
        let n: usize = self.themes.len();
        let mut i: usize = 0;
        while i < n
            invariant
                n == self.themes.len(),
                i <= n,
                out.deep_view() == self@.base.references() + themes_references(
                    self@.themes.take(i as int),
                ),
            decreases n - i,
        {
            let ghost before = out.deep_view();
            self.themes[i].push_references(&mut out);
            proof {
                let next = self@.themes.take(i + 1);
                assert(next.drop_last() =~= self@.themes.take(i as int));
                assert(next.last() == self.themes@[i as int]@);
                assert(out.deep_view() =~= self@.base.references() + themes_references(next));
            }
            i = i + 1;
        }
        proof {
            assert(self@.themes.take(n as int) =~= self@.themes);
            assert(out.deep_view() =~= self@.base.references() + themes_references(self@.themes)
                + effects_references(self@.effects.take(0)));
        }
        let m: usize = self.effects.len();
        let mut k: usize = 0;
        while k < m
            invariant
                m == self.effects.len(),
                k <= m,
                out.deep_view() == self@.base.references() + themes_references(self@.themes)
                    + effects_references(self@.effects.take(k as int)),
            decreases m - k,
        {
            self.effects[k].push_references(&mut out);
            proof {
                let next = self@.effects.take(k + 1);
                assert(next.drop_last() =~= self@.effects.take(k as int));
                assert(next.last() == self.effects@[k as int]@);
                assert(out.deep_view() =~= self@.base.references() + themes_references(
                    self@.themes,
                ) + effects_references(next));
            }
            k = k + 1;
        }
        proof {
            assert(self@.effects.take(m as int) =~= self@.effects);
        }
        out
    }

    /// The primitive values as the compiler takes them.
    pub fn primitives(&self) -> (res: Primitives)
        ensures
            res@ == self@.primitives(),
    {
        let mut color_palettes: Vec<ColorPalette> = Vec::new();
        let n: usize = self.palettes.len();
        let mut i: usize = 0;
        while i < n
            invariant
                n == self.palettes.len(),
                i <= n,
                color_palettes.len() == i,
                forall|k: int|
                    0 <= k < i ==> (#[trigger] color_palettes@[k])@
                        == self.palettes@[k]@.color_palette(),
            decreases n - i,
        {
            color_palettes.push(self.palettes[i].to_color_palette());
            i = i + 1;
        }
        let res = Primitives {
            color_palettes,
            single_colors: SingleColors(Vec::new()),
            space: to_space_palette(&self.spaces),
        };
        proof {
            assert(res@.color_palettes =~= self@.primitives().color_palettes);
            assert(res@.single_colors =~= Seq::empty());
        }
        res
    }

    /// The names of the palettes, in order.
    fn palette_names(&self) -> (res: Vec<String>)
        ensures
            texts(res@) == self@.palette_names(),
    {
        let mut out: Vec<String> = Vec::new();
        let n: usize = self.palettes.len();
        let mut i: usize = 0;
        while i < n
            invariant
                n == self.palettes.len(),
                i <= n,
                out.len() == i,
                forall|k: int|
                    0 <= k < i ==> (#[trigger] out@[k])@ == self.palettes@[k].palette_name@,
            decreases n - i,
        {
            out.push(self.palettes[i].palette_name.clone());
            i = i + 1;
        }
        proof {
            assert(texts(out@) =~= self@.palette_names());
        }
        out
    }

    /// The names of the themes, in order.
    fn theme_names(&self) -> (res: Vec<String>)
        ensures
            texts(res@) == self@.theme_names(),
    {
        let mut out: Vec<String> = Vec::new();
        let n: usize = self.themes.len();
        let mut i: usize = 0;
        while i < n
            invariant
                n == self.themes.len(),
                i <= n,
                out.len() == i,
                forall|k: int| 0 <= k < i ==> (#[trigger] out@[k])@ == self.themes@[k].theme_name@,
            decreases n - i,
        {
            out.push(self.themes[i].theme_name.clone());
            i = i + 1;
        }
        proof {
            assert(texts(out@) =~= self@.theme_names());
        }
        out
    }
}

/// The labels of the shades of a palette, in order.
fn shade_labels(palette: &Palette) -> (res: Vec<String>)
    ensures
        texts(res@) == keys(palette@.shades),
{
    let mut out: Vec<String> = Vec::new();
    let n: usize = palette.shades.len();
    let mut i: usize = 0;
    while i < n
        invariant
            n == palette.shades.len(),
            i <= n,
            out.len() == i,
            forall|k: int| 0 <= k < i ==> (#[trigger] out@[k])@ == palette.shades@[k].label@,
        decreases n - i,
    {
        out.push(palette.shades[i].label.clone());
        i = i + 1;
    }
    proof {
        assert(texts(out@) =~= keys(palette@.shades));
    }
    out
}

/// The keys of spacing steps, in order.
fn space_keys(spaces: &Vec<Space>) -> (res: Vec<String>)
    ensures
        texts(res@) == keys(spaces.deep_view()),
{
    let mut out: Vec<String> = Vec::new();
    let n: usize = spaces.len();
    let mut i: usize = 0;
    while i < n
        invariant
            n == spaces.len(),
            i <= n,
            out.len() == i,
            forall|k: int| 0 <= k < i ==> (#[trigger] out@[k])@ == spaces@[k].space_key@,
        decreases n - i,
    {
        out.push(spaces[i].space_key.clone());
        i = i + 1;
    }
    proof {
        assert(texts(out@) =~= keys(spaces.deep_view()));
    }
    out
}

impl DesignSystem {
    /// Looks for the first fault of the design system: a name that is
    /// declared twice, a token without its light reference, or a reference
    /// that names no declared colour.
    pub fn validate(&self) -> (res: Result<(), CompileError>)
        ensures
            res is Ok <==> self@.valid(),
            res matches Err(error) ==> self@.first_fault(error@),
    {
        let names = self.palette_names();
        match find_repeat(&names) {
            Some(j) => {
                return Err(CompileError::Validation(ValidationError::DuplicatePalette(names[j].clone())));
            },
            None => {},
        }
        let n: usize = self.palettes.len();
        let mut i: usize = 0;
        while i < n
            invariant
                n == self.palettes.len(),
                i <= n,
                all_distinct(self@.palette_names()),
                self@.shades_distinct(i as int),
            decreases n - i,
        {
            let palette = &self.palettes[i];
            let labels = shade_labels(palette);
            proof {
                assert(self@.palettes[i as int] == palette@);
            }
            match find_repeat(&labels) {
                Some(j) => {
                    proof {
                        assert(!all_distinct(keys(self@.palettes[i as int].shades)));
                        assert(labels@[j as int]@ == self@.palettes[i as int].shades[j as int].0);
                    }
                    return Err(
                        CompileError::Validation(
                            ValidationError::DuplicateShade {
                                palette: palette.palette_name.clone(),
                                label: labels[j].clone(),
                            },
                        ),
                    );
                },
                None => {},
            }
            i = i + 1;
        }
        let spaces = space_keys(&self.spaces);
        match find_repeat(&spaces) {
            Some(j) => {
                proof {
                    assert(first_repeat(keys(self@.spaces), j as int));
                    assert(spaces@[j as int]@ == self@.spaces[j as int].0);
                }
                return Err(CompileError::Validation(ValidationError::DuplicateSpace(spaces[j].clone())));
            },
            None => {},
        }
        let themes = self.theme_names();
        match find_repeat(&themes) {
            Some(j) => {
                return Err(CompileError::Validation(ValidationError::DuplicateTheme(themes[j].clone())));
            },
            None => {},
        }
        proof {
            lemma_themes_missing_nothing(self@.themes);
        }
        match first_missing(self.base.find_missing(), find_themes_missing(&self.themes)) {
            Some(token) => {
                return Err(CompileError::Validation(ValidationError::MissingReference(token)));
            },
            None => {},
        }
        let primitives = self.primitives();
        let references = self.collect_references();
        let count: usize = references.len();
        let mut k: usize = 0;
        while k < count
            invariant
                count == references.len(),
                k <= count,
                primitives@ == self@.primitives(),
                self@.structure_valid(),
                self@.complete(),
                references.deep_view() == self@.references(),
                forall|m: int|
                    0 <= m < k ==> self@.primitives().resolves(
                        (#[trigger] self@.references()[m]).1,
                    ),
            decreases count - k,
        {
            let reference = &references[k];
            proof {
                assert(self@.references()[k as int] == (reference.0@, reference.1@));
            }
            if !primitives.resolves(reference.1.as_str()) {
                return Err(
                    CompileError::Reference(
                        ReferenceError { token: reference.0.clone(), target: reference.1.clone() },
                    ),
                );
            }
            k = k + 1;
        }
        Ok(())
    }
}

impl DesignSystemView {
    /// The pair of the base colours.
    pub open spec fn base_stylesheet(self) -> StylesheetLightDarkView {
        self.base.stylesheet()
    }

    /// The pairs of the themes, combined in order.
    pub open spec fn themes_stylesheet(self) -> StylesheetLightDarkView {
        StylesheetLightDarkView::combine_all(
            Seq::new(self.themes.len(), |i: int| self.themes[i].stylesheet()),
        )
    }

    /// The rules of the effects, in order.
    pub open spec fn effects_stylesheet(self) -> Seq<char> {
        join_lines(Seq::new(self.effects.len(), |i: int| self.effects[i].stylesheet()))
    }

    /// Everything that goes into the light scope: primitives, base colours,
    /// themes, typography (the scales, then the fonts), radii and effects.
    /// This design system has no paddings of its own.
    pub open spec fn light_stream(self) -> Seq<char> {
        self.primitives().stylesheet() + "\n"@ + join_lines(
            Seq::empty().push(self.base_stylesheet().light).push(
                self.themes_stylesheet().light,
            ).push(self.typography.stylesheet()).push(self.fonts.stylesheet()).push(
                self.radius.stylesheet(),
            ).push(self.effects_stylesheet()),
        )
    }

    /// Everything that goes into the dark scope: where dark mode is enabled,
    /// what the dark references of the base colours and of the themes give;
    /// else nothing.
    pub open spec fn dark_stream(self) -> Seq<char> {
        if self.metadata.dark_mode {
            join_lines(
                Seq::empty().push(self.base_stylesheet().dark).push(self.themes_stylesheet().dark),
            )
        } else {
            Seq::empty()
        }
    }

    /// The two streams, before they are joined.
    pub open spec fn streams(self) -> StylesheetLightDarkView {
        StylesheetLightDarkView { light: self.light_stream(), dark: self.dark_stream() }
    }

    /// The whole stylesheet.
    pub open spec fn stylesheet(self) -> Seq<char> {
        join_streams(self.streams())
    }
}

impl DesignSystem {
    /// The pair of the base colours, where each role has its light reference.
    fn base_to_stylesheet(&self) -> (res: Option<StylesheetLightDark>)
        ensures
            res is Some <==> self@.base.complete(),
            res matches Some(pair) ==> pair@ == self@.base_stylesheet(),
    {
        self.base.to_stylesheet()
    }

    /// The pairs of the themes, combined in order, where each theme is complete.
    fn themes_to_stylesheet(&self) -> (res: Option<StylesheetLightDark>)
        ensures
            res is Some <==> forall|t: int|
                0 <= t < self@.themes.len() ==> (#[trigger] self@.themes[t]).complete(),
            res matches Some(pair) ==> pair@ == self@.themes_stylesheet(),
    {
        let mut pairs: Vec<StylesheetLightDark> = Vec::new();
        let n: usize = self.themes.len();
        let mut i: usize = 0;
        while i < n
            invariant
                n == self.themes.len(),
                i <= n,
                pairs.len() == i,
                forall|t: int| 0 <= t < i ==> (#[trigger] self@.themes[t]).complete(),
                forall|k: int|
                    0 <= k < i ==> (#[trigger] pairs@[k])@ == self@.themes[k].stylesheet(),
            decreases n - i,
        {
            proof {
                assert(self@.themes[i as int] == self.themes@[i as int]@);
            }
            match self.themes[i].to_stylesheet() {
                Some(pair) => {
                    pairs.push(pair);
                },
                None => {
                    return None;
                },
            }
            i = i + 1;
        }
        proof {
            assert(pairs.deep_view() =~= Seq::new(
                self@.themes.len(),
                |i: int| self@.themes[i].stylesheet(),
            ));
        }
        Some(StylesheetLightDark::combine_all(&pairs))
    }

    /// The rules of the effects, in order.
    fn effects_to_stylesheet(&self) -> (res: String)
        ensures
            res@ == self@.effects_stylesheet(),
    {
        let mut rules: Vec<String> = Vec::new();
        let n: usize = self.effects.len();
        let mut i: usize = 0;
        while i < n
            invariant
                n == self.effects.len(),
                i <= n,
                rules.len() == i,
                forall|k: int|
                    0 <= k < i ==> (#[trigger] rules@[k])@ == self@.effects[k].stylesheet(),
            decreases n - i,
        {
            proof {
                assert(self@.effects[i as int] == self.effects@[i as int]@);
            }
            rules.push(self.effects[i].to_stylesheet());
            i = i + 1;
        }
        proof {
            assert(texts(rules@) =~= Seq::new(
                self@.effects.len(),
                |i: int| self@.effects[i].stylesheet(),
            ));
        }
        join_with_newlines(&rules)
    }

    /// The light and the dark stream of the whole design system, where every
    /// base colour and every token of every theme has its light reference.
    pub fn to_streams(&self) -> (res: Option<StylesheetLightDark>)
        ensures
            res is Some <==> self@.complete(),
            res matches Some(streams) ==> streams@ == self@.streams(),
    {
        let base = match self.base_to_stylesheet() {
            Some(pair) => pair,
            None => {
                return None;
            },
        };
        let themes = match self.themes_to_stylesheet() {
            Some(pair) => pair,
            None => {
                return None;
            },
        };
        let mut light_parts: Vec<String> = Vec::new();
        proof {
            assert(texts(light_parts@) =~= Seq::empty());
        }
        push_text(&mut light_parts, base.light);
        push_text(&mut light_parts, themes.light);
        push_text(&mut light_parts, self.typography.to_stylesheet());
        push_text(&mut light_parts, self.fonts.to_stylesheet());
        push_text(&mut light_parts, self.radius.to_stylesheet());
        push_text(&mut light_parts, self.effects_to_stylesheet());
        let tokens = join_with_newlines(&light_parts);
        let mut light = self.primitives().to_stylesheet();
        light.append("\n");
        light.append(tokens.as_str());
        let dark = if self.metadata.dark_mode {
            let mut dark_parts: Vec<String> = Vec::new();
            proof {
                assert(texts(dark_parts@) =~= Seq::empty());
            }
            push_text(&mut dark_parts, base.dark);
            push_text(&mut dark_parts, themes.dark);
            join_with_newlines(&dark_parts)
        } else {
            String::new()
        };
        Some(StylesheetLightDark { light, dark })
    }

    /// Compiles the design system into its stylesheet, or says why it has
    /// none. Nothing is written for a design system with a fault.
    pub fn to_stylesheet(&self) -> (res: Result<String, CompileError>)
        ensures
            res is Ok <==> self@.valid(),
            res matches Ok(text) ==> text@ == self@.stylesheet(),
            res matches Err(error) ==> self@.first_fault(error@),
    {
        match self.validate() {
            Ok(()) => {
                match self.to_streams() {
                    Some(streams) => Ok(streams.join()),
                    None => vstd::pervasive::unreached(),
                }
            },
            Err(error) => Err(error),
        }
    }
}

} // verus!
