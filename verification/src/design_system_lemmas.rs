use vstd::prelude::*;
use crate::compiler_service::{
    all_distinct, first_repeat, keys, lemma_first_repeat_is_unique, lemma_repeat_excludes_distinct,
    CompileErrorView,
};
use crate::design_system_compiler::{effects_references, themes_references, token_references};
use crate::design_system_compiler::lemma_themes_missing_nothing;
use crate::design_system_domain::{
    BaseView, ColorDarkableView, DesignSystem, DesignSystemView, PaletteView, ThemeColorSetView,
    ThemeColorView,
};
use crate::reference_resolver::custom_property;
use crate::text::{
    contains_text, join_lines, lemma_contains_transitive, lemma_join_lines_contains,
    lemma_join_lines_holds_member, lemma_member_of_either, optional_text,
};
use crate::workspace_domain::design_system_to_stylesheet_domain::{
    border_rules, border_selector, border_sides, css_rule, dark_scope, darks, declaration,
    gradient_border_declarations, is_gradient, light_scope, lights, palette_prefix,
    solid_border_declarations, space_prefix, theme_declarations,
};
use crate::design_system_stylesheet::optional_dark_rules;
use crate::workspace_domain::stylesheet_lemmas::{
    lemma_active_selectors, lemma_shade_resolves_as_gradient, lemma_active_state_in_set, lemma_border_rule_in_state,
    lemma_dark_part_in_final_text, lemma_default_state_in_set, lemma_in_first_of_two,
    lemma_in_second_of_two, lemma_light_part_in_final_text, lemma_shade_in_primitives,
    lemma_space_in_primitives, theme_rule,
};

verus! {

/// Compiling is a function of the design system's value: two design systems
/// with the same value are valid together and have the same stylesheet.
pub proof fn lemma_stylesheet_depends_on_value_alone(a: DesignSystem, b: DesignSystem)
    requires
        a@ == b@,
    ensures
        a@.valid() == b@.valid(),
        a@.stylesheet() == b@.stylesheet(),
{
}

impl ColorDarkableView {
    /// The token without its dark reference.
    pub open spec fn without_dark(self) -> ColorDarkableView {
        ColorDarkableView { dark: None, ..self }
    }
}

impl ThemeColorSetView {
    /// The state without any dark reference.
    pub open spec fn without_dark(self) -> ThemeColorSetView {
        ThemeColorSetView {
            background: self.background.without_dark(),
            border: self.border.without_dark(),
            text: self.text.without_dark(),
        }
    }
}

/// A state that may be absent, without any dark reference.
pub open spec fn optional_without_dark(state: Option<ThemeColorSetView>) -> Option<
    ThemeColorSetView,
> {
    match state {
        Some(colors) => Some(colors.without_dark()),
        None => None,
    }
}

impl ThemeColorView {
    /// The theme without any dark reference.
    pub open spec fn without_dark(self) -> ThemeColorView {
        ThemeColorView {
            theme_name: self.theme_name,
            default: self.default.without_dark(),
            hover: optional_without_dark(self.hover),
            active: optional_without_dark(self.active),
            focus: optional_without_dark(self.focus),
        }
    }
}

impl BaseView {
    /// The base colours without any dark reference.
    pub open spec fn without_dark(self) -> BaseView {
        BaseView {
            background: self.background.without_dark(),
            border: self.border.without_dark(),
            text_light: self.text_light.without_dark(),
            text_default: self.text_default.without_dark(),
            text_dark: self.text_dark.without_dark(),
            background_disabled: self.background_disabled.without_dark(),
            text_disabled: self.text_disabled.without_dark(),
            border_disabled: self.border_disabled.without_dark(),
        }
    }
}

impl DesignSystemView {
    /// The design system with every dark reference taken out.
    pub open spec fn without_dark(self) -> DesignSystemView {
        DesignSystemView {
            base: self.base.without_dark(),
            themes: Seq::new(self.themes.len(), |i: int| self.themes[i].without_dark()),
            ..self
        }
    }
}

/// No dark reference reaches the light stream: the light stream is that of
/// the design system without its dark references. So two design systems that
/// differ only in dark references have the same text before the dark scope.
pub proof fn lemma_light_stream_ignores_dark(design_system: DesignSystemView)
    ensures
        design_system.light_stream() == design_system.without_dark().light_stream(),
{
    let plain = design_system.without_dark();
    assert(lights(
        Seq::new(
            design_system.themes.len(),
            |i: int| design_system.themes[i].stylesheet(),
        ),
    ) =~= lights(Seq::new(plain.themes.len(), |i: int| plain.themes[i].stylesheet())));
    assert(plain.primitives() == design_system.primitives());
}

/// What stands in the fragment of the primitives stands in the light scope,
/// and so in the stylesheet.
proof fn lemma_primitives_in_stylesheet(design_system: DesignSystemView, part: Seq<char>)
    requires
        contains_text(design_system.primitives().stylesheet(), part),
    ensures
        contains_text(light_scope(design_system.light_stream()), part),
        contains_text(design_system.stylesheet(), part),
{
    let tokens = join_lines(
        Seq::empty().push(design_system.base_stylesheet().light).push(
            design_system.themes_stylesheet().light,
        ).push(design_system.typography.stylesheet()).push(design_system.fonts.stylesheet()).push(
            design_system.radius.stylesheet(),
        ).push(design_system.effects_stylesheet()),
    );
    lemma_in_first_of_two(design_system.primitives().stylesheet(), tokens, part);
    lemma_light_part_in_final_text(design_system.streams(), part);
}

/// Every shade of every palette is declared in the light scope, under the
/// custom property made of the palette's name and the shade's label.
pub proof fn lemma_shade_is_declared(design_system: DesignSystemView, i: int, j: int)
    requires
        0 <= i < design_system.palettes.len(),
        0 <= j < design_system.palettes[i].shades.len(),
    ensures
        ({
            let palette = design_system.palettes[i];
            let line = declaration(
                palette_prefix(palette.palette_name),
                palette.shades[j].0,
                palette.shades[j].1,
            );
            &&& contains_text(light_scope(design_system.light_stream()), line)
            &&& contains_text(design_system.stylesheet(), line)
        }),
{
    let palette = design_system.palettes[i];
    let line = declaration(
        palette_prefix(palette.palette_name),
        palette.shades[j].0,
        palette.shades[j].1,
    );
    assert(design_system.primitives().color_palettes[i] == palette.color_palette());
    lemma_shade_in_primitives(design_system.primitives(), i, j);
    lemma_primitives_in_stylesheet(design_system, line);
}

/// Every spacing step is declared in the light scope, under the custom
/// property made of its key.
pub proof fn lemma_space_is_declared(design_system: DesignSystemView, k: int)
    requires
        0 <= k < design_system.spaces.len(),
    ensures
        ({
            let line = declaration(
                space_prefix(),
                design_system.spaces[k].0,
                design_system.spaces[k].1,
            );
            &&& contains_text(light_scope(design_system.light_stream()), line)
            &&& contains_text(design_system.stylesheet(), line)
        }),
{
    let line = declaration(space_prefix(), design_system.spaces[k].0, design_system.spaces[k].1);
    lemma_space_in_primitives(design_system.primitives(), k);
    lemma_primitives_in_stylesheet(design_system, line);
}

/// The light fragment of each theme stands in the stylesheet.
pub proof fn lemma_theme_in_stylesheet(design_system: DesignSystemView, t: int)
    requires
        0 <= t < design_system.themes.len(),
    ensures
        contains_text(
            design_system.stylesheet(),
            design_system.themes[t].stylesheet().light,
        ),
{
    let fragment = design_system.themes[t].stylesheet().light;
    let pairs = Seq::new(
        design_system.themes.len(),
        |i: int| design_system.themes[i].stylesheet(),
    );
    assert(lights(pairs)[t] == fragment);
    lemma_join_lines_contains(lights(pairs), t);
    let sections = Seq::empty().push(design_system.base_stylesheet().light).push(
        design_system.themes_stylesheet().light,
    ).push(design_system.typography.stylesheet()).push(design_system.fonts.stylesheet()).push(
        design_system.radius.stylesheet(),
    ).push(design_system.effects_stylesheet());
    assert(sections[1] == design_system.themes_stylesheet().light);
    lemma_join_lines_contains(sections, 1);
    lemma_contains_transitive(join_lines(sections), design_system.themes_stylesheet().light, fragment);
    lemma_in_second_of_two(design_system.primitives().stylesheet(), join_lines(sections), fragment);
    lemma_light_part_in_final_text(design_system.streams(), fragment);
}

/// For every theme, the stylesheet holds the five border variants of the
/// default state, written from the custom property that the light border
/// reference names.
pub proof fn lemma_border_variants_in_stylesheet(design_system: DesignSystemView, t: int, side: int)
    requires
        0 <= t < design_system.themes.len(),
        0 <= side < 5,
    ensures
        ({
            let theme = design_system.themes[t];
            contains_text(
                design_system.stylesheet(),
                border_rules(
                    custom_property(theme.default.border.default->0),
                    "."@,
                    theme.theme_name,
                    Seq::empty(),
                )[side],
            )
        }),
{
    let theme = design_system.themes[t];
    let colors = theme.light_colors();
    let fragment = theme.stylesheet().light;
    let rule = border_rules(colors.default.border, "."@, theme.theme_name, Seq::empty())[side];
    lemma_border_rule_in_state(colors.default, theme.theme_name, None, false, side);
    lemma_default_state_in_set(colors, theme.theme_name);
    lemma_contains_transitive(
        fragment,
        colors.default.stylesheet(theme.theme_name, None, false),
        rule,
    );
    lemma_theme_in_stylesheet(design_system, t);
    lemma_contains_transitive(design_system.stylesheet(), fragment, rule);
}

/// A design system that compiles and whose border reference carries the
/// gradient marker has the declarations of a gradient border on all five
/// variants.
pub proof fn lemma_gradient_border_in_stylesheet(
    design_system: DesignSystemView,
    t: int,
    side: int,
)
    requires
        design_system.valid(),
        0 <= t < design_system.themes.len(),
        is_gradient(custom_property(design_system.themes[t].default.border.default->0)),
        0 <= side < 5,
    ensures
        ({
            let theme = design_system.themes[t];
            contains_text(
                design_system.stylesheet(),
                css_rule(
                    border_selector(border_sides()[side], "."@, Seq::empty(), theme.theme_name),
                    gradient_border_declarations(
                        border_sides()[side],
                        custom_property(theme.default.border.default->0),
                    ),
                ),
            )
        }),
{
    lemma_border_variants_in_stylesheet(design_system, t, side);
}

/// A design system that compiles and whose border reference is plain has
/// the one declaration of a solid border on all five variants.
pub proof fn lemma_solid_border_in_stylesheet(design_system: DesignSystemView, t: int, side: int)
    requires
        design_system.valid(),
        0 <= t < design_system.themes.len(),
        !is_gradient(custom_property(design_system.themes[t].default.border.default->0)),
        0 <= side < 5,
    ensures
        ({
            let theme = design_system.themes[t];
            contains_text(
                design_system.stylesheet(),
                css_rule(
                    border_selector(border_sides()[side], "."@, Seq::empty(), theme.theme_name),
                    solid_border_declarations(
                        border_sides()[side],
                        custom_property(theme.default.border.default->0),
                    ),
                ),
            )
        }),
{
    lemma_border_variants_in_stylesheet(design_system, t, side);
}

/// For a theme that defines an active state, the stylesheet holds the rule
/// of that state under the escaped selector and under the plain selector
/// `.active.theme-<name>`, both with the same declarations, and with each the
/// utility classes of the state under selectors of the same form.
pub proof fn lemma_active_state_has_both_selectors(design_system: DesignSystemView, t: int)
    requires
        0 <= t < design_system.themes.len(),
        design_system.themes[t].active is Some,
    ensures
        ({
            let theme = design_system.themes[t];
            let active = theme.active->0;
            let declarations = theme_declarations(
                custom_property(active.background.default->0),
                custom_property(active.text.default->0),
            );
            &&& contains_text(
                design_system.stylesheet(),
                css_rule(".\\active\\:theme-"@ + theme.theme_name + ":active"@, declarations),
            )
            &&& contains_text(
                design_system.stylesheet(),
                css_rule(".active.theme-"@ + theme.theme_name, declarations),
            )
            &&& contains_text(
                design_system.stylesheet(),
                active.light_state().stylesheet(theme.theme_name, Some("active"@), false),
            )
            &&& contains_text(
                design_system.stylesheet(),
                active.light_state().stylesheet(theme.theme_name, Some("active"@), true),
            )
        }),
{
    let theme = design_system.themes[t];
    let colors = theme.light_colors();
    let fragment = theme.stylesheet().light;
    lemma_active_selectors(theme.theme_name);
    lemma_active_state_in_set(colors, theme.theme_name);
    lemma_theme_in_stylesheet(design_system, t);
    lemma_contains_transitive(
        design_system.stylesheet(),
        fragment,
        theme_rule(colors.active->0, theme.theme_name, Some("active"@), false),
    );
    lemma_contains_transitive(
        design_system.stylesheet(),
        fragment,
        theme_rule(colors.active->0, theme.theme_name, Some("active"@), true),
    );
    lemma_contains_transitive(
        design_system.stylesheet(),
        fragment,
        (colors.active->0).stylesheet(theme.theme_name, Some("active"@), false),
    );
    lemma_contains_transitive(
        design_system.stylesheet(),
        fragment,
        (colors.active->0).stylesheet(theme.theme_name, Some("active"@), true),
    );
}

/// A theme without dark references gives nothing in dark mode: its dark
/// fragment is empty.
pub proof fn lemma_theme_without_dark_is_empty_in_dark(theme: ThemeColorView)
    ensures
        theme.without_dark().dark_rules() == Seq::<Seq<char>>::empty(),
        theme.without_dark().stylesheet().dark == Seq::<char>::empty(),
{
    let plain = theme.without_dark();
    assert(plain.default.dark_rules(plain.theme_name, None, false) =~= Seq::empty());
    assert(optional_dark_rules(plain.hover, plain.theme_name, "hover"@, false) =~= Seq::empty());
    assert(optional_dark_rules(plain.active, plain.theme_name, "active"@, true) =~= Seq::empty());
    assert(optional_dark_rules(plain.focus, plain.theme_name, "focus"@, false) =~= Seq::empty());
    assert(plain.dark_rules() =~= Seq::empty());
}

/// Base colours without dark references give nothing in dark mode.
pub proof fn lemma_base_without_dark_is_empty_in_dark(base: BaseView)
    ensures
        base.without_dark().dark_declarations() == Seq::<Seq<char>>::empty(),
        base.without_dark().stylesheet().dark == Seq::<char>::empty(),
{
    assert(base.without_dark().dark_declarations() =~= Seq::empty());
}

/// What stands in the dark fragment of a theme stands in the dark scope,
/// where dark mode is enabled.
pub proof fn lemma_theme_in_dark_scope(design_system: DesignSystemView, t: int, part: Seq<char>)
    requires
        design_system.metadata.dark_mode,
        0 <= t < design_system.themes.len(),
        contains_text(design_system.themes[t].stylesheet().dark, part),
    ensures
        contains_text(dark_scope(design_system.dark_stream()), part),
        contains_text(design_system.stylesheet(), part),
{
    let fragment = design_system.themes[t].stylesheet().dark;
    let pairs = Seq::new(design_system.themes.len(), |i: int| design_system.themes[i].stylesheet());
    assert(darks(pairs)[t] == fragment);
    lemma_join_lines_contains(darks(pairs), t);
    let sections = Seq::empty().push(design_system.base_stylesheet().dark).push(
        design_system.themes_stylesheet().dark,
    );
    assert(sections[1] == design_system.themes_stylesheet().dark);
    lemma_join_lines_contains(sections, 1);
    lemma_contains_transitive(design_system.themes_stylesheet().dark, fragment, part);
    lemma_contains_transitive(join_lines(sections), design_system.themes_stylesheet().dark, part);
    lemma_dark_part_in_final_text(design_system.streams(), part);
}

/// A border with a dark reference has its five variants in the dark scope,
/// written from the dark reference; they stand in the dark fragment of the
/// theme, which is all that the theme gives to the dark scope.
pub proof fn lemma_dark_border_in_dark_scope(design_system: DesignSystemView, t: int, side: int)
    requires
        design_system.metadata.dark_mode,
        0 <= t < design_system.themes.len(),
        design_system.themes[t].default.border.dark is Some,
        0 <= side < 5,
    ensures
        ({
            let theme = design_system.themes[t];
            let rule = border_rules(
                custom_property(theme.default.border.dark->0),
                "."@,
                theme.theme_name,
                Seq::empty(),
            )[side];
            &&& contains_text(theme.stylesheet().dark, rule)
            &&& contains_text(dark_scope(design_system.dark_stream()), rule)
        }),
{
    let theme = design_system.themes[t];
    let name = theme.theme_name;
    let rules = border_rules(custom_property(theme.default.border.dark->0), "."@, name, Seq::empty());
    let joined = join_lines(rules);
    let state = theme.default;
    let front = optional_text(state.dark_theme_rule("."@, name, Seq::empty())) + optional_text(
        state.dark_background_rule("."@, name, Seq::empty()),
    ) + optional_text(state.dark_text_rule("."@, name, Seq::empty()));
    let last = optional_text(state.dark_border_rules("."@, name, Seq::empty()));
    assert(last[0] == joined);
    lemma_member_of_either(front, last, joined);
    let default = state.dark_rules(name, None, false);
    assert(default == front + last);
    let hover = optional_dark_rules(theme.hover, name, "hover"@, false);
    let active = optional_dark_rules(theme.active, name, "active"@, true);
    let focus = optional_dark_rules(theme.focus, name, "focus"@, false);
    lemma_member_of_either(default, hover, joined);
    lemma_member_of_either(default + hover, active, joined);
    lemma_member_of_either(default + hover + active, focus, joined);
    lemma_join_lines_holds_member(theme.dark_rules(), joined);
    lemma_join_lines_contains(rules, side);
    lemma_contains_transitive(theme.stylesheet().dark, joined, rules[side]);
    lemma_theme_in_dark_scope(design_system, t, rules[side]);
}

/// A token with the light reference `reference` and no dark one.
pub open spec fn light_only(reference: Seq<char>) -> ColorDarkableView {
    ColorDarkableView { default: Some(reference), dark: None }
}

/// The design system `other` with one palette of one shade in place of its
/// palettes, and with base colours and one theme that refer to that shade:
/// everywhere as a plain colour, but for the border of the theme, which
/// refers to it as a gradient. It has no spacing steps and no effects.
pub open spec fn with_gradient_border(
    other: DesignSystemView,
    palette_name: Seq<char>,
    shade: (Seq<char>, Seq<char>),
    theme_name: Seq<char>,
) -> DesignSystemView {
    let plain = light_only("palette-"@ + (palette_name + "-"@ + shade.0));
    DesignSystemView {
        palettes: seq![PaletteView { palette_name, palette_path: None, shades: seq![shade] }],
        base: BaseView {
            background: plain,
            border: plain,
            text_light: plain,
            text_default: plain,
            text_dark: plain,
            background_disabled: plain,
            text_disabled: plain,
            border_disabled: plain,
        },
        themes: seq![
            ThemeColorView {
                theme_name,
                default: ThemeColorSetView {
                    background: plain,
                    border: light_only("gradient-"@ + (palette_name + "-"@ + shade.0)),
                    text: plain,
                },
                hover: None,
                active: None,
                focus: None,
            },
        ],
        spaces: Seq::empty(),
        effects: Seq::empty(),
        ..other
    }
}

/// How the two references of the shade of [`with_gradient_border`] are
/// written as custom properties.
proof fn lemma_references_of_the_shade(entry: Seq<char>)
    ensures
        custom_property("palette-"@ + entry) == "--color-"@ + entry,
        custom_property("gradient-"@ + entry) == "--gradient-"@ + entry,
{
    reveal_strlit("palette-");
    reveal_strlit("gradient-");
    reveal_strlit("--");
    reveal_strlit("--gradient-");
    let plain = "palette-"@ + entry;
    assert(plain.subrange(0, 8) =~= "palette-"@);
    assert(plain.skip(8) =~= entry);
    let marked = "gradient-"@ + entry;
    assert(marked[0] == 'g');
    if marked.len() >= 8 {
        assert(marked.subrange(0, 8)[0] == 'g');
    }
    assert("--"@ + marked =~= "--gradient-"@ + entry);
}

/// There are design systems that compile and have a gradient border: every
/// design system of the shape of [`with_gradient_border`] is one.
pub proof fn lemma_gradient_border_can_compile(
    other: DesignSystemView,
    palette_name: Seq<char>,
    shade: (Seq<char>, Seq<char>),
    theme_name: Seq<char>,
)
    ensures
        with_gradient_border(other, palette_name, shade, theme_name).valid(),
        is_gradient(
            custom_property(
                with_gradient_border(
                    other,
                    palette_name,
                    shade,
                    theme_name,
                ).themes[0].default.border.default->0,
            ),
        ),
{
    let design_system = with_gradient_border(other, palette_name, shade, theme_name);
    let entry = palette_name + "-"@ + shade.0;
    let primitives = design_system.primitives();
    let theme = design_system.themes[0];
    lemma_references_of_the_shade(entry);
    lemma_shade_resolves_as_gradient(primitives, 0, 0);
    assert(primitives.color_palettes[0].palette_name + "-"@ + primitives.color_palettes[0].shades[0].0
        == entry);
    assert(palette_prefix(palette_name) + shade.0 =~= "--color-"@ + entry) by {
        reveal_strlit("--color-");
        reveal_strlit("-");
    }
    let plain = "--color-"@ + entry;
    let marked = "--gradient-"@ + entry;
    assert(primitives.resolves(plain));
    assert(primitives.resolves(marked));
    assert(all_distinct(design_system.palette_names()));
    assert(all_distinct(keys(design_system.palettes[0].shades)));
    assert(all_distinct(keys(design_system.spaces)));
    assert(all_distinct(design_system.theme_names()));
    assert(design_system.themes.drop_last() =~= Seq::empty());
    assert(themes_references(design_system.themes.drop_last()) =~= Seq::empty());
    assert(effects_references(design_system.effects) =~= Seq::empty());
    let references = design_system.references();
    assert forall|k: int| 0 <= k < references.len() implies primitives.resolves(
        (#[trigger] references[k]).1,
    ) by {
        lemma_every_reference_is_one_of_two(design_system, plain, marked, k);
    }
}

/// Every reference of a design system of the shape of
/// [`with_gradient_border`] is one of the two ways to write its shade.
proof fn lemma_every_reference_is_one_of_two(
    design_system: DesignSystemView,
    plain: Seq<char>,
    marked: Seq<char>,
    k: int,
)
    requires
        design_system.themes.len() == 1,
        design_system.effects.len() == 0,
        design_system.themes[0].hover is None,
        design_system.themes[0].active is None,
        design_system.themes[0].focus is None,
        forall|token: ColorDarkableView, path: Seq<char>|
            #![trigger token_references(token, path)]
            base_or_theme_token(design_system, token) ==> token_references(token, path).len()
                == 1 && (token_references(token, path)[0].1 == plain || token_references(
                token,
                path,
            )[0].1 == marked),
        0 <= k < design_system.references().len(),
    ensures
        design_system.references()[k].1 == plain || design_system.references()[k].1 == marked,
{
    let base = design_system.base;
    let theme = design_system.themes[0];
    assert(base_or_theme_token(design_system, base.background));
    assert(base_or_theme_token(design_system, base.border));
    assert(base_or_theme_token(design_system, base.text_light));
    assert(base_or_theme_token(design_system, base.text_default));
    assert(base_or_theme_token(design_system, base.text_dark));
    assert(base_or_theme_token(design_system, base.background_disabled));
    assert(base_or_theme_token(design_system, base.text_disabled));
    assert(base_or_theme_token(design_system, base.border_disabled));
    assert(base_or_theme_token(design_system, theme.default.background));
    assert(base_or_theme_token(design_system, theme.default.border));
    assert(base_or_theme_token(design_system, theme.default.text));
    assert(design_system.themes.drop_last() =~= Seq::empty());
    assert(themes_references(design_system.themes.drop_last()) =~= Seq::empty());
    assert(effects_references(design_system.effects) =~= Seq::empty());
    assert(base.references().len() == 8);
    assert(theme.references().len() == 3);
    assert(design_system.references().len() == 11);
}

/// Whether `token` is one of the base colours or one of the tokens of the
/// default state of the first theme.
spec fn base_or_theme_token(design_system: DesignSystemView, token: ColorDarkableView) -> bool {
    let base = design_system.base;
    let colors = design_system.themes[0].default;
    ||| token == base.background
    ||| token == base.border
    ||| token == base.text_light
    ||| token == base.text_default
    ||| token == base.text_dark
    ||| token == base.background_disabled
    ||| token == base.text_disabled
    ||| token == base.border_disabled
    ||| token == colors.background
    ||| token == colors.border
    ||| token == colors.text
}

/// A design system has at most one first fault, so that validation reports
/// the same fault whenever it is asked.
pub proof fn lemma_first_fault_is_unique(
    design_system: DesignSystemView,
    a: CompileErrorView,
    b: CompileErrorView,
)
    requires
        design_system.first_fault(a),
        design_system.first_fault(b),
    ensures
        a == b,
{
    let palettes = design_system.palettes;
    let names = design_system.palette_names();
    if exists|j: int| first_repeat(names, j) {
        let j = choose|j: int| first_repeat(names, j);
        lemma_repeat_excludes_distinct(names, j);
        assert(a is Validation && a->Validation_0 is DuplicatePalette);
        assert(b is Validation && b->Validation_0 is DuplicatePalette);
        let ja = choose|k: int|
            first_repeat(names, k) && a->Validation_0->DuplicatePalette_0 == names[k];
        let jb = choose|k: int|
            first_repeat(names, k) && b->Validation_0->DuplicatePalette_0 == names[k];
        lemma_first_repeat_is_unique(names, ja, jb);
    } else if !design_system.shades_distinct(palettes.len() as int) {
        assert(a is Validation && a->Validation_0 is DuplicateShade);
        assert(b is Validation && b->Validation_0 is DuplicateShade);
        let (ia, ja) = choose|i: int, j: int|
            {
                &&& 0 <= i < palettes.len()
                &&& design_system.shades_distinct(i)
                &&& first_repeat(keys(palettes[i].shades), j)
                &&& a->Validation_0->DuplicateShade_palette == palettes[i].palette_name
                &&& a->Validation_0->DuplicateShade_label == palettes[i].shades[j].0
            };
        let (ib, jb) = choose|i: int, j: int|
            {
                &&& 0 <= i < palettes.len()
                &&& design_system.shades_distinct(i)
                &&& first_repeat(keys(palettes[i].shades), j)
                &&& b->Validation_0->DuplicateShade_palette == palettes[i].palette_name
                &&& b->Validation_0->DuplicateShade_label == palettes[i].shades[j].0
            };
        lemma_repeat_excludes_distinct(keys(palettes[ia].shades), ja);
        lemma_repeat_excludes_distinct(keys(palettes[ib].shades), jb);
        assert(ia == ib);
        lemma_first_repeat_is_unique(keys(palettes[ia].shades), ja, jb);
    } else {
        lemma_rest_of_first_fault_is_unique(design_system, a, b);
    }
}

/// The same for a design system whose palettes have no fault.
proof fn lemma_rest_of_first_fault_is_unique(
    design_system: DesignSystemView,
    a: CompileErrorView,
    b: CompileErrorView,
)
    requires
        design_system.first_fault(a),
        design_system.first_fault(b),
        all_distinct(design_system.palette_names()),
        design_system.shades_distinct(design_system.palettes.len() as int),
    ensures
        a == b,
{
    let palettes = design_system.palettes;
    let spaces = keys(design_system.spaces);
    let themes = design_system.theme_names();
    assert(!(a is Validation && a->Validation_0 is DuplicatePalette)) by {
        if a is Validation && a->Validation_0 is DuplicatePalette {
            let j = choose|j: int| first_repeat(design_system.palette_names(), j);
            lemma_repeat_excludes_distinct(design_system.palette_names(), j);
        }
    }
    assert(!(b is Validation && b->Validation_0 is DuplicatePalette)) by {
        if b is Validation && b->Validation_0 is DuplicatePalette {
            let j = choose|j: int| first_repeat(design_system.palette_names(), j);
            lemma_repeat_excludes_distinct(design_system.palette_names(), j);
        }
    }
    assert(!(a is Validation && a->Validation_0 is DuplicateShade)) by {
        if a is Validation && a->Validation_0 is DuplicateShade {
            let (i, j) = choose|i: int, j: int|
                0 <= i < palettes.len() && first_repeat(keys(palettes[i].shades), j);
            lemma_repeat_excludes_distinct(keys(palettes[i].shades), j);
        }
    }
    assert(!(b is Validation && b->Validation_0 is DuplicateShade)) by {
        if b is Validation && b->Validation_0 is DuplicateShade {
            let (i, j) = choose|i: int, j: int|
                0 <= i < palettes.len() && first_repeat(keys(palettes[i].shades), j);
            lemma_repeat_excludes_distinct(keys(palettes[i].shades), j);
        }
    }
    if exists|j: int| first_repeat(spaces, j) {
        let j = choose|j: int| first_repeat(spaces, j);
        lemma_repeat_excludes_distinct(spaces, j);
        assert(a is Validation && a->Validation_0 is DuplicateSpace);
        assert(b is Validation && b->Validation_0 is DuplicateSpace);
        let ja = choose|k: int|
            first_repeat(spaces, k) && a->Validation_0->DuplicateSpace_0 == design_system.spaces[k].0;
        let jb = choose|k: int|
            first_repeat(spaces, k) && b->Validation_0->DuplicateSpace_0 == design_system.spaces[k].0;
        lemma_first_repeat_is_unique(spaces, ja, jb);
    } else if exists|j: int| first_repeat(themes, j) {
        let j = choose|j: int| first_repeat(themes, j);
        lemma_repeat_excludes_distinct(themes, j);
        assert(a is Validation && a->Validation_0 is DuplicateTheme);
        assert(b is Validation && b->Validation_0 is DuplicateTheme);
        let ja = choose|k: int|
            first_repeat(themes, k) && a->Validation_0->DuplicateTheme_0 == themes[k];
        let jb = choose|k: int|
            first_repeat(themes, k) && b->Validation_0->DuplicateTheme_0 == themes[k];
        lemma_first_repeat_is_unique(themes, ja, jb);
    } else if design_system.missing() is Some {
        lemma_themes_missing_nothing(design_system.themes);
        assert(!design_system.complete());
        assert(a is Validation && a->Validation_0 is MissingReference);
        assert(b is Validation && b->Validation_0 is MissingReference);
    } else {
        assert(a is Reference);
        assert(b is Reference);
        let references = design_system.references();
        let primitives = design_system.primitives();
        let ka = choose|k: int|
            {
                &&& 0 <= k < references.len()
                &&& references[k] == (a->token, a->target)
                &&& !primitives.resolves(a->target)
                &&& forall|m: int|
                    0 <= m < k ==> primitives.resolves((#[trigger] references[m]).1)
            };
        let kb = choose|k: int|
            {
                &&& 0 <= k < references.len()
                &&& references[k] == (b->token, b->target)
                &&& !primitives.resolves(b->target)
                &&& forall|m: int|
                    0 <= m < k ==> primitives.resolves((#[trigger] references[m]).1)
            };
        assert(ka == kb) by {
            if ka < kb {
                assert(primitives.resolves(references[ka].1));
            }
            if kb < ka {
                assert(primitives.resolves(references[kb].1));
            }
        }
    }
}

} // verus!
