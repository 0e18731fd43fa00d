use vstd::prelude::*;
use vstd::string::*;
use crate::compiler_service::{
    all_distinct, declared_property, keys, state_references, themes_references,
};
use crate::text::{
    contains_text, join_lines, lemma_contains_in_context, lemma_contains_itself,
    lemma_contains_transitive, lemma_join_lines_contains, lemma_join_lines_of_two, occurs_at,
};
use crate::workspace_domain::design_system_domain::{
    ColorPaletteView, ColorSetView, ColorStateView, ColorThemeView, DesignSystem,
    DesignSystemView, EffectView, PrimitivesView, TokensView,
};
use crate::workspace_domain::design_system_to_stylesheet_domain::{
    background_rule, border_rules, border_selector, border_sides, class_state_headers, css_rule,
    dark_scope, dark_scope_opening, darks, declaration, declarations,
    gradient_border_declarations, is_gradient, join_streams, light_scope, lights,
    optional_state_fragments, palette_prefix, single_color_prefix, solid_border_declarations,
    space_prefix, text_color_rule, theme_declarations, theme_selector, StylesheetLightDarkView,
    ToStylesheet,
};

verus! {

/// Compiling is a function of the design system's value: two design systems
/// with the same value have the same stylesheet, so compiling one twice gives
/// the same text twice.
pub proof fn lemma_stylesheet_depends_on_value_alone(a: DesignSystem, b: DesignSystem)
    requires
        a@ == b@,
    ensures
        a.stylesheet() == b.stylesheet(),
{
}

/// Combining pairs is associative on each side.
pub proof fn lemma_combine_is_associative(
    a: StylesheetLightDarkView,
    b: StylesheetLightDarkView,
    c: StylesheetLightDarkView,
)
    ensures
        a.combine(b).combine(c) == a.combine(b.combine(c)),
{
    assert(a.light + "\n"@ + b.light + "\n"@ + c.light =~= a.light + "\n"@ + (b.light + "\n"@
        + c.light));
    assert(a.dark + "\n"@ + b.dark + "\n"@ + c.dark =~= a.dark + "\n"@ + (b.dark + "\n"@ + c.dark));
}

/// Combining any number of pairs keeps their order: one more pair at the end
/// is combined behind the others.
pub proof fn lemma_combine_all_keeps_order(
    pairs: Seq<StylesheetLightDarkView>,
    last: StylesheetLightDarkView,
)
    requires
        pairs.len() > 0,
    ensures
        StylesheetLightDarkView::combine_all(pairs.push(last))
            == StylesheetLightDarkView::combine_all(pairs).combine(last),
{
    let all = pairs.push(last);
    assert(lights(all).drop_last() =~= lights(pairs));
    assert(darks(all).drop_last() =~= darks(pairs));
}

/// What the words that open the dark scope are made of: they begin with the
/// only sign `@`, hold two line feeds, the second as their last sign, and a
/// colon follows the first line feed.
proof fn lemma_opening_signs()
    ensures
        dark_scope_opening().len() == 44,
        dark_scope_opening()[0] == '@',
        forall|k: int| 1 <= k < 44 ==> dark_scope_opening()[k] != '@',
        forall|k: int| 0 <= k < 44 && dark_scope_opening()[k] == '\n' ==> k == 36 || k == 43,
        dark_scope_opening()[37] == ':',
        dark_scope_opening()[43] == '\n',
{
    reveal_strlit("@media (prefers-color-scheme: dark){\n:root{\n");
}

/// Where the opening words begin inside a stream that a line feed and a
/// closing brace follow, they stand in the stream with a line feed behind it.
proof fn lemma_opening_from_stream(stream: Seq<char>, rest: Seq<char>, j: int)
    requires
        0 <= j < stream.len(),
        rest.len() >= 2,
        rest[0] == '\n',
        rest[1] == '}',
        occurs_at(stream + rest, dark_scope_opening(), j),
    ensures
        contains_text(stream + "\n"@, dark_scope_opening()),
{
    lemma_opening_signs();
    reveal_strlit("\n");
    let opening = dark_scope_opening();
    let text = stream + rest;
    let inside = stream.len() - j;
    let found = text.subrange(j, j + 44);
    assert(found == opening);
    if inside >= 44 {
        assert((stream + "\n"@).subrange(j, j + 44) =~= found);
    } else {
        assert(found[inside] == text[stream.len() as int]);
        assert(opening[inside] == '\n');
        if inside == 36 {
            assert(found[37] == text[(stream.len() + 1) as int]);
        } else {
            assert((stream + "\n"@).subrange(j, j + 44) =~= found);
        }
    }
    assert(occurs_at(stream + "\n"@, opening, j));
}

/// The final text holds one dark scope, right behind the closed light scope:
/// the words that open the dark scope stand at that place and nowhere else,
/// unless a stream itself, with the line feed that follows it, holds them.
pub proof fn lemma_one_dark_scope(streams: StylesheetLightDarkView, i: int)
    requires
        !contains_text(streams.light + "\n"@, dark_scope_opening()),
        !contains_text(streams.dark + "\n"@, dark_scope_opening()),
    ensures
        occurs_at(join_streams(streams), dark_scope_opening(), i) <==> i == light_scope(
            streams.light,
        ).len() + 1,
{
    lemma_opening_signs();
    reveal_strlit(":root{\n");
    reveal_strlit("\n}");
    reveal_strlit("\n");
    reveal_strlit("\n}\n}");
    let opening = dark_scope_opening();
    let text = join_streams(streams);
    let light = streams.light;
    let dark = streams.dark;
    let place: int = (7 + light.len() + 3) as int;
    let after_light = "\n}"@ + "\n"@ + opening + dark + "\n}\n}"@;
    let after_dark = "\n}\n}"@;
    assert(text =~= ":root{\n"@ + (light + after_light));
    assert(text =~= ":root{\n"@ + light + "\n}"@ + "\n"@ + opening + (dark + after_dark));
    assert(text.subrange(place, place + 44) =~= opening);
    if occurs_at(text, opening, i) && i != place {
        let found = text.subrange(i, i + 44);
        assert(found[0] == text[i]);
        assert(text[i] == '@');
        if i < 7 {
            assert(text[i] == ":root{\n"@[i]);
        } else if i < 7 + light.len() {
            assert((light + after_light).subrange(i - 7, i - 7 + 44) =~= found);
            lemma_opening_from_stream(light, after_light, i - 7);
        } else if i < place {
            assert(text[i] == "\n}\n"@[i - 7 - light.len()]) by {
                reveal_strlit("\n}\n");
            }
        } else if i < place + 44 {
            assert(text[i] == opening[i - place]);
        } else if i < place + 44 + dark.len() {
            assert((dark + after_dark).subrange(i - place - 44, i - place) =~= found);
            lemma_opening_from_stream(dark, after_dark, i - place - 44);
        } else {
            assert(text[i] == "\n}\n}"@[i - place - 44 - dark.len()]);
        }
    }
}

/// The other way round: where a stream, with the line feed that follows it,
/// holds the words that open the dark scope, the final text holds them at a
/// second place as well.
pub proof fn lemma_second_dark_scope(streams: StylesheetLightDarkView)
    requires
        contains_text(streams.light + "\n"@, dark_scope_opening()) || contains_text(
            streams.dark + "\n"@,
            dark_scope_opening(),
        ),
    ensures
        exists|i: int|
            i != light_scope(streams.light).len() + 1 && occurs_at(
                join_streams(streams),
                dark_scope_opening(),
                i,
            ),
{
    lemma_opening_signs();
    reveal_strlit(":root{\n");
    reveal_strlit("\n}");
    reveal_strlit("\n");
    reveal_strlit("\n}\n}");
    let opening = dark_scope_opening();
    let text = join_streams(streams);
    let light = streams.light;
    let dark = streams.dark;
    let place: int = (7 + light.len() + 3) as int;
    assert(text =~= ":root{\n"@ + light + "\n}"@ + "\n"@ + opening + dark + "\n}\n}"@);
    if contains_text(light + "\n"@, opening) {
        let j = choose|j: int| occurs_at(light + "\n"@, opening, j);
        assert(text.subrange(7 + j, 7 + j + 44) =~= (light + "\n"@).subrange(j, j + 44));
        assert(occurs_at(text, opening, 7 + j));
    } else {
        let j = choose|j: int| occurs_at(dark + "\n"@, opening, j);
        assert(text.subrange(place + 44 + j, place + 44 + j + 44) =~= (dark + "\n"@).subrange(
            j,
            j + 44,
        ));
        assert(occurs_at(text, opening, place + 44 + j));
    }
}

/// The rules of the five border variants follow the marker of the reference:
/// a reference that names a gradient gives the declarations of a gradient
/// border on all sides at once and on each side, any other those of a
/// plain border.
pub proof fn lemma_border_rules_follow_the_marker(
    token: Seq<char>,
    class_prefix: Seq<char>,
    theme_name: Seq<char>,
    class_sufix: Seq<char>,
    side: int,
)
    requires
        0 <= side < 5,
    ensures
        border_rules(token, class_prefix, theme_name, class_sufix).len() == 5,
        is_gradient(token) ==> border_rules(token, class_prefix, theme_name, class_sufix)[side]
            == css_rule(
            border_selector(border_sides()[side], class_prefix, class_sufix, theme_name),
            gradient_border_declarations(border_sides()[side], token),
        ),
        !is_gradient(token) ==> border_rules(token, class_prefix, theme_name, class_sufix)[side]
            == css_rule(
            border_selector(border_sides()[side], class_prefix, class_sufix, theme_name),
            solid_border_declarations(border_sides()[side], token),
        ),
{
}

impl DesignSystemView {
    /// The design system with every dark variant taken out: no dark base
    /// colours, no dark colours of a theme, no dark value of an effect.
    pub open spec fn without_dark(self) -> DesignSystemView {
        DesignSystemView {
            tokens: TokensView {
                dark_default_single_tokens: None,
                colors_themes: Seq::new(
                    self.tokens.colors_themes.len(),
                    |i: int| ColorThemeView { dark: None, ..self.tokens.colors_themes[i] },
                ),
                effects: Seq::new(
                    self.tokens.effects.len(),
                    |i: int| EffectView { dark: None, ..self.tokens.effects[i] },
                ),
                ..self.tokens
            },
            ..self
        }
    }
}

/// No dark variant reaches the light stream: the light stream is that of the
/// design system without its dark variants. So two design systems that
/// differ only in dark variants have the same text before the dark scope.
pub proof fn lemma_light_stream_ignores_dark(design_system: DesignSystemView)
    ensures
        design_system.light_stream() == design_system.without_dark().light_stream(),
{
    let tokens = design_system.tokens;
    let plain = design_system.without_dark().tokens;
    assert(lights(Seq::new(tokens.colors_themes.len(), |i: int| tokens.colors_themes[i].stylesheet()))
        =~= lights(
        Seq::new(plain.colors_themes.len(), |i: int| plain.colors_themes[i].stylesheet()),
    ));
    assert(lights(Seq::new(tokens.effects.len(), |i: int| tokens.effects[i].stylesheet()))
        =~= lights(Seq::new(plain.effects.len(), |i: int| plain.effects[i].stylesheet())));
}

/// What stands in the light stream stands in the light scope, and so in the
/// final text.
pub proof fn lemma_light_part_in_final_text(streams: StylesheetLightDarkView, part: Seq<char>)
    requires
        contains_text(streams.light, part),
    ensures
        contains_text(light_scope(streams.light), part),
        contains_text(join_streams(streams), part),
{
    lemma_contains_in_context(":root{\n"@, streams.light, "\n}"@, part);
    lemma_contains_in_context(
        Seq::empty(),
        light_scope(streams.light),
        "\n"@ + dark_scope(streams.dark),
        part,
    );
    assert(Seq::<char>::empty() + light_scope(streams.light) + ("\n"@ + dark_scope(streams.dark))
        =~= join_streams(streams));
}

/// What stands in the dark stream stands in the dark scope, and so in the
/// final text.
pub proof fn lemma_dark_part_in_final_text(streams: StylesheetLightDarkView, part: Seq<char>)
    requires
        contains_text(streams.dark, part),
    ensures
        contains_text(dark_scope(streams.dark), part),
        contains_text(join_streams(streams), part),
{
    lemma_contains_in_context(dark_scope_opening(), streams.dark, "\n}\n}"@, part);
    lemma_contains_in_context(
        light_scope(streams.light) + "\n"@,
        dark_scope(streams.dark),
        Seq::empty(),
        part,
    );
}

/// What stands in the light stream of a design system stands in its light
/// scope, and so in its stylesheet.
proof fn lemma_light_stream_in_scope(design_system: DesignSystemView, part: Seq<char>)
    requires
        contains_text(design_system.light_stream(), part),
    ensures
        contains_text(light_scope(design_system.light_stream()), part),
        contains_text(design_system.stylesheet(), part),
{
    lemma_light_part_in_final_text(design_system.streams(), part);
}

/// What stands in the first of two texts joined by a line feed stands in
/// the whole.
pub proof fn lemma_in_first_of_two(first: Seq<char>, second: Seq<char>, part: Seq<char>)
    requires
        contains_text(first, part),
    ensures
        contains_text(first + "\n"@ + second, part),
{
    lemma_contains_in_context(Seq::empty(), first, "\n"@ + second, part);
    assert(Seq::<char>::empty() + first + ("\n"@ + second) =~= first + "\n"@ + second);
}

/// What stands in the second of two texts joined by a line feed stands in
/// the whole.
pub proof fn lemma_in_second_of_two(first: Seq<char>, second: Seq<char>, part: Seq<char>)
    requires
        contains_text(second, part),
    ensures
        contains_text(first + "\n"@ + second, part),
{
    lemma_contains_in_context(first + "\n"@, second, Seq::empty(), part);
}

/// What stands in the fragment of the primitives stands in the light stream.
proof fn lemma_primitives_in_light_stream(design_system: DesignSystemView, part: Seq<char>)
    requires
        contains_text(design_system.primitives.stylesheet(), part),
    ensures
        contains_text(design_system.light_stream(), part),
{
    lemma_in_first_of_two(
        design_system.primitives.stylesheet(),
        design_system.tokens.stylesheet().light,
        part,
    );
}

/// What stands in the light fragment of the tokens stands in the light stream.
proof fn lemma_tokens_in_light_stream(design_system: DesignSystemView, part: Seq<char>)
    requires
        contains_text(design_system.tokens.stylesheet().light, part),
    ensures
        contains_text(design_system.light_stream(), part),
{
    lemma_in_second_of_two(
        design_system.primitives.stylesheet(),
        design_system.tokens.stylesheet().light,
        part,
    );
}

/// Every shade of every palette has its declaration in the fragment of the
/// primitives: the fragment of a palette holds one declaration per shade, in
/// the order of the shades.
pub proof fn lemma_shade_in_primitives(primitives: PrimitivesView, i: int, j: int)
    requires
        0 <= i < primitives.color_palettes.len(),
        0 <= j < primitives.color_palettes[i].shades.len(),
    ensures
        ({
            let palette = primitives.color_palettes[i];
            let lines = declarations(palette_prefix(palette.palette_name), palette.shades);
            &&& lines.len() == palette.shades.len()
            &&& lines[j] == declaration(
                palette_prefix(palette.palette_name),
                palette.shades[j].0,
                palette.shades[j].1,
            )
            &&& contains_text(primitives.stylesheet(), lines[j])
        }),
{
    let palette = primitives.color_palettes[i];
    let lines = declarations(palette_prefix(palette.palette_name), palette.shades);
    let line = lines[j];
    lemma_join_lines_contains(lines, j);
    lemma_join_lines_contains(primitives.palette_fragments(), i);
    lemma_contains_transitive(join_lines(primitives.palette_fragments()), palette.stylesheet(), line);
    lemma_in_first_of_two(
        join_lines(primitives.palette_fragments()),
        join_lines(declarations(single_color_prefix(), primitives.single_colors)),
        line,
    );
    lemma_in_first_of_two(
        join_lines(primitives.palette_fragments()) + "\n"@ + join_lines(
            declarations(single_color_prefix(), primitives.single_colors),
        ),
        join_lines(declarations(space_prefix(), primitives.space)),
        line,
    );
}

/// Every standalone colour has its declaration in the fragment of the
/// primitives; there is one declaration per colour, in order.
pub proof fn lemma_single_color_in_primitives(primitives: PrimitivesView, k: int)
    requires
        0 <= k < primitives.single_colors.len(),
    ensures
        ({
            let lines = declarations(single_color_prefix(), primitives.single_colors);
            &&& lines.len() == primitives.single_colors.len()
            &&& lines[k] == declaration(
                single_color_prefix(),
                primitives.single_colors[k].0,
                primitives.single_colors[k].1,
            )
            &&& contains_text(primitives.stylesheet(), lines[k])
        }),
{
    let lines = declarations(single_color_prefix(), primitives.single_colors);
    let line = lines[k];
    lemma_join_lines_contains(lines, k);
    lemma_in_second_of_two(join_lines(primitives.palette_fragments()), join_lines(lines), line);
    lemma_in_first_of_two(
        join_lines(primitives.palette_fragments()) + "\n"@ + join_lines(lines),
        join_lines(declarations(space_prefix(), primitives.space)),
        line,
    );
}

/// Every spacing step has its declaration in the fragment of the
/// primitives; there is one declaration per step, in order.
pub proof fn lemma_space_in_primitives(primitives: PrimitivesView, k: int)
    requires
        0 <= k < primitives.space.len(),
    ensures
        ({
            let lines = declarations(space_prefix(), primitives.space);
            &&& lines.len() == primitives.space.len()
            &&& lines[k] == declaration(space_prefix(), primitives.space[k].0, primitives.space[k].1)
            &&& contains_text(primitives.stylesheet(), lines[k])
        }),
{
    let lines = declarations(space_prefix(), primitives.space);
    let line = lines[k];
    lemma_join_lines_contains(lines, k);
    lemma_in_second_of_two(
        join_lines(primitives.palette_fragments()) + "\n"@ + join_lines(
            declarations(single_color_prefix(), primitives.single_colors),
        ),
        join_lines(lines),
        line,
    );
}

/// The declarations of all shades of `palettes`, palette by palette.
pub open spec fn palette_declarations(palettes: Seq<ColorPaletteView>) -> Seq<Seq<char>>
    decreases palettes.len(),
{
    if palettes.len() == 0 {
        Seq::empty()
    } else {
        palette_declarations(palettes.drop_last()) + declarations(
            palette_prefix(palettes.last().palette_name),
            palettes.last().shades,
        )
    }
}

/// The number of shades of `palettes`.
pub open spec fn shade_count(palettes: Seq<ColorPaletteView>) -> nat
    decreases palettes.len(),
{
    if palettes.len() == 0 {
        0
    } else {
        shade_count(palettes.drop_last()) + palettes.last().shades.len()
    }
}

impl PrimitivesView {
    /// The declarations of all primitive values: shades, standalone colours,
    /// spacing steps.
    pub open spec fn all_declarations(self) -> Seq<Seq<char>> {
        palette_declarations(self.color_palettes) + declarations(
            single_color_prefix(),
            self.single_colors,
        ) + declarations(space_prefix(), self.space)
    }

    /// Whether no palette is without shades and there is at least one
    /// palette, one standalone colour and one spacing step.
    pub open spec fn nowhere_empty(self) -> bool {
        &&& self.color_palettes.len() > 0
        &&& forall|i: int|
            0 <= i < self.color_palettes.len() ==> (#[trigger] self.color_palettes[i]).shades.len()
                > 0
        &&& self.single_colors.len() > 0
        &&& self.space.len() > 0
    }
}

/// The fragments of palettes that all have shades, joined, are the
/// declarations of all their shades, joined; there is one declaration per
/// shade.
proof fn lemma_palettes_are_their_declarations(primitives: PrimitivesView, n: int)
    requires
        0 < n <= primitives.color_palettes.len(),
        forall|i: int|
            0 <= i < primitives.color_palettes.len() ==> (
            #[trigger] primitives.color_palettes[i]).shades.len() > 0,
    ensures
        join_lines(primitives.palette_fragments().take(n)) == join_lines(
            palette_declarations(primitives.color_palettes.take(n)),
        ),
        palette_declarations(primitives.color_palettes.take(n)).len() == shade_count(
            primitives.color_palettes.take(n),
        ),
        palette_declarations(primitives.color_palettes.take(n)).len() > 0,
    decreases n,
{
    let palettes = primitives.color_palettes.take(n);
    let fragments = primitives.palette_fragments().take(n);
    let last = primitives.color_palettes[n - 1];
    let lines = declarations(palette_prefix(last.palette_name), last.shades);
    assert(palettes.last() == last);
    assert(palettes.drop_last() =~= primitives.color_palettes.take(n - 1));
    assert(fragments.last() == join_lines(lines));
    assert(fragments.drop_last() =~= primitives.palette_fragments().take(n - 1));
    assert(lines.len() == last.shades.len());
    assert(palette_declarations(palettes) == palette_declarations(palettes.drop_last()) + lines);
    assert(shade_count(palettes) == shade_count(palettes.drop_last()) + last.shades.len());
    if n == 1 {
        assert(palette_declarations(palettes.drop_last()) =~= Seq::empty());
        assert(shade_count(palettes.drop_last()) == 0);
        assert(palette_declarations(palettes) =~= lines);
    } else {
        lemma_palettes_are_their_declarations(primitives, n - 1);
        lemma_join_lines_of_two(palette_declarations(palettes.drop_last()), lines);
    }
}

/// Where no section of the primitives is empty, their fragment is nothing
/// but one declaration per shade, standalone colour and spacing step, each
/// on a line of its own and in the order of the design system. (An empty
/// section leaves an empty line instead.)
pub proof fn lemma_primitives_are_their_declarations(primitives: PrimitivesView)
    requires
        primitives.nowhere_empty(),
    ensures
        primitives.stylesheet() == join_lines(primitives.all_declarations()),
        primitives.all_declarations().len() == shade_count(primitives.color_palettes)
            + primitives.single_colors.len() + primitives.space.len(),
{
    let n = primitives.color_palettes.len() as int;
    lemma_palettes_are_their_declarations(primitives, n);
    assert(primitives.color_palettes.take(n) =~= primitives.color_palettes);
    assert(primitives.palette_fragments().take(n) =~= primitives.palette_fragments());
    let shades = palette_declarations(primitives.color_palettes);
    let colors = declarations(single_color_prefix(), primitives.single_colors);
    let steps = declarations(space_prefix(), primitives.space);
    lemma_join_lines_of_two(shades, colors);
    lemma_join_lines_of_two(shades + colors, steps);
}

/// Every shade of every palette is declared in the light scope, under the
/// custom property made of the palette's name and the shade's label.
pub proof fn lemma_shade_is_declared(design_system: DesignSystemView, i: int, j: int)
    requires
        0 <= i < design_system.primitives.color_palettes.len(),
        0 <= j < design_system.primitives.color_palettes[i].shades.len(),
    ensures
        ({
            let palette = design_system.primitives.color_palettes[i];
            let line = declaration(
                palette_prefix(palette.palette_name),
                palette.shades[j].0,
                palette.shades[j].1,
            );
            &&& contains_text(light_scope(design_system.light_stream()), line)
            &&& contains_text(design_system.stylesheet(), line)
        }),
{
    let palette = design_system.primitives.color_palettes[i];
    let line = declarations(palette_prefix(palette.palette_name), palette.shades)[j];
    lemma_shade_in_primitives(design_system.primitives, i, j);
    lemma_primitives_in_light_stream(design_system, line);
    lemma_light_stream_in_scope(design_system, line);
}

/// Every standalone colour is declared in the light scope, under the custom
/// property made of its name.
pub proof fn lemma_single_color_is_declared(design_system: DesignSystemView, k: int)
    requires
        0 <= k < design_system.primitives.single_colors.len(),
    ensures
        ({
            let colors = design_system.primitives.single_colors;
            let line = declaration(single_color_prefix(), colors[k].0, colors[k].1);
            &&& contains_text(light_scope(design_system.light_stream()), line)
            &&& contains_text(design_system.stylesheet(), line)
        }),
{
    let line = declarations(single_color_prefix(), design_system.primitives.single_colors)[k];
    lemma_single_color_in_primitives(design_system.primitives, k);
    lemma_primitives_in_light_stream(design_system, line);
    lemma_light_stream_in_scope(design_system, line);
}

/// Every spacing step is declared in the light scope, under the custom
/// property made of its key.
pub proof fn lemma_space_is_declared(design_system: DesignSystemView, k: int)
    requires
        0 <= k < design_system.primitives.space.len(),
    ensures
        ({
            let steps = design_system.primitives.space;
            let line = declaration(space_prefix(), steps[k].0, steps[k].1);
            &&& contains_text(light_scope(design_system.light_stream()), line)
            &&& contains_text(design_system.stylesheet(), line)
        }),
{
    let line = declarations(space_prefix(), design_system.primitives.space)[k];
    lemma_space_in_primitives(design_system.primitives, k);
    lemma_primitives_in_light_stream(design_system, line);
    lemma_light_stream_in_scope(design_system, line);
}

/// The rule of the class that sets background and text colour of a theme
/// in one interaction state, in one of the two selector forms.
pub open spec fn theme_rule(
    colors: ColorStateView,
    theme_name: Seq<char>,
    state: Option<Seq<char>>,
    by_class: bool,
) -> Seq<char> {
    css_rule(
        theme_selector(
            class_state_headers(state, by_class).0,
            "theme-"@,
            theme_name,
            class_state_headers(state, by_class).1,
        ),
        theme_declarations(colors.bg, colors.text),
    )
}

/// The two selectors of the active state, spelled out: the escaped class
/// bound to the pseudo-class, and the plain class beside the class `active`.
pub proof fn lemma_active_selectors(theme_name: Seq<char>)
    ensures
        theme_selector(
            class_state_headers(Some("active"@), false).0,
            "theme-"@,
            theme_name,
            class_state_headers(Some("active"@), false).1,
        ) == ".\\active\\:theme-"@ + theme_name + ":active"@,
        theme_selector(
            class_state_headers(Some("active"@), true).0,
            "theme-"@,
            theme_name,
            class_state_headers(Some("active"@), true).1,
        ) == ".active.theme-"@ + theme_name,
{
    reveal_strlit(".\\");
    reveal_strlit("active");
    reveal_strlit("\\:");
    reveal_strlit("theme-");
    reveal_strlit(":");
    reveal_strlit(".");
    reveal_strlit(":active");
    reveal_strlit(".\\active\\:theme-");
    reveal_strlit(".active.theme-");
    assert(".\\"@ + "active"@ + "\\:"@ + "theme-"@ =~= ".\\active\\:theme-"@);
    assert(":"@ + "active"@ =~= ":active"@);
    assert("."@ + "active"@ + "."@ + "theme-"@ =~= ".active.theme-"@);
    assert(".\\"@ + "active"@ + "\\:"@ + "theme-"@ + theme_name + (":"@ + "active"@)
        =~= ".\\active\\:theme-"@ + theme_name + ":active"@);
    assert("."@ + "active"@ + "."@ + "theme-"@ + theme_name + Seq::<char>::empty()
        =~= ".active.theme-"@ + theme_name);
}

/// The rule that sets background and text colour stands in the fragment of
/// its state.
pub proof fn lemma_theme_rule_in_state(
    colors: ColorStateView,
    theme_name: Seq<char>,
    state: Option<Seq<char>>,
    by_class: bool,
)
    ensures
        contains_text(
            colors.stylesheet(theme_name, state, by_class),
            theme_rule(colors, theme_name, state, by_class),
        ),
{
    let rule = theme_rule(colors, theme_name, state, by_class);
    let class_prefix = class_state_headers(state, by_class).0;
    let class_sufix = class_state_headers(state, by_class).1;
    let empty = Seq::<char>::empty();
    lemma_contains_itself(rule);
    let first = rule + "\n        "@;
    lemma_contains_in_context(empty, rule, "\n        "@, rule);
    let second = first + background_rule(colors.bg, class_prefix, theme_name, class_sufix);
    lemma_contains_in_context(
        empty,
        first,
        background_rule(colors.bg, class_prefix, theme_name, class_sufix),
        rule,
    );
    let third = second + "\n"@;
    lemma_contains_in_context(empty, second, "\n"@, rule);
    let fourth = third + text_color_rule(colors.text, class_prefix, theme_name, class_sufix);
    lemma_contains_in_context(
        empty,
        third,
        text_color_rule(colors.text, class_prefix, theme_name, class_sufix),
        rule,
    );
    let fifth = fourth + "\n"@;
    lemma_contains_in_context(empty, fourth, "\n"@, rule);
    lemma_contains_in_context(
        empty,
        fifth,
        join_lines(border_rules(colors.border, class_prefix, theme_name, class_sufix)),
        rule,
    );
}

/// A set with an active state holds the fragment of that state twice, once
/// under the escaped selectors and once under the plain ones; both are
/// written from the same colours, so that their declarations agree. Each
/// begins with the rule that sets background and text colour.
pub proof fn lemma_active_state_in_set(colors: ColorSetView, theme_name: Seq<char>)
    requires
        colors.active is Some,
    ensures
        contains_text(
            colors.stylesheet(theme_name),
            (colors.active->0).stylesheet(theme_name, Some("active"@), false),
        ),
        contains_text(
            colors.stylesheet(theme_name),
            (colors.active->0).stylesheet(theme_name, Some("active"@), true),
        ),
        contains_text(
            colors.stylesheet(theme_name),
            theme_rule(colors.active->0, theme_name, Some("active"@), false),
        ),
        contains_text(
            colors.stylesheet(theme_name),
            theme_rule(colors.active->0, theme_name, Some("active"@), true),
        ),
{
    let active = colors.active->0;
    let fragments = colors.state_fragments(theme_name);
    let before = seq![colors.default.stylesheet(theme_name, None, false)]
        + optional_state_fragments(colors.hover, theme_name, "hover"@, false);
    let place = before.len() as int;
    assert(fragments[place] == active.stylesheet(theme_name, Some("active"@), false));
    assert(fragments[place + 1] == active.stylesheet(theme_name, Some("active"@), true));
    lemma_join_lines_contains(fragments, place);
    lemma_join_lines_contains(fragments, place + 1);
    lemma_theme_rule_in_state(active, theme_name, Some("active"@), false);
    lemma_theme_rule_in_state(active, theme_name, Some("active"@), true);
    lemma_contains_transitive(
        colors.stylesheet(theme_name),
        fragments[place],
        theme_rule(active, theme_name, Some("active"@), false),
    );
    lemma_contains_transitive(
        colors.stylesheet(theme_name),
        fragments[place + 1],
        theme_rule(active, theme_name, Some("active"@), true),
    );
}

/// The light fragment of each theme stands in the light scope.
pub proof fn lemma_theme_in_light_scope(design_system: DesignSystemView, t: int)
    requires
        0 <= t < design_system.tokens.colors_themes.len(),
    ensures
        contains_text(
            light_scope(design_system.light_stream()),
            design_system.tokens.colors_themes[t].stylesheet().light,
        ),
        contains_text(
            design_system.stylesheet(),
            design_system.tokens.colors_themes[t].stylesheet().light,
        ),
{
    let tokens = design_system.tokens;
    let part = tokens.colors_themes[t].stylesheet().light;
    let pairs = Seq::new(tokens.colors_themes.len(), |i: int| tokens.colors_themes[i].stylesheet());
    assert(lights(pairs)[t] == part);
    lemma_join_lines_contains(lights(pairs), t);
    let sections = Seq::empty().push(tokens.base_stylesheet().light).push(
        tokens.themes_stylesheet().light,
    ).push(tokens.text_tokens.stylesheet()).push(tokens.radius_tokens.stylesheet()).push(
        tokens.space_tokens.stylesheet(),
    ).push(tokens.effects_stylesheet().light);
    assert(sections[1] == tokens.themes_stylesheet().light);
    lemma_join_lines_contains(sections, 1);
    lemma_contains_transitive(tokens.stylesheet().light, tokens.themes_stylesheet().light, part);
    lemma_tokens_in_light_stream(design_system, part);
    lemma_light_stream_in_scope(design_system, part);
}

/// For a theme whose light colours define an active state, the stylesheet
/// holds the rule of that state under the escaped selector and under the
/// plain selector `.active.theme-<name>`, both with the same declarations,
/// and with each the utility classes of the state under selectors of the
/// same form.
pub proof fn lemma_active_state_has_both_selectors(design_system: DesignSystemView, t: int)
    requires
        0 <= t < design_system.tokens.colors_themes.len(),
        design_system.tokens.colors_themes[t].light.active is Some,
    ensures
        ({
            let theme = design_system.tokens.colors_themes[t];
            let declarations = theme_declarations(
                (theme.light.active->0).bg,
                (theme.light.active->0).text,
            );
            &&& contains_text(
                design_system.stylesheet(),
                css_rule(".\\active\\:theme-"@ + theme.theme_name + ":active"@, declarations),
            )
            &&& contains_text(
                design_system.stylesheet(),
                css_rule(".active.theme-"@ + theme.theme_name, declarations),
            )
            &&& contains_text(
                design_system.stylesheet(),
                (theme.light.active->0).stylesheet(theme.theme_name, Some("active"@), false),
            )
            &&& contains_text(
                design_system.stylesheet(),
                (theme.light.active->0).stylesheet(theme.theme_name, Some("active"@), true),
            )
        }),
{
    let theme = design_system.tokens.colors_themes[t];
    lemma_active_selectors(theme.theme_name);
    lemma_active_state_in_set(theme.light, theme.theme_name);
    lemma_theme_in_light_scope(design_system, t);
    lemma_contains_transitive(
        design_system.stylesheet(),
        theme.stylesheet().light,
        (theme.light.active->0).stylesheet(theme.theme_name, Some("active"@), false),
    );
    lemma_contains_transitive(
        design_system.stylesheet(),
        theme.stylesheet().light,
        (theme.light.active->0).stylesheet(theme.theme_name, Some("active"@), true),
    );
    lemma_contains_transitive(
        design_system.stylesheet(),
        theme.stylesheet().light,
        theme_rule(theme.light.active->0, theme.theme_name, Some("active"@), false),
    );
    lemma_contains_transitive(
        design_system.stylesheet(),
        theme.stylesheet().light,
        theme_rule(theme.light.active->0, theme.theme_name, Some("active"@), true),
    );
}

/// The rule of each border variant stands in the fragment of its state.
pub proof fn lemma_border_rule_in_state(
    colors: ColorStateView,
    theme_name: Seq<char>,
    state: Option<Seq<char>>,
    by_class: bool,
    side: int,
)
    requires
        0 <= side < 5,
    ensures
        contains_text(
            colors.stylesheet(theme_name, state, by_class),
            border_rules(
                colors.border,
                class_state_headers(state, by_class).0,
                theme_name,
                class_state_headers(state, by_class).1,
            )[side],
        ),
{
    let class_prefix = class_state_headers(state, by_class).0;
    let class_sufix = class_state_headers(state, by_class).1;
    let rules = border_rules(colors.border, class_prefix, theme_name, class_sufix);
    let before = css_rule(
        theme_selector(class_prefix, "theme-"@, theme_name, class_sufix),
        theme_declarations(colors.bg, colors.text),
    ) + "\n        "@ + background_rule(colors.bg, class_prefix, theme_name, class_sufix) + "\n"@
        + text_color_rule(colors.text, class_prefix, theme_name, class_sufix) + "\n"@;
    lemma_join_lines_contains(rules, side);
    lemma_contains_in_context(before, join_lines(rules), Seq::empty(), rules[side]);
}

/// The fragment of the default state stands in the fragment of its set.
pub proof fn lemma_default_state_in_set(colors: ColorSetView, theme_name: Seq<char>)
    ensures
        contains_text(
            colors.stylesheet(theme_name),
            colors.default.stylesheet(theme_name, None, false),
        ),
{
    let fragments = colors.state_fragments(theme_name);
    assert(fragments[0] == colors.default.stylesheet(theme_name, None, false));
    lemma_join_lines_contains(fragments, 0);
}

/// For every theme, the stylesheet holds the five border variants of the
/// default state of its light colours.
pub proof fn lemma_border_variants_in_stylesheet(design_system: DesignSystemView, t: int, side: int)
    requires
        0 <= t < design_system.tokens.colors_themes.len(),
        0 <= side < 5,
    ensures
        ({
            let theme = design_system.tokens.colors_themes[t];
            contains_text(
                design_system.stylesheet(),
                border_rules(theme.light.default.border, "."@, theme.theme_name, Seq::empty())[side],
            )
        }),
{
    let theme = design_system.tokens.colors_themes[t];
    let state = theme.light.default;
    let rule = border_rules(state.border, "."@, theme.theme_name, Seq::empty())[side];
    lemma_border_rule_in_state(state, theme.theme_name, None, false, side);
    lemma_default_state_in_set(theme.light, theme.theme_name);
    lemma_contains_transitive(
        theme.stylesheet().light,
        state.stylesheet(theme.theme_name, None, false),
        rule,
    );
    lemma_theme_in_light_scope(design_system, t);
    lemma_contains_transitive(design_system.stylesheet(), theme.stylesheet().light, rule);
}

/// A design system that compiles and whose border reference carries the
/// gradient marker has the declarations of a gradient border on all five
/// variants: for each side, the stylesheet holds the rule with the image
/// slice, the width and the image source taken from the reference.
pub proof fn lemma_gradient_border_in_stylesheet(
    design_system: DesignSystemView,
    t: int,
    side: int,
)
    requires
        design_system.valid(),
        0 <= t < design_system.tokens.colors_themes.len(),
        is_gradient(design_system.tokens.colors_themes[t].light.default.border),
        0 <= side < 5,
    ensures
        ({
            let theme = design_system.tokens.colors_themes[t];
            contains_text(
                design_system.stylesheet(),
                css_rule(
                    border_selector(border_sides()[side], "."@, Seq::empty(), theme.theme_name),
                    gradient_border_declarations(border_sides()[side], theme.light.default.border),
                ),
            )
        }),
{
    lemma_border_variants_in_stylesheet(design_system, t, side);
}

/// A design system that compiles and whose border reference is plain has
/// the one declaration of a solid border on all five variants.
pub proof fn lemma_solid_border_in_stylesheet(design_system: DesignSystemView, t: int, side: int)
    requires
        design_system.valid(),
        0 <= t < design_system.tokens.colors_themes.len(),
        !is_gradient(design_system.tokens.colors_themes[t].light.default.border),
        0 <= side < 5,
    ensures
        ({
            let theme = design_system.tokens.colors_themes[t];
            contains_text(
                design_system.stylesheet(),
                css_rule(
                    border_selector(border_sides()[side], "."@, Seq::empty(), theme.theme_name),
                    solid_border_declarations(border_sides()[side], theme.light.default.border),
                ),
            )
        }),
{
    lemma_border_variants_in_stylesheet(design_system, t, side);
}

/// Every standalone colour can be referred to as a gradient: the reference
/// `--gradient-single-<name>` carries the marker and names the colour.
pub proof fn lemma_single_color_resolves_as_gradient(primitives: PrimitivesView, k: int)
    requires
        0 <= k < primitives.single_colors.len(),
    ensures
        is_gradient("--gradient-single-"@ + primitives.single_colors[k].0),
        primitives.resolves("--gradient-single-"@ + primitives.single_colors[k].0),
        primitives.resolves(single_color_prefix() + primitives.single_colors[k].0),
        !is_gradient(single_color_prefix() + primitives.single_colors[k].0),
{
    reveal_strlit("--gradient");
    reveal_strlit("--gradient-single-");
    reveal_strlit("--color");
    reveal_strlit("--color-single-");
    let name = primitives.single_colors[k].0;
    let reference = "--gradient-single-"@ + name;
    let property = single_color_prefix() + name;
    assert(reference.subrange(0, 10) =~= "--gradient"@);
    assert("--color"@ + reference.skip(10) =~= property);
    assert(primitives.single_color_is(k, property));
    assert(property[2] == 'c');
    assert(property.subrange(0, 10)[2] == 'c');
}

/// Every shade can be referred to as a gradient: the reference
/// `--gradient-<palette>-<label>` carries the marker and names the shade.
pub proof fn lemma_shade_resolves_as_gradient(primitives: PrimitivesView, i: int, j: int)
    requires
        0 <= i < primitives.color_palettes.len(),
        0 <= j < primitives.color_palettes[i].shades.len(),
    ensures
        ({
            let palette = primitives.color_palettes[i];
            let entry = palette.palette_name + "-"@ + palette.shades[j].0;
            &&& is_gradient("--gradient-"@ + entry)
            &&& primitives.resolves("--gradient-"@ + entry)
            &&& primitives.resolves(palette_prefix(palette.palette_name) + palette.shades[j].0)
            &&& !is_gradient(palette_prefix(palette.palette_name) + palette.shades[j].0)
        }),
{
    reveal_strlit("--gradient");
    reveal_strlit("--gradient-");
    reveal_strlit("--color");
    reveal_strlit("--color-");
    let palette = primitives.color_palettes[i];
    let entry = palette.palette_name + "-"@ + palette.shades[j].0;
    let reference = "--gradient-"@ + entry;
    let property = palette_prefix(palette.palette_name) + palette.shades[j].0;
    assert(reference.subrange(0, 10) =~= "--gradient"@);
    assert("--color"@ + reference.skip(10) =~= property);
    assert(primitives.shade_is(i, j, property));
    assert(property[2] == 'c');
    if property.len() >= 10 {
        assert(property.subrange(0, 10)[2] == 'c');
    }
}

/// A reference with the gradient marker resolves exactly where the custom
/// property that reads `--color` in place of the marker is declared.
pub proof fn lemma_gradient_reference_names_its_entry(primitives: PrimitivesView, rest: Seq<char>)
    ensures
        is_gradient("--gradient"@ + rest),
        declared_property("--gradient"@ + rest) == "--color"@ + rest,
        primitives.resolves("--gradient"@ + rest) == primitives.declares_color("--color"@ + rest),
{
    let reference = "--gradient"@ + rest;
    assert(reference.subrange(0, "--gradient"@.len() as int) =~= "--gradient"@);
    assert(reference.skip("--gradient"@.len() as int) =~= rest);
}

/// The design system `other` with one standalone colour and one theme in
/// place of its primitives and themes: the theme has only a default state,
/// whose border refers to the colour as a gradient and whose background and
/// text refer to it as a plain colour.
pub open spec fn with_gradient_border(
    other: DesignSystemView,
    color: (Seq<char>, Seq<char>),
    theme_name: Seq<char>,
) -> DesignSystemView {
    DesignSystemView {
        primitives: PrimitivesView {
            color_palettes: Seq::empty(),
            single_colors: seq![color],
            space: Seq::empty(),
        },
        tokens: TokensView {
            colors_themes: seq![
                ColorThemeView {
                    theme_name,
                    light: ColorSetView {
                        default: ColorStateView {
                            bg: single_color_prefix() + color.0,
                            border: "--gradient-single-"@ + color.0,
                            text: single_color_prefix() + color.0,
                        },
                        hover: None,
                        active: None,
                        focus: None,
                    },
                    dark: None,
                },
            ],
            ..other.tokens
        },
        ..other
    }
}

/// There are design systems that compile and have a gradient border: every
/// design system of the shape of [`with_gradient_border`] is one.
pub proof fn lemma_gradient_border_can_compile(
    other: DesignSystemView,
    color: (Seq<char>, Seq<char>),
    theme_name: Seq<char>,
)
    ensures
        with_gradient_border(other, color, theme_name).valid(),
        is_gradient(
            with_gradient_border(other, color, theme_name).tokens.colors_themes[0].light.default.border,
        ),
{
    let design_system = with_gradient_border(other, color, theme_name);
    let primitives = design_system.primitives;
    let theme = design_system.tokens.colors_themes[0];
    lemma_single_color_resolves_as_gradient(primitives, 0);
    assert(all_distinct(primitives.palette_names()));
    assert(all_distinct(keys(primitives.single_colors)));
    assert(all_distinct(keys(primitives.space)));
    assert(all_distinct(design_system.theme_names()));
    let themes = design_system.tokens.colors_themes;
    assert(themes.drop_last() =~= Seq::empty());
    assert(themes_references(themes.drop_last()) =~= Seq::empty());
    let references = state_references(theme.light.default, theme_name + ".light"@ + ".default"@);
    assert(design_system.references() =~= references);
    assert forall|k: int| 0 <= k < design_system.references().len() implies primitives.resolves(
        (#[trigger] design_system.references()[k]).1,
    ) by {
        assert(k == 0 || k == 1 || k == 2);
    }
}

} // verus!
