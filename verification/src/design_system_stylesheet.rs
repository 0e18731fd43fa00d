use vstd::prelude::*;
use vstd::string::*;
use crate::design_system_domain::{
    Base, BaseView, ColorDarkable, ColorDarkableView, Effect, EffectItem, EffectType, EffectView,
    FontStyle, FontWeight, Fonts, FontsView, Radius, RadiusView, TextDecoration, TextTransform,
    ThemeColor, ThemeColorSet, ThemeColorSetView, ThemeColorView, Typography, TypographyScale,
    TypographyScaleView, TypographySpacing, TypographyView,
};
use crate::reference_resolver::{
    custom_property, resolve_reference, variable_usage, write_variable_usage,
};
use crate::text::{
    join_lines, join_texts, join_with, join_with_newlines, lemma_texts_appended_twice,
    optional_text, push_optional_text, push_text, texts,
};
use crate::workspace_domain::design_system_domain::{
    BackgroundColorToken, BorderColorToken, TextColorToken,
};
use crate::workspace_domain::design_system_to_stylesheet_domain::{
    background_rule, border_rules, class_state_headers, css_rule, get_class_state_headers,
    single_declaration_rule, text_color_rule, theme_selector, StylesheetLightDark,
    StylesheetLightDarkView, ToStylesheet,
};

verus! {

impl FontStyle {
    /// The value of `font-style`.
    pub open spec fn css(self) -> Seq<char> {
        match self {
            FontStyle::Normal => "normal"@,
            FontStyle::Italic => "italic"@,
            FontStyle::Oblique => "oblique"@,
        }
    }

    /// The value of `font-style`.
    pub fn to_css(&self) -> (res: &'static str)
        ensures
            res@ == self.css(),
    {
        match self {
            FontStyle::Normal => "normal",
            FontStyle::Italic => "italic",
            FontStyle::Oblique => "oblique",
        }
    }
}

impl TextTransform {
    /// The value of `text-transform`.
    pub open spec fn css(self) -> Seq<char> {
        match self {
            TextTransform::NoTransform => "none"@,
            TextTransform::Uppercase => "uppercase"@,
            TextTransform::Lowercase => "lowercase"@,
            TextTransform::Capitalize => "capitalize"@,
        }
    }

    /// The value of `text-transform`.
    pub fn to_css(&self) -> (res: &'static str)
        ensures
            res@ == self.css(),
    {
        match self {
            TextTransform::NoTransform => "none",
            TextTransform::Uppercase => "uppercase",
            TextTransform::Lowercase => "lowercase",
            TextTransform::Capitalize => "capitalize",
        }
    }
}

impl TextDecoration {
    /// The value of `text-decoration`.
    pub open spec fn css(self) -> Seq<char> {
        match self {
            TextDecoration::NoDecoration => "none"@,
            TextDecoration::Underline => "underline"@,
            TextDecoration::Overline => "overline"@,
            TextDecoration::LineThrough => "line-through"@,
        }
    }

    /// The value of `text-decoration`.
    pub fn to_css(&self) -> (res: &'static str)
        ensures
            res@ == self.css(),
    {
        match self {
            TextDecoration::NoDecoration => "none",
            TextDecoration::Underline => "underline",
            TextDecoration::Overline => "overline",
            TextDecoration::LineThrough => "line-through",
        }
    }
}

impl FontWeight {
    /// The value of `font-weight`.
    pub open spec fn css(self) -> Seq<char> {
        match self {
            FontWeight::One => "100"@,
            FontWeight::Two => "200"@,
            FontWeight::Three => "300"@,
            FontWeight::Four => "400"@,
            FontWeight::Five => "500"@,
            FontWeight::Six => "600"@,
            FontWeight::Seven => "700"@,
            FontWeight::Eight => "800"@,
            FontWeight::Nine => "900"@,
        }
    }

    /// The value of `font-weight`.
    pub fn to_css(&self) -> (res: &'static str)
        ensures
            res@ == self.css(),
    {
        match self {
            FontWeight::One => "100",
            FontWeight::Two => "200",
            FontWeight::Three => "300",
            FontWeight::Four => "400",
            FontWeight::Five => "500",
            FontWeight::Six => "600",
            FontWeight::Seven => "700",
            FontWeight::Eight => "800",
            FontWeight::Nine => "900",
        }
    }
}

impl TypographySpacing {
    /// The value of `letter-spacing` or `word-spacing`.
    pub open spec fn css(self) -> Seq<char> {
        match self {
            TypographySpacing::MinusTwo => "-0.05em"@,
            TypographySpacing::MinusOne => "-0.02em"@,
            TypographySpacing::Zero => "0em"@,
            TypographySpacing::One => "0.1em"@,
            TypographySpacing::Two => "0.2em"@,
            TypographySpacing::Three => "0.3em"@,
        }
    }

    /// The value of `letter-spacing` or `word-spacing`.
    pub fn to_css(&self) -> (res: &'static str)
        ensures
            res@ == self.css(),
    {
        match self {
            TypographySpacing::MinusTwo => "-0.05em",
            TypographySpacing::MinusOne => "-0.02em",
            TypographySpacing::Zero => "0em",
            TypographySpacing::One => "0.1em",
            TypographySpacing::Two => "0.2em",
            TypographySpacing::Three => "0.3em",
        }
    }
}

impl TypographyScaleView {
    /// The declarations of the scale, one per property.
    pub open spec fn stylesheet(self) -> Seq<char> {
        "font-size:"@ + self.font_size + ";line-height:"@ + self.line_height + ";font-weight:"@
            + self.font_weight.css() + ";letter-spacing:"@ + self.letter_spacing.css()
            + ";word-spacing:"@ + self.word_spacing.css() + ";font-style:"@ + self.font_style.css()
            + ";text-transform:"@ + self.text_transform.css() + ";text-decoration:"@
            + self.text_decoration.css() + ";padding:"@ + self.padding + ";margin:"@ + self.margin
            + ";"@
    }
}

impl ToStylesheet for TypographyScale {
    open spec fn stylesheet(&self) -> Seq<char> {
        self@.stylesheet()
    }

    fn to_stylesheet(&self) -> (res: String) {
        let mut out = String::from_str("font-size:");
        out.append(self.font_size.as_str());
        out.append(";line-height:");
        out.append(self.line_height.as_str());
        out.append(";font-weight:");
        out.append(self.font_weight.to_css());
        out.append(";letter-spacing:");
        out.append(self.letter_spacing.to_css());
        out.append(";word-spacing:");
        out.append(self.word_spacing.to_css());
        out.append(";font-style:");
        out.append(self.font_style.to_css());
        out.append(";text-transform:");
        out.append(self.text_transform.to_css());
        out.append(";text-decoration:");
        out.append(self.text_decoration.to_css());
        out.append(";padding:");
        out.append(self.padding.as_str());
        out.append(";margin:");
        out.append(self.margin.as_str());
        out.append(";");
        out
    }
}

/// The rule of the class of a text scale called `name`.
pub open spec fn scale_rule(name: Seq<char>, scale: TypographyScaleView) -> Seq<char> {
    css_rule(".text-"@ + name, scale.stylesheet())
}

/// Writes the rule of the class of a text scale called `name`.
fn write_scale_rule(name: &str, scale: &TypographyScale) -> (res: String)
    ensures
        res@ == scale_rule(name@, scale@),
{
    let mut selector = String::from_str(".text-");
    selector.append(name);
    let body = scale.to_stylesheet();
    let mut out = selector;
    out.append("{");
    out.append(body.as_str());
    out.append("}");
    out
}

impl TypographyView {
    /// The rules of the fixed scales.
    pub open spec fn fixed_rules(self) -> Seq<Seq<char>> {
        Seq::empty().push(scale_rule("paragraph"@, self.paragraph)).push(
            scale_rule("h1"@, self.h1),
        ).push(scale_rule("h2"@, self.h2)).push(scale_rule("h3"@, self.h3)).push(
            scale_rule("h4"@, self.h4),
        ).push(scale_rule("h5"@, self.h5)).push(scale_rule("h6"@, self.h6)).push(
            scale_rule("small"@, self.small),
        ).push(scale_rule("strong"@, self.strong))
    }

    /// The rules of the named scales, in order.
    pub open spec fn additional_rules(self) -> Seq<Seq<char>> {
        Seq::new(
            self.additionals_scales.len(),
            |i: int| scale_rule(self.additionals_scales[i].0, self.additionals_scales[i].1),
        )
    }

    /// One class per scale: the fixed scales, then the named ones.
    pub open spec fn stylesheet(self) -> Seq<char> {
        join_lines(self.fixed_rules() + self.additional_rules())
    }
}

impl ToStylesheet for Typography {
    open spec fn stylesheet(&self) -> Seq<char> {
        self@.stylesheet()
    }

    fn to_stylesheet(&self) -> (res: String) {
        let mut rules: Vec<String> = Vec::new();
        proof {
            assert(texts(rules@) =~= Seq::empty());
        }
        push_text(&mut rules, write_scale_rule("paragraph", &self.paragraph));
        push_text(&mut rules, write_scale_rule("h1", &self.h1));
        push_text(&mut rules, write_scale_rule("h2", &self.h2));
        push_text(&mut rules, write_scale_rule("h3", &self.h3));
        push_text(&mut rules, write_scale_rule("h4", &self.h4));
        push_text(&mut rules, write_scale_rule("h5", &self.h5));
        push_text(&mut rules, write_scale_rule("h6", &self.h6));
        push_text(&mut rules, write_scale_rule("small", &self.small));
        push_text(&mut rules, write_scale_rule("strong", &self.strong));
        let n: usize = self.additionals_scales.len();
        let mut i: usize = 0;
        proof {
            assert(texts(rules@) =~= self@.fixed_rules() + self@.additional_rules().take(0));
        }
        while i < n
            invariant
                n == self.additionals_scales.len(),
                i <= n,
                texts(rules@) == self@.fixed_rules() + self@.additional_rules().take(i as int),
            decreases n - i,
        {
            let additional = &self.additionals_scales[i];
            let rule = write_scale_rule(additional.scale_name.as_str(), &additional.scale);
            proof {
                assert(self@.additionals_scales[i as int] == additional@);
                assert(self@.additional_rules().take(i + 1) =~= self@.additional_rules().take(
                    i as int,
                ).push(rule@));
                assert(self@.fixed_rules() + self@.additional_rules().take(i as int).push(rule@)
                    =~= (self@.fixed_rules() + self@.additional_rules().take(i as int)).push(
                    rule@,
                ));
            }
            push_text(&mut rules, rule);
            i = i + 1;
        }
        proof {
            assert(self@.additional_rules().take(n as int) =~= self@.additional_rules());
        }
        join_with_newlines(&rules)
    }
}

/// The rule of the class of the font called `name`.
pub open spec fn font_rule(name: Seq<char>, value: Seq<char>) -> Seq<char> {
    single_declaration_rule(".font-"@ + name, "font-family"@, value)
}

/// The rule of the class of the radius called `key`.
pub open spec fn radius_rule(key: Seq<char>, value: Seq<char>) -> Seq<char> {
    single_declaration_rule(".rounded-"@ + key, "border-radius"@, value)
}

/// Writes a rule with one declaration whose selector is made of two parts.
fn write_named_rule(class: &str, name: &str, property: &str, value: &str) -> (res: String)
    ensures
        res@ == single_declaration_rule(class@ + name@, property@, value@),
{
    let mut selector = String::from_str(class);
    selector.append(name);
    let mut body = String::from_str(property);
    body.append(":");
    body.append(value);
    body.append(";");
    let mut out = selector;
    out.append("{");
    out.append(body.as_str());
    out.append("}");
    out
}

impl FontsView {
    /// The rules of the fonts beside the default one, in order.
    pub open spec fn additional_rules(self) -> Seq<Seq<char>> {
        Seq::new(
            self.additionals.len(),
            |i: int| font_rule(self.additionals[i].0, self.additionals[i].1),
        )
    }

    /// The class of the default font, then one class per other font.
    pub open spec fn stylesheet(self) -> Seq<char> {
        join_lines(
            Seq::empty().push(single_declaration_rule(".font-default"@, "font-family"@, self.default))
                + self.additional_rules(),
        )
    }
}

impl ToStylesheet for Fonts {
    open spec fn stylesheet(&self) -> Seq<char> {
        self@.stylesheet()
    }

    fn to_stylesheet(&self) -> (res: String) {
        let ghost first = Seq::<Seq<char>>::empty().push(
            single_declaration_rule(".font-default"@, "font-family"@, self@.default),
        );
        let mut rules: Vec<String> = Vec::new();
        proof {
            assert(texts(rules@) =~= Seq::empty());
        }
        push_text(&mut rules, write_named_rule(".font-", "default", "font-family", self.default.as_str()));
        proof {
            reveal_strlit(".font-");
            reveal_strlit("default");
            reveal_strlit(".font-default");
            assert(".font-"@ + "default"@ =~= ".font-default"@);
            assert(texts(rules@) =~= first + self@.additional_rules().take(0));
        }
        let n: usize = self.additionals.len();
        let mut i: usize = 0;
        while i < n
            invariant
                n == self.additionals.len(),
                i <= n,
                first == Seq::<Seq<char>>::empty().push(
                    single_declaration_rule(".font-default"@, "font-family"@, self@.default),
                ),
                texts(rules@) == first + self@.additional_rules().take(i as int),
            decreases n - i,
        {
            let additional = &self.additionals[i];
            let rule = write_named_rule(
                ".font-",
                additional.font_name.as_str(),
                "font-family",
                additional.value.as_str(),
            );
            proof {
                assert(self@.additionals[i as int] == additional@);
                assert(self@.additional_rules().take(i + 1) =~= self@.additional_rules().take(
                    i as int,
                ).push(rule@));
                assert(first + self@.additional_rules().take(i as int).push(rule@) =~= (first
                    + self@.additional_rules().take(i as int)).push(rule@));
            }
            push_text(&mut rules, rule);
            i = i + 1;
        }
        proof {
            assert(self@.additional_rules().take(n as int) =~= self@.additional_rules());
        }
        join_with_newlines(&rules)
    }
}

impl RadiusView {
    /// The rules of the named radii, in order.
    pub open spec fn additional_rules(self) -> Seq<Seq<char>> {
        Seq::new(
            self.additionals_radius.len(),
            |i: int| radius_rule(self.additionals_radius[i].0, self.additionals_radius[i].1),
        )
    }

    /// The class of the default radius, then one class per named radius.
    pub open spec fn stylesheet(self) -> Seq<char> {
        join_lines(
            Seq::empty().push(single_declaration_rule(".rounded"@, "border-radius"@, self.default))
                + self.additional_rules(),
        )
    }
}

impl ToStylesheet for Radius {
    open spec fn stylesheet(&self) -> Seq<char> {
        self@.stylesheet()
    }

    fn to_stylesheet(&self) -> (res: String) {
        let ghost first = Seq::<Seq<char>>::empty().push(
            single_declaration_rule(".rounded"@, "border-radius"@, self@.default),
        );
        let mut rules: Vec<String> = Vec::new();
        proof {
            assert(texts(rules@) =~= Seq::empty());
        }
        push_text(&mut rules, write_named_rule(".rounded", "", "border-radius", self.default.as_str()));
        proof {
            reveal_strlit("");
            assert(".rounded"@ + ""@ =~= ".rounded"@);
            assert(texts(rules@) =~= first + self@.additional_rules().take(0));
        }
        let n: usize = self.additionals_radius.len();
        let mut i: usize = 0;
        while i < n
            invariant
                n == self.additionals_radius.len(),
                i <= n,
                first == Seq::<Seq<char>>::empty().push(
                    single_declaration_rule(".rounded"@, "border-radius"@, self@.default),
                ),
                texts(rules@) == first + self@.additional_rules().take(i as int),
            decreases n - i,
        {
            let additional = &self.additionals_radius[i];
            let rule = write_named_rule(
                ".rounded-",
                additional.radius_key.as_str(),
                "border-radius",
                additional.radius_value.as_str(),
            );
            proof {
                assert(self@.additionals_radius[i as int] == additional@);
                assert(self@.additional_rules().take(i + 1) =~= self@.additional_rules().take(
                    i as int,
                ).push(rule@));
                assert(first + self@.additional_rules().take(i as int).push(rule@) =~= (first
                    + self@.additional_rules().take(i as int)).push(rule@));
            }
            push_text(&mut rules, rule);
            i = i + 1;
        }
        proof {
            assert(self@.additional_rules().take(n as int) =~= self@.additional_rules());
        }
        join_with_newlines(&rules)
    }
}

/// The property that the layers of an effect of the given kind set.
pub open spec fn effect_property(kind: EffectType) -> Seq<char> {
    match kind {
        EffectType::BoxShadow => "box-shadow"@,
        EffectType::Blur => "filter"@,
        EffectType::BackdropFilter => "backdrop-filter"@,
    }
}

/// What stands between the layers of one kind: shadows are a list with
/// commas, filters follow one another.
pub open spec fn effect_separator(kind: EffectType) -> Seq<char> {
    match kind {
        EffectType::BoxShadow => ", "@,
        EffectType::Blur => " "@,
        EffectType::BackdropFilter => " "@,
    }
}

/// How the value of one layer is written: a blur as the filter `blur(..)`,
/// the others as they are.
pub open spec fn effect_value(kind: EffectType, value: Seq<char>) -> Seq<char> {
    match kind {
        EffectType::Blur => "blur("@ + value + ")"@,
        _ => value,
    }
}

/// The values of the layers of the given kind, in order.
pub open spec fn values_of(items: Seq<(EffectType, Seq<char>)>, kind: EffectType) -> Seq<Seq<char>>
    decreases items.len(),
{
    if items.len() == 0 {
        Seq::empty()
    } else if items.last().0 == kind {
        values_of(items.drop_last(), kind).push(effect_value(kind, items.last().1))
    } else {
        values_of(items.drop_last(), kind)
    }
}

/// The declaration that holds all layers of the given kind, or nothing
/// where the effect has no layer of that kind.
pub open spec fn kind_declaration(items: Seq<(EffectType, Seq<char>)>, kind: EffectType) -> Seq<
    char,
> {
    if values_of(items, kind).len() == 0 {
        Seq::empty()
    } else {
        effect_property(kind) + ":"@ + join_texts(values_of(items, kind), effect_separator(kind))
            + ";"@
    }
}

impl EffectView {
    /// The declaration of the background, or nothing where the effect has none.
    pub open spec fn background_declaration(self) -> Seq<char> {
        match self.bg {
            Some(reference) => "background:"@ + variable_usage(reference) + ";"@,
            None => Seq::empty(),
        }
    }

    /// One declaration per kind of layer that the effect has, then the
    /// background.
    pub open spec fn declarations(self) -> Seq<char> {
        kind_declaration(self.items, EffectType::BoxShadow) + kind_declaration(
            self.items,
            EffectType::Blur,
        ) + kind_declaration(self.items, EffectType::BackdropFilter)
            + self.background_declaration()
    }

    /// The rule of the class named like the effect.
    pub open spec fn stylesheet(self) -> Seq<char> {
        css_rule("."@ + self.effect_name, self.declarations())
    }
}

/// Writes how the value of one layer is written.
fn write_effect_value(kind: EffectType, value: &str) -> (res: String)
    ensures
        res@ == effect_value(kind, value@),
{
    match kind {
        EffectType::Blur => {
            let mut out = String::from_str("blur(");
            out.append(value);
            out.append(")");
            out
        },
        _ => String::from_str(value),
    }
}

/// Writes the declaration that holds all layers of the given kind.
fn write_kind_declaration(items: &Vec<EffectItem>, kind: EffectType) -> (res: String)
    ensures
        res@ == kind_declaration(items.deep_view(), kind),
{
    let mut values: Vec<String> = Vec::new();
    let n: usize = items.len();
    let mut i: usize = 0;
    proof {
        assert(items.deep_view().take(0) =~= Seq::empty());
        assert(texts(values@) =~= Seq::empty());
    }
    while i < n
        invariant
            n == items.len(),
            i <= n,
            texts(values@) == values_of(items.deep_view().take(i as int), kind),
        decreases n - i,
    {
        proof {
            let next = items.deep_view().take(i + 1);
            assert(next.drop_last() =~= items.deep_view().take(i as int));
            assert(next.last() == items@[i as int]@);
        }
        if items[i].effect_type == kind {
            push_text(&mut values, write_effect_value(kind, items[i].effect_value.as_str()));
        }
        i = i + 1;
    }
    proof {
        assert(items.deep_view().take(n as int) =~= items.deep_view());
    }
    if values.len() == 0 {
        return String::new();
    }
    let (property, separator) = match kind {
        EffectType::BoxShadow => ("box-shadow", ", "),
        EffectType::Blur => ("filter", " "),
        EffectType::BackdropFilter => ("backdrop-filter", " "),
    };
    let joined = join_with(&values, separator);
    let mut out = String::from_str(property);
    out.append(":");
    out.append(joined.as_str());
    out.append(";");
    out
}

impl ToStylesheet for Effect {
    open spec fn stylesheet(&self) -> Seq<char> {
        self@.stylesheet()
    }

    fn to_stylesheet(&self) -> (res: String) {
        let shadows = write_kind_declaration(&self.items, EffectType::BoxShadow);
        let blurs = write_kind_declaration(&self.items, EffectType::Blur);
        let backdrops = write_kind_declaration(&self.items, EffectType::BackdropFilter);
        let mut body = shadows;
        body.append(blurs.as_str());
        body.append(backdrops.as_str());
        match &self.bg {
            Some(reference) => {
                let usage = write_variable_usage(reference.as_str());
                let mut background = String::from_str("background:");
                background.append(usage.as_str());
                background.append(";");
                body.append(background.as_str());
            },
            None => {
                proof {
                    assert(body@ + Seq::<char>::empty() =~= body@);
                }
            },
        }
        let mut selector = String::from_str(".");
        selector.append(self.effect_name.as_str());
        let mut out = selector;
        out.append("{");
        out.append(body.as_str());
        out.append("}");
        out
    }
}

/// One declaration of the class that sets background and text colour in
/// dark mode, or nothing where the token has no dark reference.
pub open spec fn dark_theme_declaration(property: Seq<char>, reference: Option<Seq<char>>) -> Seq<
    char,
> {
    match reference {
        Some(dark) => "\n            "@ + property + ":var("@ + custom_property(dark) + ");"@,
        None => Seq::empty(),
    }
}

/// Writes one declaration of the class that sets background and text colour
/// in dark mode.
fn write_dark_theme_declaration(property: &str, reference: &Option<String>) -> (res: String)
    ensures
        res@ == dark_theme_declaration(property@, reference.deep_view()),
{
    match reference {
        Some(dark) => {
            let target = resolve_reference(dark.as_str());
            let mut out = String::from_str("\n            ");
            out.append(property);
            out.append(":var(");
            out.append(target.as_str());
            out.append(");");
            out
        },
        None => String::new(),
    }
}

impl ThemeColorSetView {
    /// In dark mode, the rule of the class that sets background and text
    /// colour at once: it holds the declarations of those of the two tokens
    /// that have a dark reference, and is absent where neither has one.
    pub open spec fn dark_theme_rule(
        self,
        class_prefix: Seq<char>,
        theme_name: Seq<char>,
        class_sufix: Seq<char>,
    ) -> Option<Seq<char>> {
        if self.background.dark is Some || self.text.dark is Some {
            Some(
                css_rule(
                    theme_selector(class_prefix, "theme-"@, theme_name, class_sufix),
                    dark_theme_declaration("background"@, self.background.dark)
                        + dark_theme_declaration("color"@, self.text.dark) + "\n        "@,
                ),
            )
        } else {
            None
        }
    }

    /// In dark mode, the rule of the background utility class, where the
    /// background has a dark reference.
    pub open spec fn dark_background_rule(
        self,
        class_prefix: Seq<char>,
        theme_name: Seq<char>,
        class_sufix: Seq<char>,
    ) -> Option<Seq<char>> {
        match self.background.dark {
            Some(dark) => Some(
                background_rule(custom_property(dark), class_prefix, theme_name, class_sufix),
            ),
            None => None,
        }
    }

    /// In dark mode, the rule of the text-colour utility class, where the
    /// text has a dark reference.
    pub open spec fn dark_text_rule(
        self,
        class_prefix: Seq<char>,
        theme_name: Seq<char>,
        class_sufix: Seq<char>,
    ) -> Option<Seq<char>> {
        match self.text.dark {
            Some(dark) => Some(
                text_color_rule(custom_property(dark), class_prefix, theme_name, class_sufix),
            ),
            None => None,
        }
    }

    /// In dark mode, the rules of the five border variants, where the border
    /// has a dark reference.
    pub open spec fn dark_border_rules(
        self,
        class_prefix: Seq<char>,
        theme_name: Seq<char>,
        class_sufix: Seq<char>,
    ) -> Option<Seq<char>> {
        match self.border.dark {
            Some(dark) => Some(
                join_lines(border_rules(custom_property(dark), class_prefix, theme_name, class_sufix)),
            ),
            None => None,
        }
    }

    /// The rules of one interaction state in dark mode: only what a token
    /// with a dark reference gives. A state without dark references gives
    /// nothing.
    pub open spec fn dark_rules(
        self,
        theme_name: Seq<char>,
        state: Option<Seq<char>>,
        by_class: bool,
    ) -> Seq<Seq<char>> {
        let class_prefix = class_state_headers(state, by_class).0;
        let class_sufix = class_state_headers(state, by_class).1;
        optional_text(self.dark_theme_rule(class_prefix, theme_name, class_sufix)) + optional_text(
            self.dark_background_rule(class_prefix, theme_name, class_sufix),
        ) + optional_text(self.dark_text_rule(class_prefix, theme_name, class_sufix))
            + optional_text(self.dark_border_rules(class_prefix, theme_name, class_sufix))
    }
}

/// The rules in dark mode of an interaction state that may be absent: none
/// where it is absent; else those of its escaped form and, with
/// `with_class`, those of its plain-class form.
pub open spec fn optional_dark_rules(
    state: Option<ThemeColorSetView>,
    theme_name: Seq<char>,
    name: Seq<char>,
    with_class: bool,
) -> Seq<Seq<char>> {
    match state {
        None => Seq::empty(),
        Some(colors) => colors.dark_rules(theme_name, Some(name), false) + if with_class {
            colors.dark_rules(theme_name, Some(name), true)
        } else {
            Seq::empty()
        },
    }
}

impl ThemeColorView {
    /// The rules of the theme in dark mode, state by state in the order
    /// default, hover, active (in both selector forms), focus.
    pub open spec fn dark_rules(self) -> Seq<Seq<char>> {
        self.default.dark_rules(self.theme_name, None, false) + optional_dark_rules(
            self.hover,
            self.theme_name,
            "hover"@,
            false,
        ) + optional_dark_rules(self.active, self.theme_name, "active"@, true)
            + optional_dark_rules(self.focus, self.theme_name, "focus"@, false)
    }

    /// The pair of the theme. The light fragment holds the rules of every
    /// state, written from the light references. The dark fragment holds, one
    /// per line, the rules of the tokens that have a dark reference; it is
    /// empty where no token has one.
    pub open spec fn stylesheet(self) -> StylesheetLightDarkView {
        StylesheetLightDarkView {
            light: self.light_colors().stylesheet(self.theme_name),
            dark: join_lines(self.dark_rules()),
        }
    }
}

impl ThemeColorSet {
    fn write_dark_theme_rule(&self, class_prefix: &str, theme_name: &str, class_sufix: &str) -> (res:
        Option<String>)
        ensures
            res.deep_view() == self@.dark_theme_rule(class_prefix@, theme_name@, class_sufix@),
    {
        if self.background.dark.is_some() || self.text.dark.is_some() {
            let mut selector = String::from_str(class_prefix);
            selector.append("theme-");
            selector.append(theme_name);
            selector.append(class_sufix);
            let text = write_dark_theme_declaration("color", &self.text.dark);
            let mut body = write_dark_theme_declaration("background", &self.background.dark);
            body.append(text.as_str());
            body.append("\n        ");
            let mut out = selector;
            out.append("{");
            out.append(body.as_str());
            out.append("}");
            Some(out)
        } else {
            None
        }
    }

    fn write_dark_background_rule(
        &self,
        class_prefix: &str,
        theme_name: &str,
        class_sufix: &str,
    ) -> (res: Option<String>)
        ensures
            res.deep_view() == self@.dark_background_rule(class_prefix@, theme_name@, class_sufix@),
    {
        match &self.background.dark {
            Some(dark) => {
                let token = BackgroundColorToken(resolve_reference(dark.as_str()));
                Some(token.to_stylesheet(class_prefix, theme_name, class_sufix))
            },
            None => None,
        }
    }

    fn write_dark_text_rule(&self, class_prefix: &str, theme_name: &str, class_sufix: &str) -> (res:
        Option<String>)
        ensures
            res.deep_view() == self@.dark_text_rule(class_prefix@, theme_name@, class_sufix@),
    {
        match &self.text.dark {
            Some(dark) => {
                let token = TextColorToken(resolve_reference(dark.as_str()));
                Some(token.to_stylesheet(class_prefix, theme_name, class_sufix))
            },
            None => None,
        }
    }

    fn write_dark_border_rules(&self, class_prefix: &str, theme_name: &str, class_sufix: &str) -> (res:
        Option<String>)
        ensures
            res.deep_view() == self@.dark_border_rules(class_prefix@, theme_name@, class_sufix@),
    {
        match &self.border.dark {
            Some(dark) => {
                let token = BorderColorToken(resolve_reference(dark.as_str()));
                Some(token.to_stylesheet(class_prefix, theme_name, class_sufix))
            },
            None => None,
        }
    }

    /// Appends the rules of one interaction state in dark mode.
    fn push_dark_rules(
        &self,
        out: &mut Vec<String>,
        theme_name: &str,
        state: Option<&str>,
        by_class: bool,
    )
        ensures
            texts(final(out)@) == texts(old(out)@) + self@.dark_rules(
                theme_name@,
                match state {
                    Some(name) => Some(name@),
                    None => None,
                },
                by_class,
            ),
    {
        let (class_prefix, class_sufix) = get_class_state_headers(state, by_class);
        let prefix = class_prefix.as_str();
        let sufix = class_sufix.as_str();
        let ghost before = texts(out@);
        let ghost theme = optional_text(self@.dark_theme_rule(prefix@, theme_name@, sufix@));
        let ghost background = optional_text(
            self@.dark_background_rule(prefix@, theme_name@, sufix@),
        );
        let ghost text = optional_text(self@.dark_text_rule(prefix@, theme_name@, sufix@));
        let ghost border = optional_text(self@.dark_border_rules(prefix@, theme_name@, sufix@));
        push_optional_text(out, self.write_dark_theme_rule(prefix, theme_name, sufix));
        push_optional_text(out, self.write_dark_background_rule(prefix, theme_name, sufix));
        proof {
            lemma_texts_appended_twice(before, theme, background);
        }
        push_optional_text(out, self.write_dark_text_rule(prefix, theme_name, sufix));
        proof {
            lemma_texts_appended_twice(before, theme + background, text);
        }
        push_optional_text(out, self.write_dark_border_rules(prefix, theme_name, sufix));
        proof {
            lemma_texts_appended_twice(before, theme + background + text, border);
        }
    }
}

/// Appends the rules in dark mode of an interaction state that may be absent.
fn push_optional_dark_rules(
    out: &mut Vec<String>,
    state: &Option<ThemeColorSet>,
    theme_name: &str,
    name: &str,
    with_class: bool,
)
    ensures
        texts(final(out)@) == texts(old(out)@) + optional_dark_rules(
            state.deep_view(),
            theme_name@,
            name@,
            with_class,
        ),
{
    let ghost before = texts(out@);
    match state {
        Some(colors) => {
            colors.push_dark_rules(out, theme_name, Some(name), false);
            if with_class {
                colors.push_dark_rules(out, theme_name, Some(name), true);
                proof {
                    lemma_texts_appended_twice(
                        before,
                        colors@.dark_rules(theme_name@, Some(name@), false),
                        colors@.dark_rules(theme_name@, Some(name@), true),
                    );
                }
            } else {
                proof {
                    lemma_texts_appended_twice(
                        before,
                        colors@.dark_rules(theme_name@, Some(name@), false),
                        Seq::empty(),
                    );
                    assert(texts(out@) + Seq::<Seq<char>>::empty() =~= texts(out@));
                }
            }
        },
        None => {
            proof {
                assert(before + Seq::<Seq<char>>::empty() =~= before);
            }
        },
    }
}

impl ThemeColor {
    /// The rules of the theme in dark mode, one per line.
    fn dark_to_stylesheet(&self) -> (res: String)
        ensures
            res@ == join_lines(self@.dark_rules()),
    {
        let name = self.theme_name.as_str();
        let mut rules: Vec<String> = Vec::new();
        let ghost default = self@.default.dark_rules(name@, None, false);
        let ghost hover = optional_dark_rules(self@.hover, name@, "hover"@, false);
        let ghost active = optional_dark_rules(self@.active, name@, "active"@, true);
        let ghost focus = optional_dark_rules(self@.focus, name@, "focus"@, false);
        let ghost before = texts(rules@);
        proof {
            assert(before =~= Seq::empty());
        }
        self.default.push_dark_rules(&mut rules, name, None, false);
        push_optional_dark_rules(&mut rules, &self.hover, name, "hover", false);
        proof {
            lemma_texts_appended_twice(before, default, hover);
        }
        push_optional_dark_rules(&mut rules, &self.active, name, "active", true);
        proof {
            lemma_texts_appended_twice(before, default + hover, active);
        }
        push_optional_dark_rules(&mut rules, &self.focus, name, "focus", false);
        proof {
            lemma_texts_appended_twice(before, default + hover + active, focus);
            assert(before + self@.dark_rules() =~= self@.dark_rules());
        }
        join_with_newlines(&rules)
    }
}

impl ThemeColor {
    /// The pair of the theme, or nothing where a token lacks its light
    /// reference.
    pub fn to_stylesheet(&self) -> (res: Option<StylesheetLightDark>)
        ensures
            res is Some <==> self@.complete(),
            res matches Some(pair) ==> pair@ == self@.stylesheet(),
    {
        match self.light_colors() {
            Some(colors) => Some(
                StylesheetLightDark {
                    light: colors.to_stylesheet(self.theme_name.as_str()),
                    dark: self.dark_to_stylesheet(),
                },
            ),
            None => None,
        }
    }
}

/// The declaration of one base colour in dark mode, or nothing where the
/// role has no dark reference.
pub open spec fn base_dark_declaration(property: Seq<char>, token: ColorDarkableView) -> Option<
    Seq<char>,
> {
    match token.dark {
        Some(dark) => Some(property + ":"@ + variable_usage(dark) + ";"@),
        None => None,
    }
}

/// Writes the declaration of one base colour in dark mode.
fn write_base_dark_declaration(property: &str, token: &ColorDarkable) -> (res: Option<String>)
    ensures
        res.deep_view() == base_dark_declaration(property@, token@),
{
    match &token.dark {
        Some(dark) => {
            let usage = write_variable_usage(dark.as_str());
            let mut out = String::from_str(property);
            out.append(":");
            out.append(usage.as_str());
            out.append(";");
            Some(out)
        },
        None => None,
    }
}

impl BaseView {
    /// The declarations of the base colours in dark mode: one for each role
    /// that has a dark reference, in the order of the light declarations.
    pub open spec fn dark_declarations(self) -> Seq<Seq<char>> {
        optional_text(base_dark_declaration("--bg-main"@, self.background)) + optional_text(
            base_dark_declaration("--text-color-main"@, self.text_default),
        ) + optional_text(base_dark_declaration("--text-color-main-dark"@, self.text_dark))
            + optional_text(base_dark_declaration("--text-color-main-light"@, self.text_light))
            + optional_text(base_dark_declaration("--border-main"@, self.border)) + optional_text(
            base_dark_declaration("--bg-main-disabled"@, self.background_disabled),
        ) + optional_text(base_dark_declaration("--border-main-disabled"@, self.border_disabled))
            + optional_text(
            base_dark_declaration("--text-color-main-disabled"@, self.text_disabled),
        )
    }

    /// The pair of the base colours. The light fragment holds every role,
    /// written from its light reference. The dark fragment holds, one per
    /// line, the roles that have a dark reference; it is empty where none has.
    pub open spec fn stylesheet(self) -> StylesheetLightDarkView {
        StylesheetLightDarkView {
            light: self.light_tokens().stylesheet(),
            dark: join_lines(self.dark_declarations()),
        }
    }
}

impl Base {
    /// The declarations of the base colours in dark mode, one per line.
    fn dark_to_stylesheet(&self) -> (res: String)
        ensures
            res@ == join_lines(self@.dark_declarations()),
    {
        let mut lines: Vec<String> = Vec::new();
        let ghost before = texts(lines@);
        proof {
            assert(before =~= Seq::empty());
        }
        push_optional_text(&mut lines, write_base_dark_declaration("--bg-main", &self.background));
        let ghost done = optional_text(base_dark_declaration("--bg-main"@, self@.background));
        push_optional_text(
            &mut lines,
            write_base_dark_declaration("--text-color-main", &self.text_default),
        );
        let ghost next = optional_text(
            base_dark_declaration("--text-color-main"@, self@.text_default),
        );
        proof {
            lemma_texts_appended_twice(before, done, next);
        }
        let ghost done = done + next;
        push_optional_text(
            &mut lines,
            write_base_dark_declaration("--text-color-main-dark", &self.text_dark),
        );
        let ghost next = optional_text(
            base_dark_declaration("--text-color-main-dark"@, self@.text_dark),
        );
        proof {
            lemma_texts_appended_twice(before, done, next);
        }
        let ghost done = done + next;
        push_optional_text(
            &mut lines,
            write_base_dark_declaration("--text-color-main-light", &self.text_light),
        );
        let ghost next = optional_text(
            base_dark_declaration("--text-color-main-light"@, self@.text_light),
        );
        proof {
            lemma_texts_appended_twice(before, done, next);
        }
        let ghost done = done + next;
        push_optional_text(&mut lines, write_base_dark_declaration("--border-main", &self.border));
        let ghost next = optional_text(base_dark_declaration("--border-main"@, self@.border));
        proof {
            lemma_texts_appended_twice(before, done, next);
        }
        let ghost done = done + next;
        push_optional_text(
            &mut lines,
            write_base_dark_declaration("--bg-main-disabled", &self.background_disabled),
        );
        let ghost next = optional_text(
            base_dark_declaration("--bg-main-disabled"@, self@.background_disabled),
        );
        proof {
            lemma_texts_appended_twice(before, done, next);
        }
        let ghost done = done + next;
        push_optional_text(
            &mut lines,
            write_base_dark_declaration("--border-main-disabled", &self.border_disabled),
        );
        let ghost next = optional_text(
            base_dark_declaration("--border-main-disabled"@, self@.border_disabled),
        );
        proof {
            lemma_texts_appended_twice(before, done, next);
        }
        let ghost done = done + next;
        push_optional_text(
            &mut lines,
            write_base_dark_declaration("--text-color-main-disabled", &self.text_disabled),
        );
        let ghost next = optional_text(
            base_dark_declaration("--text-color-main-disabled"@, self@.text_disabled),
        );
        proof {
            lemma_texts_appended_twice(before, done, next);
            assert(before + self@.dark_declarations() =~= self@.dark_declarations());
        }
        join_with_newlines(&lines)
    }

    /// The pair of the base colours, or nothing where a role lacks its light
    /// reference.
    pub fn to_stylesheet(&self) -> (res: Option<StylesheetLightDark>)
        ensures
            res is Some <==> self@.complete(),
            res matches Some(pair) ==> pair@ == self@.stylesheet(),
    {
        match self.light_tokens() {
            Some(tokens) => Some(
                StylesheetLightDark {
                    light: tokens.to_stylesheet(),
                    dark: self.dark_to_stylesheet(),
                },
            ),
            None => None,
        }
    }
}

} // verus!
