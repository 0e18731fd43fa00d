use vstd::prelude::*;
use vstd::string::*;
use crate::text::{starts_with, texts};
use crate::workspace_domain::design_system_domain::{
    ColorPalette, ColorSet, ColorSetView, ColorState, ColorStateView, ColorTheme, ColorThemeView,
    DesignSystem, DesignSystemView, Entries, Primitives, PrimitivesView, SpacePalette,
};
use crate::workspace_domain::design_system_to_stylesheet_domain::{
    is_gradient, palette_prefix, single_color_prefix, ToStylesheet,
};

verus! {

/// A structural fault of a design system: a name that is declared twice, or
/// a token without its reference.
#[derive(Debug)]
pub enum ValidationError {
    /// Two palettes have this name.
    DuplicatePalette(String),
    /// The palette `palette` has two shades with the label `label`.
    DuplicateShade { palette: String, label: String },
    /// Two standalone colours have this name.
    DuplicateSingleColor(String),
    /// Two spacing steps have this key.
    DuplicateSpace(String),
    /// Two themes have this name.
    DuplicateTheme(String),
    /// The token at this path has no light reference.
    MissingReference(String),
}

/// The view of [`ValidationError`]: its texts as sequences of characters.
pub enum ValidationErrorView {
    DuplicatePalette(Seq<char>),
    DuplicateShade { palette: Seq<char>, label: Seq<char> },
    DuplicateSingleColor(Seq<char>),
    DuplicateSpace(Seq<char>),
    DuplicateTheme(Seq<char>),
    MissingReference(Seq<char>),
}

impl View for ValidationError {
    type V = ValidationErrorView;

    open spec fn view(&self) -> ValidationErrorView {
        match self {
            ValidationError::DuplicatePalette(name) => ValidationErrorView::DuplicatePalette(name@),
            ValidationError::DuplicateShade { palette, label } => ValidationErrorView::DuplicateShade {
                palette: palette@,
                label: label@,
            },
            ValidationError::DuplicateSingleColor(name) => ValidationErrorView::DuplicateSingleColor(
                name@,
            ),
            ValidationError::DuplicateSpace(key) => ValidationErrorView::DuplicateSpace(key@),
            ValidationError::DuplicateTheme(name) => ValidationErrorView::DuplicateTheme(name@),
            ValidationError::MissingReference(token) => ValidationErrorView::MissingReference(
                token@,
            ),
        }
    }
}

/// A colour reference that names no declared colour: `token` says where the
/// reference stands, `target` is the reference as the custom property that
/// it is written as, with its gradient marker if it has one.
#[derive(Debug)]
pub struct ReferenceError {
    pub token: String,
    pub target: String,
}

/// Why a design system has no stylesheet.
#[derive(Debug)]
pub enum CompileError {
    Validation(ValidationError),
    Reference(ReferenceError),
}

/// The view of [`CompileError`]: its texts as sequences of characters.
pub enum CompileErrorView {
    Validation(ValidationErrorView),
    Reference { token: Seq<char>, target: Seq<char> },
}

impl View for CompileError {
    type V = CompileErrorView;

    open spec fn view(&self) -> CompileErrorView {
        match self {
            CompileError::Validation(error) => CompileErrorView::Validation(error@),
            CompileError::Reference(error) => CompileErrorView::Reference {
                token: error.token@,
                target: error.target@,
            },
        }
    }
}

/// The keys of a list of entries, in order.
pub open spec fn keys(entries: Entries) -> Seq<Seq<char>> {
    Seq::new(entries.len(), |i: int| entries[i].0)
}

/// Whether the name at `j` also stands at an earlier place.
pub open spec fn repeats_at(names: Seq<Seq<char>>, j: int) -> bool {
    exists|i: int| 0 <= i < j && names[i] == names[j]
}

/// Whether no name stands at two places.
pub open spec fn all_distinct(names: Seq<Seq<char>>) -> bool {
    forall|j: int| 0 <= j < names.len() ==> !repeats_at(names, j)
}

/// Whether `j` is the first place whose name stood at an earlier place.
pub open spec fn first_repeat(names: Seq<Seq<char>>, j: int) -> bool {
    &&& 0 <= j < names.len()
    &&& repeats_at(names, j)
    &&& forall|k: int| 0 <= k < j ==> !repeats_at(names, k)
}

/// The three references of one interaction state, each with the path of the
/// token that holds it.
pub open spec fn state_references(state: ColorStateView, path: Seq<char>) -> Entries {
    seq![
        (path + ".bg"@, state.bg),
        (path + ".border"@, state.border),
        (path + ".text"@, state.text),
    ]
}

/// The references of an interaction state that may be absent.
pub open spec fn optional_state_references(state: Option<ColorStateView>, path: Seq<char>) -> Entries {
    match state {
        Some(colors) => state_references(colors, path),
        None => Seq::empty(),
    }
}

impl ColorSetView {
    /// The references of every state that the set defines.
    pub open spec fn references(self, path: Seq<char>) -> Entries {
        state_references(self.default, path + ".default"@) + optional_state_references(
            self.hover,
            path + ".hover"@,
        ) + optional_state_references(self.active, path + ".active"@) + optional_state_references(
            self.focus,
            path + ".focus"@,
        )
    }
}

impl ColorThemeView {
    /// The references of the light set, then those of the dark set.
    pub open spec fn references(self) -> Entries {
        self.light.references(self.theme_name + ".light"@) + match self.dark {
            Some(colors) => colors.references(self.theme_name + ".dark"@),
            None => Seq::empty(),
        }
    }
}

/// The references of all themes, in order.
pub open spec fn themes_references(themes: Seq<ColorThemeView>) -> Entries
    decreases themes.len(),
{
    if themes.len() == 0 {
        Seq::empty()
    } else {
        themes_references(themes.drop_last()) + themes.last().references()
    }
}

/// The custom property under which the entry that `reference` names is
/// declared. A plain reference is that custom property itself. A reference
/// with the gradient marker reads `--gradient` where the custom property of
/// its entry reads `--color`: `--gradient-single-<name>` names the standalone
/// colour `<name>`, and `--gradient-<palette>-<label>` a shade; the marker
/// says that the value of the entry is a gradient.
pub open spec fn declared_property(reference: Seq<char>) -> Seq<char> {
    if is_gradient(reference) {
        "--color"@ + reference.skip("--gradient"@.len() as int)
    } else {
        reference
    }
}

impl PrimitivesView {
    /// The names of the palettes, in order.
    pub open spec fn palette_names(self) -> Seq<Seq<char>> {
        Seq::new(self.color_palettes.len(), |i: int| self.color_palettes[i].palette_name)
    }

    /// Whether the shade `j` of the palette `i` is declared under the custom
    /// property `property`.
    pub open spec fn shade_is(self, i: int, j: int, property: Seq<char>) -> bool {
        &&& 0 <= i < self.color_palettes.len()
        &&& 0 <= j < self.color_palettes[i].shades.len()
        &&& property == palette_prefix(self.color_palettes[i].palette_name)
            + self.color_palettes[i].shades[j].0
    }

    /// Whether the standalone colour `k` is declared under the custom property
    /// `property`.
    pub open spec fn single_color_is(self, k: int, property: Seq<char>) -> bool {
        &&& 0 <= k < self.single_colors.len()
        &&& property == single_color_prefix() + self.single_colors[k].0
    }

    /// Whether a shade or a standalone colour is declared under the custom
    /// property `property`.
    pub open spec fn declares_color(self, property: Seq<char>) -> bool {
        ||| exists|i: int, j: int| self.shade_is(i, j, property)
        ||| exists|k: int| self.single_color_is(k, property)
    }

    /// Whether `reference` names a declared colour: a plain reference is the
    /// custom property of a shade or a standalone colour; a reference with
    /// the gradient marker names the entry that [`declared_property`] gives.
    pub open spec fn resolves(self, reference: Seq<char>) -> bool {
        self.declares_color(declared_property(reference))
    }

    /// Whether no shade label stands twice in any of the first `n` palettes.
    pub open spec fn shades_distinct(self, n: int) -> bool {
        forall|i: int|
            0 <= i < n ==> all_distinct(keys((#[trigger] self.color_palettes[i]).shades))
    }
}

impl DesignSystemView {
    /// The names of the themes, in order.
    pub open spec fn theme_names(self) -> Seq<Seq<char>> {
        Seq::new(
            self.tokens.colors_themes.len(),
            |i: int| self.tokens.colors_themes[i].theme_name,
        )
    }

    /// Every colour reference of the themes, with the path of its token.
    pub open spec fn references(self) -> Entries {
        themes_references(self.tokens.colors_themes)
    }

    /// Whether no palette, shade, standalone colour, spacing step or theme is
    /// declared twice.
    pub open spec fn structure_valid(self) -> bool {
        &&& all_distinct(self.primitives.palette_names())
        &&& self.primitives.shades_distinct(self.primitives.color_palettes.len() as int)
        &&& all_distinct(keys(self.primitives.single_colors))
        &&& all_distinct(keys(self.primitives.space))
        &&& all_distinct(self.theme_names())
    }

    /// Whether every colour reference names a declared colour, as a plain
    /// colour or, with the gradient marker, as a gradient.
    pub open spec fn references_resolve(self) -> bool {
        forall|k: int|
            0 <= k < self.references().len() ==> self.primitives.resolves(
                (#[trigger] self.references()[k]).1,
            )
    }

    /// Whether the design system can be compiled.
    pub open spec fn valid(self) -> bool {
        self.structure_valid() && self.references_resolve()
    }

    /// Whether `error` is the first fault of the design system. Faults are
    /// looked for in this order: palette names, shade labels palette by
    /// palette, standalone colours, spacing steps, theme names, references.
    /// No token of such a design system can lack its reference.
    pub open spec fn first_fault(self, error: CompileErrorView) -> bool {
        let palettes = self.primitives.color_palettes;
        let names = self.primitives.palette_names();
        match error {
            CompileErrorView::Validation(ValidationErrorView::DuplicatePalette(name)) => {
                exists|j: int| first_repeat(names, j) && name == names[j]
            },
            CompileErrorView::Validation(ValidationErrorView::DuplicateShade { palette, label }) => {
                &&& all_distinct(names)
                &&& exists|i: int, j: int|
                    {
                        &&& 0 <= i < palettes.len()
                        &&& self.primitives.shades_distinct(i)
                        &&& first_repeat(keys(palettes[i].shades), j)
                        &&& palette == palettes[i].palette_name
                        &&& label == palettes[i].shades[j].0
                    }
            },
            CompileErrorView::Validation(ValidationErrorView::DuplicateSingleColor(name)) => {
                &&& all_distinct(names)
                &&& self.primitives.shades_distinct(palettes.len() as int)
                &&& exists|j: int|
                    first_repeat(keys(self.primitives.single_colors), j) && name
                        == self.primitives.single_colors[j].0
            },
            CompileErrorView::Validation(ValidationErrorView::DuplicateSpace(key)) => {
                &&& all_distinct(names)
                &&& self.primitives.shades_distinct(palettes.len() as int)
                &&& all_distinct(keys(self.primitives.single_colors))
                &&& exists|j: int|
                    first_repeat(keys(self.primitives.space), j) && key
                        == self.primitives.space[j].0
            },
            CompileErrorView::Validation(ValidationErrorView::DuplicateTheme(name)) => {
                &&& all_distinct(names)
                &&& self.primitives.shades_distinct(palettes.len() as int)
                &&& all_distinct(keys(self.primitives.single_colors))
                &&& all_distinct(keys(self.primitives.space))
                &&& exists|j: int| first_repeat(self.theme_names(), j) && name == self.theme_names()[j]
            },
            CompileErrorView::Validation(ValidationErrorView::MissingReference(_)) => false,
            CompileErrorView::Reference { token, target } => {
                &&& self.structure_valid()
                &&& exists|k: int|
                    {
                        &&& 0 <= k < self.references().len()
                        &&& self.references()[k] == (token, target)
                        &&& !self.primitives.resolves(target)
                        &&& forall|m: int|
                            0 <= m < k ==> self.primitives.resolves(
                                (#[trigger] self.references()[m]).1,
                            )
                    }
            },
        }
    }
}

/// There is at most one first place whose name stood at an earlier place.
pub proof fn lemma_first_repeat_is_unique(names: Seq<Seq<char>>, i: int, j: int)
    requires
        first_repeat(names, i),
        first_repeat(names, j),
    ensures
        i == j,
{
}

/// Names with a first repeat are not all distinct.
pub proof fn lemma_repeat_excludes_distinct(names: Seq<Seq<char>>, j: int)
    requires
        first_repeat(names, j),
    ensures
        !all_distinct(names),
{
}

/// A design system has at most one first fault, so that validation reports
/// the same fault whenever it is asked.
pub proof fn lemma_first_fault_is_unique(
    design_system: DesignSystemView,
    a: CompileErrorView,
    b: CompileErrorView,
)
    requires
        design_system.first_fault(a),
        design_system.first_fault(b),
    ensures
        a == b,
{
    let primitives = design_system.primitives;
    let palettes = primitives.color_palettes;
    let names = primitives.palette_names();
    let has_palette_repeat = exists|j: int| first_repeat(names, j);
    if has_palette_repeat {
        let j = choose|j: int| first_repeat(names, j);
        lemma_repeat_excludes_distinct(names, j);
        assert(a is Validation && a->Validation_0 is DuplicatePalette);
        assert(b is Validation && b->Validation_0 is DuplicatePalette);
        let ja = choose|k: int| first_repeat(names, k) && a->Validation_0->DuplicatePalette_0 == names[k];
        let jb = choose|k: int| first_repeat(names, k) && b->Validation_0->DuplicatePalette_0 == names[k];
        lemma_first_repeat_is_unique(names, ja, jb);
    } else {
        assert(!(a is Validation && a->Validation_0 is DuplicatePalette));
        assert(!(b is Validation && b->Validation_0 is DuplicatePalette));
        let has_shade_repeat = !primitives.shades_distinct(palettes.len() as int);
        if has_shade_repeat {
            assert(a is Validation && a->Validation_0 is DuplicateShade);
            assert(b is Validation && b->Validation_0 is DuplicateShade);
            let (ia, ja) = choose|i: int, j: int|
                {
                    &&& 0 <= i < palettes.len()
                    &&& primitives.shades_distinct(i)
                    &&& first_repeat(keys(palettes[i].shades), j)
                    &&& a->Validation_0->DuplicateShade_palette == palettes[i].palette_name
                    &&& a->Validation_0->DuplicateShade_label == palettes[i].shades[j].0
                };
            let (ib, jb) = choose|i: int, j: int|
                {
                    &&& 0 <= i < palettes.len()
                    &&& primitives.shades_distinct(i)
                    &&& first_repeat(keys(palettes[i].shades), j)
                    &&& b->Validation_0->DuplicateShade_palette == palettes[i].palette_name
                    &&& b->Validation_0->DuplicateShade_label == palettes[i].shades[j].0
                };
            lemma_repeat_excludes_distinct(keys(palettes[ia].shades), ja);
            lemma_repeat_excludes_distinct(keys(palettes[ib].shades), jb);
            assert(ia == ib);
            lemma_first_repeat_is_unique(keys(palettes[ia].shades), ja, jb);
        } else {
            lemma_rest_of_first_fault_is_unique(design_system, a, b);
        }
    }
}

/// The same for a design system whose palettes have no fault.
proof fn lemma_rest_of_first_fault_is_unique(
    design_system: DesignSystemView,
    a: CompileErrorView,
    b: CompileErrorView,
)
    requires
        design_system.first_fault(a),
        design_system.first_fault(b),
        all_distinct(design_system.primitives.palette_names()),
        design_system.primitives.shades_distinct(
            design_system.primitives.color_palettes.len() as int,
        ),
    ensures
        a == b,
{
    let primitives = design_system.primitives;
    let colors = keys(primitives.single_colors);
    let spaces = keys(primitives.space);
    let themes = design_system.theme_names();
    assert(!(a is Validation && a->Validation_0 is DuplicatePalette)) by {
        if a is Validation && a->Validation_0 is DuplicatePalette {
            let j = choose|j: int| first_repeat(primitives.palette_names(), j);
            lemma_repeat_excludes_distinct(primitives.palette_names(), j);
        }
    }
    assert(!(b is Validation && b->Validation_0 is DuplicatePalette)) by {
        if b is Validation && b->Validation_0 is DuplicatePalette {
            let j = choose|j: int| first_repeat(primitives.palette_names(), j);
            lemma_repeat_excludes_distinct(primitives.palette_names(), j);
        }
    }
    assert(!(a is Validation && a->Validation_0 is DuplicateShade)) by {
        if a is Validation && a->Validation_0 is DuplicateShade {
            let (i, j) = choose|i: int, j: int|
                0 <= i < primitives.color_palettes.len() && first_repeat(
                    keys(primitives.color_palettes[i].shades),
                    j,
                );
            lemma_repeat_excludes_distinct(keys(primitives.color_palettes[i].shades), j);
        }
    }
    assert(!(b is Validation && b->Validation_0 is DuplicateShade)) by {
        if b is Validation && b->Validation_0 is DuplicateShade {
            let (i, j) = choose|i: int, j: int|
                0 <= i < primitives.color_palettes.len() && first_repeat(
                    keys(primitives.color_palettes[i].shades),
                    j,
                );
            lemma_repeat_excludes_distinct(keys(primitives.color_palettes[i].shades), j);
        }
    }
    if exists|j: int| first_repeat(colors, j) {
        let j = choose|j: int| first_repeat(colors, j);
        lemma_repeat_excludes_distinct(colors, j);
        assert(a is Validation && a->Validation_0 is DuplicateSingleColor);
        assert(b is Validation && b->Validation_0 is DuplicateSingleColor);
        let ja = choose|k: int|
            first_repeat(colors, k) && a->Validation_0->DuplicateSingleColor_0
                == primitives.single_colors[k].0;
        let jb = choose|k: int|
            first_repeat(colors, k) && b->Validation_0->DuplicateSingleColor_0
                == primitives.single_colors[k].0;
        lemma_first_repeat_is_unique(colors, ja, jb);
    } else if exists|j: int| first_repeat(spaces, j) {
        let j = choose|j: int| first_repeat(spaces, j);
        lemma_repeat_excludes_distinct(spaces, j);
        assert(a is Validation && a->Validation_0 is DuplicateSpace);
        assert(b is Validation && b->Validation_0 is DuplicateSpace);
        let ja = choose|k: int|
            first_repeat(spaces, k) && a->Validation_0->DuplicateSpace_0 == primitives.space[k].0;
        let jb = choose|k: int|
            first_repeat(spaces, k) && b->Validation_0->DuplicateSpace_0 == primitives.space[k].0;
        lemma_first_repeat_is_unique(spaces, ja, jb);
    } else if exists|j: int| first_repeat(themes, j) {
        let j = choose|j: int| first_repeat(themes, j);
        lemma_repeat_excludes_distinct(themes, j);
        assert(a is Validation && a->Validation_0 is DuplicateTheme);
        assert(b is Validation && b->Validation_0 is DuplicateTheme);
        let ja = choose|k: int|
            first_repeat(themes, k) && a->Validation_0->DuplicateTheme_0 == themes[k];
        let jb = choose|k: int|
            first_repeat(themes, k) && b->Validation_0->DuplicateTheme_0 == themes[k];
        lemma_first_repeat_is_unique(themes, ja, jb);
    } else {
        assert(a is Reference);
        assert(b is Reference);
        let references = design_system.references();
        let ka = choose|k: int|
            {
                &&& 0 <= k < references.len()
                &&& references[k] == (a->token, a->target)
                &&& !primitives.resolves(a->target)
                &&& forall|m: int|
                    0 <= m < k ==> primitives.resolves((#[trigger] references[m]).1)
            };
        let kb = choose|k: int|
            {
                &&& 0 <= k < references.len()
                &&& references[k] == (b->token, b->target)
                &&& !primitives.resolves(b->target)
                &&& forall|m: int|
                    0 <= m < k ==> primitives.resolves((#[trigger] references[m]).1)
            };
        assert(ka == kb) by {
            if ka < kb {
                assert(primitives.resolves(references[ka].1));
            }
            if kb < ka {
                assert(primitives.resolves(references[kb].1));
            }
        }
    }
}

/// The first place in `names` whose name stood at an earlier place, if any.
pub fn find_repeat(names: &Vec<String>) -> (res: Option<usize>)
    ensures
        match res {
            Some(j) => first_repeat(texts(names@), j as int),
            None => all_distinct(texts(names@)),
        },
{
    let n: usize = names.len();
    let mut j: usize = 0;
    while j < n
        invariant
            n == names.len(),
            j <= n,
            forall|k: int| 0 <= k < j ==> !repeats_at(texts(names@), k),
        decreases n - j,
    {
        let mut i: usize = 0;
        while i < j
            invariant
                n == names.len(),
                j < n,
                i <= j,
                forall|k: int| 0 <= k < j ==> !repeats_at(texts(names@), k),
                forall|m: int| 0 <= m < i ==> texts(names@)[m] != texts(names@)[j as int],
            decreases j - i,
        {
            if names[i] == names[j] {
                proof {
                    assert(texts(names@)[i as int] == texts(names@)[j as int]);
                }
                return Some(j);
            }
            i = i + 1;
        }
        j = j + 1;
    }
    None
}

/// The keys of `entries`, in order.
pub fn entry_keys(entries: &Vec<(String, String)>) -> (res: Vec<String>)
    ensures
        texts(res@) == keys(entries.deep_view()),
{
    let mut out: Vec<String> = Vec::new();
    let n: usize = entries.len();
    let mut i: usize = 0;
    while i < n
        invariant
            n == entries.len(),
            i <= n,
            out.len() == i,
            forall|k: int| 0 <= k < i ==> (#[trigger] out@[k])@ == entries@[k].0@,
        decreases n - i,
    {
        out.push(entries[i].0.clone());
        i = i + 1;
    }
    proof {
        assert(texts(out@) =~= keys(entries.deep_view()));
    }
    out
}

impl SpacePalette {
    /// The spacing steps `spaces`, where no key comes twice.
    pub fn parse(spaces: Vec<(String, String)>) -> (res: Result<SpacePalette, ValidationError>)
        ensures
            res is Ok <==> all_distinct(keys(spaces.deep_view())),
            res matches Ok(palette) ==> palette@ == spaces.deep_view(),
            res matches Err(error) ==> exists|j: int|
                first_repeat(keys(spaces.deep_view()), j) && error@
                    == ValidationErrorView::DuplicateSpace(spaces.deep_view()[j].0),
    {
        let space_keys = entry_keys(&spaces);
        match find_repeat(&space_keys) {
            Some(j) => {
                proof {
                    assert(first_repeat(keys(spaces.deep_view()), j as int));
                    assert(space_keys@[j as int]@ == spaces.deep_view()[j as int].0);
                }
                Err(ValidationError::DuplicateSpace(space_keys[j].clone()))
            },
            None => Ok(SpacePalette(spaces)),
        }
    }
}

impl ColorPalette {
    /// Whether one of the shades is declared under the custom property `property`.
    fn declares_shade(&self, property: &String) -> (res: bool)
        ensures
            res == exists|j: int|
                0 <= j < self@.shades.len() && property@ == palette_prefix(self@.palette_name)
                    + #[trigger] self@.shades[j].0,
    {
        let mut prefix = String::from_str("--color-");
        prefix.append(self.palette_name.as_str());
        prefix.append("-");
        let n: usize = self.shades.0.len();
        let mut j: usize = 0;
        while j < n
            invariant
                n == self.shades.0.len(),
                j <= n,
                prefix@ == palette_prefix(self@.palette_name),
                forall|m: int| 0 <= m < j ==> property@ != prefix@ + #[trigger] self@.shades[m].0,
            decreases n - j,
        {
            let mut candidate = prefix.clone();
            candidate.append(self.shades.0[j].0.as_str());
            proof {
                assert(self@.shades[j as int].0 == self.shades.0@[j as int].0@);
            }
            if candidate == *property {
                return true;
            }
            j = j + 1;
        }
        false
    }
}

/// Writes the custom property under which the entry that `reference` names
/// is declared.
pub fn write_declared_property(reference: &str) -> (res: String)
    ensures
        res@ == declared_property(reference@),
{
    if starts_with(reference, "--gradient") {
        let from = "--gradient".unicode_len();
        let to = reference.unicode_len();
        let rest = reference.substring_char(from, to);
        proof {
            assert(reference@.subrange(from as int, to as int) =~= reference@.skip(from as int));
        }
        let mut out = String::from_str("--color");
        out.append(rest);
        out
    } else {
        String::from_str(reference)
    }
}

impl Primitives {
    /// Whether a shade or a standalone colour is declared under the custom
    /// property `property`.
    pub fn declares_color(&self, property: &str) -> (res: bool)
        ensures
            res == self@.declares_color(property@),
    {
        let wanted = String::from_str(property);
        let n: usize = self.color_palettes.len();
        let mut i: usize = 0;
        while i < n
            invariant
                n == self.color_palettes.len(),
                i <= n,
                wanted@ == property@,
                forall|a: int, b: int| 0 <= a < i ==> !self@.shade_is(a, b, property@),
            decreases n - i,
        {
            if self.color_palettes[i].declares_shade(&wanted) {
                proof {
                    let j = choose|j: int|
                        0 <= j < self.color_palettes@[i as int]@.shades.len() && wanted@
                            == palette_prefix(self.color_palettes@[i as int]@.palette_name)
                            + #[trigger] self.color_palettes@[i as int]@.shades[j].0;
                    assert(self@.shade_is(i as int, j, property@));
                }
                return true;
            }
            i = i + 1;
        }
        let m: usize = self.single_colors.0.len();
        let mut k: usize = 0;
        while k < m
            invariant
                m == self.single_colors.0.len(),
                k <= m,
                wanted@ == property@,
                forall|a: int, b: int| !self@.shade_is(a, b, property@),
                forall|c: int| 0 <= c < k ==> !self@.single_color_is(c, property@),
            decreases m - k,
        {
            let mut candidate = String::from_str("--color-single-");
            candidate.append(self.single_colors.0[k].0.as_str());
            proof {
                assert(self@.single_colors[k as int].0 == self.single_colors.0@[k as int].0@);
            }
            if candidate == wanted {
                proof {
                    assert(self@.single_color_is(k as int, property@));
                }
                return true;
            }
            k = k + 1;
        }
        false
    }
}

impl Primitives {
    /// Whether `reference` names a declared colour, with or without the
    /// gradient marker.
    pub fn resolves(&self, reference: &str) -> (res: bool)
        ensures
            res == self@.resolves(reference@),
    {
        let property = write_declared_property(reference);
        self.declares_color(property.as_str())
    }
}

/// Appends a path made of `path` and `part`, with the reference `target`.
pub fn push_reference(out: &mut Vec<(String, String)>, path: &str, part: &str, target: &String)
    ensures
        final(out).deep_view() == old(out).deep_view().push((path@ + part@, target@)),
{
    let mut token = String::from_str(path);
    token.append(part);
    out.push((token, target.clone()));
    proof {
        assert(out.deep_view() =~= old(out).deep_view().push((path@ + part@, target@)));
    }
}

/// Appends the three references of one interaction state.
fn push_state_references(out: &mut Vec<(String, String)>, state: &ColorState, path: &str)
    ensures
        final(out).deep_view() == old(out).deep_view() + state_references(state@, path@),
{
    push_reference(out, path, ".bg", &state.bg.0);
    push_reference(out, path, ".border", &state.border.0);
    push_reference(out, path, ".text", &state.text.0);
    proof {
        assert(out.deep_view() =~= old(out).deep_view() + state_references(state@, path@));
    }
}

/// Appends the references of an interaction state that may be absent, whose
/// path is made of `path` and `part`.
fn push_optional_state_references(
    out: &mut Vec<(String, String)>,
    state: &Option<ColorState>,
    path: &str,
    part: &str,
)
    ensures
        final(out).deep_view() == old(out).deep_view() + optional_state_references(
            state.deep_view(),
            path@ + part@,
        ),
{
    match state {
        Some(colors) => {
            let mut state_path = String::from_str(path);
            state_path.append(part);
            push_state_references(out, colors, state_path.as_str());
        },
        None => {
            proof {
                assert(out.deep_view() =~= old(out).deep_view() + Seq::<
                    (Seq<char>, Seq<char>),
                >::empty());
            }
        },
    }
}

impl ColorSet {
    /// Appends the references of every state that the set defines.
    fn push_references(&self, out: &mut Vec<(String, String)>, path: &str)
        ensures
            final(out).deep_view() == old(out).deep_view() + self@.references(path@),
    {
        let mut default_path = String::from_str(path);
        default_path.append(".default");
        push_state_references(out, &self.default, default_path.as_str());
        push_optional_state_references(out, &self.hover, path, ".hover");
        push_optional_state_references(out, &self.active, path, ".active");
        push_optional_state_references(out, &self.focus, path, ".focus");
        proof {
            assert(out.deep_view() =~= old(out).deep_view() + self@.references(path@));
        }
    }
}

impl ColorTheme {
    /// Appends the references of the light set, then those of the dark set.
    fn push_references(&self, out: &mut Vec<(String, String)>)
        ensures
            final(out).deep_view() == old(out).deep_view() + self@.references(),
    {
        let mut light_path = self.theme_name.clone();
        light_path.append(".light");
        self.light.push_references(out, light_path.as_str());
        match &self.dark {
            Some(colors) => {
                let mut dark_path = self.theme_name.clone();
                dark_path.append(".dark");
                colors.push_references(out, dark_path.as_str());
            },
            None => {},
        }
        proof {
            assert(out.deep_view() =~= old(out).deep_view() + self@.references());
        }
    }
}

/// Every colour reference of `themes`, with the path of its token.
fn collect_references(themes: &Vec<ColorTheme>) -> (res: Vec<(String, String)>)
    ensures
        res.deep_view() == themes_references(themes.deep_view()),
{
    let mut out: Vec<(String, String)> = Vec::new();
    let n: usize = themes.len();
    let mut i: usize = 0;
    proof {
        assert(themes.deep_view().take(0) =~= Seq::<ColorThemeView>::empty());
        assert(out.deep_view() =~= Seq::<(Seq<char>, Seq<char>)>::empty());
    }
    while i < n
        invariant
            n == themes.len(),
            i <= n,
            out.deep_view() == themes_references(themes.deep_view().take(i as int)),
        decreases n - i,
    {
        themes[i].push_references(&mut out);
        proof {
            let next = themes.deep_view().take(i + 1);
            assert(next.drop_last() =~= themes.deep_view().take(i as int));
            assert(next.last() == themes@[i as int]@);
        }
        i = i + 1;
    }
    proof {
        assert(themes.deep_view().take(n as int) =~= themes.deep_view());
    }
    out
}

impl Primitives {
    /// The names of the palettes, in order.
    pub fn palette_names(&self) -> (res: Vec<String>)
        ensures
            texts(res@) == self@.palette_names(),
    {
        let mut out: Vec<String> = Vec::new();
        let n: usize = self.color_palettes.len();
        let mut i: usize = 0;
        while i < n
            invariant
                n == self.color_palettes.len(),
                i <= n,
                out.len() == i,
                forall|k: int|
                    0 <= k < i ==> (#[trigger] out@[k])@ == self.color_palettes@[k].palette_name@,
            decreases n - i,
        {
            out.push(self.color_palettes[i].palette_name.clone());
            i = i + 1;
        }
        proof {
            assert(texts(out@) =~= self@.palette_names());
        }
        out
    }
}

impl DesignSystem {
    /// The names of the themes, in order.
    fn theme_names(&self) -> (res: Vec<String>)
        ensures
            texts(res@) == self@.theme_names(),
    {
        let mut out: Vec<String> = Vec::new();
        let n: usize = self.tokens.colors_themes.len();
        let mut i: usize = 0;
        while i < n
            invariant
                n == self.tokens.colors_themes.len(),
                i <= n,
                out.len() == i,
                forall|k: int|
                    0 <= k < i ==> (#[trigger] out@[k])@
                        == self.tokens.colors_themes@[k].theme_name@,
            decreases n - i,
        {
            out.push(self.tokens.colors_themes[i].theme_name.clone());
            i = i + 1;
        }
        proof {
            assert(texts(out@) =~= self@.theme_names());
        }
        out
    }

    /// Looks for the first fault of the design system: a name that is
    /// declared twice, or a colour reference that names no declared colour.
    pub fn validate(&self) -> (res: Result<(), CompileError>)
        ensures
            res is Ok <==> self@.valid(),
            res matches Err(error) ==> self@.first_fault(error@),
    {
        let primitives = &self.primitives;
        let names = primitives.palette_names();
        match find_repeat(&names) {
            Some(j) => {
                return Err(CompileError::Validation(ValidationError::DuplicatePalette(names[j].clone())));
            },
            None => {},
        }
        let n: usize = primitives.color_palettes.len();
        let mut i: usize = 0;
        while i < n
            invariant
                n == primitives.color_palettes.len(),
                i <= n,
                primitives == &self.primitives,
                all_distinct(self@.primitives.palette_names()),
                self@.primitives.shades_distinct(i as int),
            decreases n - i,
        {
            let palette = &primitives.color_palettes[i];
            let labels = entry_keys(&palette.shades.0);
            match find_repeat(&labels) {
                Some(j) => {
                    proof {
                        assert(self@.primitives.color_palettes[i as int] == palette@);
                        assert(!all_distinct(keys(self@.primitives.color_palettes[i as int].shades)));
                    }
                    return Err(
                        CompileError::Validation(
                            ValidationError::DuplicateShade {
                                palette: palette.palette_name.clone(),
                                label: labels[j].clone(),
                            },
                        ),
                    );
                },
                None => {},
            }
            proof {
                assert(self@.primitives.color_palettes[i as int] == palette@);
            }
            i = i + 1;
        }
        let single_colors = entry_keys(&primitives.single_colors.0);
        match find_repeat(&single_colors) {
            Some(j) => {
                return Err(
                    CompileError::Validation(
                        ValidationError::DuplicateSingleColor(single_colors[j].clone()),
                    ),
                );
            },
            None => {},
        }
        let spaces = entry_keys(&primitives.space.0);
        match find_repeat(&spaces) {
            Some(j) => {
                proof {
                    assert(first_repeat(keys(self@.primitives.space), j as int));
                    assert(spaces@[j as int]@ == self@.primitives.space[j as int].0);
                }
                return Err(CompileError::Validation(ValidationError::DuplicateSpace(spaces[j].clone())));
            },
            None => {},
        }
        let themes = self.theme_names();
        match find_repeat(&themes) {
            Some(j) => {
                return Err(CompileError::Validation(ValidationError::DuplicateTheme(themes[j].clone())));
            },
            None => {},
        }
        let references = collect_references(&self.tokens.colors_themes);
        let count: usize = references.len();
        let mut k: usize = 0;
        while k < count
            invariant
                count == references.len(),
                k <= count,
                primitives == &self.primitives,
                self@.structure_valid(),
                references.deep_view() == self@.references(),
                forall|m: int|
                    0 <= m < k ==> self@.primitives.resolves(
                        (#[trigger] self@.references()[m]).1,
                    ),
            decreases count - k,
        {
            let reference = &references[k];
            proof {
                assert(self@.references()[k as int] == (reference.0@, reference.1@));
            }
            if !primitives.resolves(reference.1.as_str()) {
                return Err(
                    CompileError::Reference(
                        ReferenceError { token: reference.0.clone(), target: reference.1.clone() },
                    ),
                );
            }
            k = k + 1;
        }
        Ok(())
    }
}

/// Compiles a design system into its stylesheet, or says why it has none.
/// Nothing is written for a design system with a fault.
pub fn design_system_to_stylesheet(design_system: &DesignSystem) -> (res: Result<
    String,
    CompileError,
>)
    ensures
        res is Ok <==> design_system@.valid(),
        res matches Ok(text) ==> text@ == design_system@.stylesheet(),
        res matches Err(error) ==> design_system@.first_fault(error@),
{
    match design_system.validate() {
        Ok(()) => Ok(design_system.to_stylesheet()),
        Err(error) => Err(error),
    }
}

} // verus!
