use indexmap::IndexMap;
use std::path::PathBuf;
use vstd::prelude::*;
use vstd::string::*;
use crate::ordered_entries::{
    index_map_entries, index_map_insert, index_map_new, index_map_to_vec, inserted_all,
    lemma_distinct_entries_are_kept,
};
use crate::workspace_domain::design_system_domain::{keys_distinct, Entries};

verus! {

/// `std::path::PathBuf`, carried through as an opaque value.
#[verifier::external_type_specification]
#[verifier::external_body]
pub struct ExPathBuf(PathBuf);

/// `PathBuf::clone`: the copy is the same path.
pub assume_specification[ <PathBuf as Clone>::clone ](path: &PathBuf) -> (res: PathBuf)
    ensures
        res == *path,
;

/// What identifies an open design system: its identity, where it is stored
/// and what the editor may do with it.
#[derive(Debug, Clone)]
pub struct DesignSystemMetadata {
    pub design_system_id: String,
    pub design_system_name: String,
    pub dark_mode: bool,
    pub design_system_path: PathBuf,
    pub is_tmp: bool,
    pub can_undo: bool,
    pub can_redo: bool,
}

/// The view of [`DesignSystemMetadata`]: its texts as sequences of characters.
pub struct DesignSystemMetadataView {
    pub design_system_id: Seq<char>,
    pub design_system_name: Seq<char>,
    pub dark_mode: bool,
    pub design_system_path: PathBuf,
    pub is_tmp: bool,
    pub can_undo: bool,
    pub can_redo: bool,
}

impl View for DesignSystemMetadata {
    type V = DesignSystemMetadataView;

    open spec fn view(&self) -> DesignSystemMetadataView {
        DesignSystemMetadataView {
            design_system_id: self.design_system_id@,
            design_system_name: self.design_system_name@,
            dark_mode: self.dark_mode,
            design_system_path: self.design_system_path,
            is_tmp: self.is_tmp,
            can_undo: self.can_undo,
            can_redo: self.can_redo,
        }
    }
}

/// The part of the metadata that is stored with the design system.
#[derive(Debug, Clone)]
pub struct DesignSystemMetadataFile {
    pub design_system_id: String,
    pub design_system_name: String,
    pub dark_mode: bool,
}

/// The view of [`DesignSystemMetadataFile`]: its texts as sequences of characters.
pub struct DesignSystemMetadataFileView {
    pub design_system_id: Seq<char>,
    pub design_system_name: Seq<char>,
    pub dark_mode: bool,
}

impl View for DesignSystemMetadataFile {
    type V = DesignSystemMetadataFileView;

    open spec fn view(&self) -> DesignSystemMetadataFileView {
        DesignSystemMetadataFileView {
            design_system_id: self.design_system_id@,
            design_system_name: self.design_system_name@,
            dark_mode: self.dark_mode,
        }
    }
}

/// The metadata as the home screen shows it, with the edit mode of the session.
#[derive(Debug, Clone)]
pub struct DesignSystemMetadataHome {
    pub design_system_id: String,
    pub design_system_name: String,
    pub dark_mode: bool,
    pub design_system_path: PathBuf,
    pub is_tmp: bool,
    pub edit_mode: Option<bool>,
    pub can_undo: bool,
    pub can_redo: bool,
}

/// The view of [`DesignSystemMetadataHome`]: its texts as sequences of characters.
pub struct DesignSystemMetadataHomeView {
    pub design_system_id: Seq<char>,
    pub design_system_name: Seq<char>,
    pub dark_mode: bool,
    pub design_system_path: PathBuf,
    pub is_tmp: bool,
    pub edit_mode: Option<bool>,
    pub can_undo: bool,
    pub can_redo: bool,
}

impl View for DesignSystemMetadataHome {
    type V = DesignSystemMetadataHomeView;

    open spec fn view(&self) -> DesignSystemMetadataHomeView {
        DesignSystemMetadataHomeView {
            design_system_id: self.design_system_id@,
            design_system_name: self.design_system_name@,
            dark_mode: self.dark_mode,
            design_system_path: self.design_system_path,
            is_tmp: self.is_tmp,
            edit_mode: self.edit_mode,
            can_undo: self.can_undo,
            can_redo: self.can_redo,
        }
    }
}

impl DesignSystemMetadataHome {
    /// The metadata with the edit mode added; nothing else changes.
    pub fn from(metadata: DesignSystemMetadata, edit_mode: Option<bool>) -> (res:
        DesignSystemMetadataHome)
        ensures
            res@ == (DesignSystemMetadataHomeView {
                design_system_id: metadata@.design_system_id,
                design_system_name: metadata@.design_system_name,
                dark_mode: metadata@.dark_mode,
                design_system_path: metadata@.design_system_path,
                is_tmp: metadata@.is_tmp,
                edit_mode,
                can_undo: metadata@.can_undo,
                can_redo: metadata@.can_redo,
            }),
    {
        let DesignSystemMetadata {
            dark_mode,
            design_system_id,
            design_system_name,
            design_system_path,
            is_tmp,
            can_redo,
            can_undo,
        } = metadata;
        DesignSystemMetadataHome {
            dark_mode,
            design_system_id,
            design_system_name,
            design_system_path,
            edit_mode,
            is_tmp,
            can_redo,
            can_undo,
        }
    }
}

impl DesignSystemMetadataFile {
    /// The stored part of `design_system_metadata`.
    pub fn from(design_system_metadata: &DesignSystemMetadata) -> (res: DesignSystemMetadataFile)
        ensures
            res@ == (DesignSystemMetadataFileView {
                design_system_id: design_system_metadata@.design_system_id,
                design_system_name: design_system_metadata@.design_system_name,
                dark_mode: design_system_metadata@.dark_mode,
            }),
    {
        DesignSystemMetadataFile {
            design_system_id: design_system_metadata.design_system_id.clone(),
            dark_mode: design_system_metadata.dark_mode,
            design_system_name: design_system_metadata.design_system_name.clone(),
        }
    }
}

impl DesignSystemMetadata {
    /// The metadata of a design system that was just read from `path`:
    /// nothing can be undone or redone yet.
    pub fn from(design_system_file: &DesignSystemMetadataFile, path: &PathBuf, is_tmp: bool) -> (res:
        DesignSystemMetadata)
        ensures
            res@ == (DesignSystemMetadataView {
                design_system_id: design_system_file@.design_system_id,
                design_system_name: design_system_file@.design_system_name,
                dark_mode: design_system_file@.dark_mode,
                design_system_path: *path,
                is_tmp,
                can_undo: false,
                can_redo: false,
            }),
    {
        DesignSystemMetadata {
            dark_mode: design_system_file.dark_mode,
            design_system_id: design_system_file.design_system_id.clone(),
            design_system_name: design_system_file.design_system_name.clone(),
            design_system_path: path.clone(),
            is_tmp,
            can_redo: false,
            can_undo: false,
        }
    }
}

/// What the user enters to create a design system.
#[derive(Debug)]
pub struct DesignSystemCreationPayload {
    pub name: String,
    pub folder_path: String,
    pub dark_mode: bool,
}

/// A colour reference with, where dark mode differs, the reference that
/// replaces it there.
#[derive(Debug)]
pub struct ColorDarkable {
    pub default: Option<String>,
    pub dark: Option<String>,
}

/// The view of [`ColorDarkable`]: its texts as sequences of characters.
pub struct ColorDarkableView {
    pub default: Option<Seq<char>>,
    pub dark: Option<Seq<char>>,
}

impl ColorDarkableView {
    /// The token with both references set.
    pub open spec fn of(default: Seq<char>, dark: Seq<char>) -> ColorDarkableView {
        ColorDarkableView { default: Some(default), dark: Some(dark) }
    }
}

impl View for ColorDarkable {
    type V = ColorDarkableView;

    open spec fn view(&self) -> ColorDarkableView {
        ColorDarkableView { default: self.default.deep_view(), dark: self.dark.deep_view() }
    }
}

impl ColorDarkable {
    /// The token with both references set.
    pub fn of(default: &str, dark: &str) -> (res: ColorDarkable)
        ensures
            res@ == ColorDarkableView::of(default@, dark@),
    {
        ColorDarkable { default: Some(String::from_str(default)), dark: Some(String::from_str(dark)) }
    }
}

impl Clone for ColorDarkable {
    fn clone(&self) -> (res: ColorDarkable)
        ensures
            res == *self,
    {
        ColorDarkable {
            default: match &self.default {
                Some(reference) => Some(reference.clone()),
                None => None,
            },
            dark: match &self.dark {
                Some(reference) => Some(reference.clone()),
                None => None,
            },
        }
    }
}

/// The three colour tokens of one interaction state of a theme.
#[derive(Debug)]
pub struct ThemeColorSet {
    pub background: ColorDarkable,
    pub border: ColorDarkable,
    pub text: ColorDarkable,
}

/// The view of [`ThemeColorSet`]: its texts as sequences of characters.
pub struct ThemeColorSetView {
    pub background: ColorDarkableView,
    pub border: ColorDarkableView,
    pub text: ColorDarkableView,
}

impl View for ThemeColorSet {
    type V = ThemeColorSetView;

    open spec fn view(&self) -> ThemeColorSetView {
        ThemeColorSetView {
            background: self.background@,
            border: self.border@,
            text: self.text@,
        }
    }
}

impl DeepView for ThemeColorSet {
    type V = ThemeColorSetView;

    open spec fn deep_view(&self) -> ThemeColorSetView {
        self@
    }
}

impl Clone for ThemeColorSet {
    fn clone(&self) -> (res: ThemeColorSet)
        ensures
            res == *self,
    {
        ThemeColorSet {
            background: self.background.clone(),
            border: self.border.clone(),
            text: self.text.clone(),
        }
    }
}

/// The base colours of a design system, one token per role.
#[derive(Debug, Clone)]
pub struct Base {
    pub background: ColorDarkable,
    pub border: ColorDarkable,
    pub text_light: ColorDarkable,
    pub text_default: ColorDarkable,
    pub text_dark: ColorDarkable,
    pub background_disabled: ColorDarkable,
    pub text_disabled: ColorDarkable,
    pub border_disabled: ColorDarkable,
}

/// The view of [`Base`]: its texts as sequences of characters.
pub struct BaseView {
    pub background: ColorDarkableView,
    pub border: ColorDarkableView,
    pub text_light: ColorDarkableView,
    pub text_default: ColorDarkableView,
    pub text_dark: ColorDarkableView,
    pub background_disabled: ColorDarkableView,
    pub text_disabled: ColorDarkableView,
    pub border_disabled: ColorDarkableView,
}

impl BaseView {
    /// The base colours of a new design system: shades of the neutral palette.
    pub open spec fn initial() -> BaseView {
        BaseView {
            background: ColorDarkableView::of("palette-neutral-50"@, "palette-neutral-950"@),
            border: ColorDarkableView::of("palette-neutral-300"@, "palette-neutral-700"@),
            text_light: ColorDarkableView::of("palette-neutral-500"@, "palette-neutral-500"@),
            text_default: ColorDarkableView::of("palette-neutral-700"@, "palette-neutral-300"@),
            text_dark: ColorDarkableView::of("palette-neutral-900"@, "palette-neutral-100"@),
            background_disabled: ColorDarkableView::of(
                "palette-neutral-200"@,
                "palette-neutral-700"@,
            ),
            text_disabled: ColorDarkableView::of("palette-neutral-500"@, "palette-neutral-500"@),
            border_disabled: ColorDarkableView::of("palette-neutral-300"@, "palette-neutral-600"@),
        }
    }
}

impl View for Base {
    type V = BaseView;

    open spec fn view(&self) -> BaseView {
        BaseView {
            background: self.background@,
            border: self.border@,
            text_light: self.text_light@,
            text_default: self.text_default@,
            text_dark: self.text_dark@,
            background_disabled: self.background_disabled@,
            text_disabled: self.text_disabled@,
            border_disabled: self.border_disabled@,
        }
    }
}

impl Base {
    /// The base colours of a new design system.
    pub fn new() -> (res: Base)
        ensures
            res@ == BaseView::initial(),
    {
        Base {
            background: ColorDarkable::of("palette-neutral-50", "palette-neutral-950"),
            border: ColorDarkable::of("palette-neutral-300", "palette-neutral-700"),
            text_dark: ColorDarkable::of("palette-neutral-900", "palette-neutral-100"),
            text_default: ColorDarkable::of("palette-neutral-700", "palette-neutral-300"),
            text_light: ColorDarkable::of("palette-neutral-500", "palette-neutral-500"),
            background_disabled: ColorDarkable::of("palette-neutral-200", "palette-neutral-700"),
            border_disabled: ColorDarkable::of("palette-neutral-300", "palette-neutral-600"),
            text_disabled: ColorDarkable::of("palette-neutral-500", "palette-neutral-500"),
        }
    }
}

/// A colour theme: its name, the colours of its default state and those of
/// the interaction states that it defines.
#[derive(Debug, Clone)]
pub struct ThemeColor {
    pub theme_name: String,
    pub default: ThemeColorSet,
    pub hover: Option<ThemeColorSet>,
    pub active: Option<ThemeColorSet>,
    pub focus: Option<ThemeColorSet>,
}

/// The view of [`ThemeColor`]: its texts as sequences of characters.
pub struct ThemeColorView {
    pub theme_name: Seq<char>,
    pub default: ThemeColorSetView,
    pub hover: Option<ThemeColorSetView>,
    pub active: Option<ThemeColorSetView>,
    pub focus: Option<ThemeColorSetView>,
}

impl ThemeColorView {
    /// The theme of a new design system: `neutral`, with a hover state.
    pub open spec fn initial() -> ThemeColorView {
        ThemeColorView {
            theme_name: "neutral"@,
            default: ThemeColorSetView {
                background: ColorDarkableView::of("palette-neutral-50"@, "palette-neutral-950"@),
                border: ColorDarkableView::of("palette-neutral-300"@, "palette-neutral-700"@),
                text: ColorDarkableView::of("palette-neutral-700"@, "palette-neutral-300"@),
            },
            hover: Some(
                ThemeColorSetView {
                    background: ColorDarkableView::of(
                        "palette-neutral-200"@,
                        "palette-neutral-800"@,
                    ),
                    border: ColorDarkableView::of("palette-neutral-300"@, "palette-neutral-700"@),
                    text: ColorDarkableView::of("palette-neutral-700"@, "palette-neutral-100"@),
                },
            ),
            active: None,
            focus: None,
        }
    }
}

impl View for ThemeColor {
    type V = ThemeColorView;

    open spec fn view(&self) -> ThemeColorView {
        ThemeColorView {
            theme_name: self.theme_name@,
            default: self.default@,
            hover: self.hover.deep_view(),
            active: self.active.deep_view(),
            focus: self.focus.deep_view(),
        }
    }
}

impl DeepView for ThemeColor {
    type V = ThemeColorView;

    open spec fn deep_view(&self) -> ThemeColorView {
        self@
    }
}

impl ThemeColor {
    /// The theme of a new design system.
    pub fn new() -> (res: ThemeColor)
        ensures
            res@ == ThemeColorView::initial(),
    {
        ThemeColor {
            theme_name: String::from_str("neutral"),
            default: ThemeColorSet {
                background: ColorDarkable::of("palette-neutral-50", "palette-neutral-950"),
                border: ColorDarkable::of("palette-neutral-300", "palette-neutral-700"),
                text: ColorDarkable::of("palette-neutral-700", "palette-neutral-300"),
            },
            hover: Some(
                ThemeColorSet {
                    background: ColorDarkable::of("palette-neutral-200", "palette-neutral-800"),
                    border: ColorDarkable::of("palette-neutral-300", "palette-neutral-700"),
                    text: ColorDarkable::of("palette-neutral-700", "palette-neutral-100"),
                },
            ),
            active: None,
            focus: None,
        }
    }
}

/// A theme as it is stored: its states, under the name of its file.
#[derive(Debug, Clone)]
pub struct ThemeColorFile {
    pub default_state: ThemeColorSet,
    pub hover: Option<ThemeColorSet>,
    pub active: Option<ThemeColorSet>,
    pub focus: Option<ThemeColorSet>,
}

/// The view of [`ThemeColorFile`]: its texts as sequences of characters.
pub struct ThemeColorFileView {
    pub default_state: ThemeColorSetView,
    pub hover: Option<ThemeColorSetView>,
    pub active: Option<ThemeColorSetView>,
    pub focus: Option<ThemeColorSetView>,
}

impl View for ThemeColorFile {
    type V = ThemeColorFileView;

    open spec fn view(&self) -> ThemeColorFileView {
        ThemeColorFileView {
            default_state: self.default_state@,
            hover: self.hover.deep_view(),
            active: self.active.deep_view(),
            focus: self.focus.deep_view(),
        }
    }
}

/// A copy of an interaction state that may be absent.
fn clone_state(state: &Option<ThemeColorSet>) -> (res: Option<ThemeColorSet>)
    ensures
        res == *state,
{
    match state {
        Some(colors) => Some(colors.clone()),
        None => None,
    }
}

impl ThemeColorFile {
    /// The states of `theme_color`, without its name.
    pub fn from(theme_color: &ThemeColor) -> (res: ThemeColorFile)
        ensures
            res@ == (ThemeColorFileView {
                default_state: theme_color@.default,
                hover: theme_color@.hover,
                active: theme_color@.active,
                focus: theme_color@.focus,
            }),
    {
        ThemeColorFile {
            default_state: theme_color.default.clone(),
            hover: clone_state(&theme_color.hover),
            active: clone_state(&theme_color.active),
            focus: clone_state(&theme_color.focus),
        }
    }

    /// The theme called `theme_name` with the states of `theme_file`.
    pub fn to(theme_file: &ThemeColorFile, theme_name: &str) -> (res: ThemeColor)
        ensures
            res@ == (ThemeColorView {
                theme_name: theme_name@,
                default: theme_file@.default_state,
                hover: theme_file@.hover,
                active: theme_file@.active,
                focus: theme_file@.focus,
            }),
    {
        ThemeColor {
            default: theme_file.default_state.clone(),
            hover: clone_state(&theme_file.hover),
            active: clone_state(&theme_file.active),
            focus: clone_state(&theme_file.focus),
            theme_name: String::from_str(theme_name),
        }
    }
}

/// The order of the palettes of a design system, by name.
#[derive(Debug, Clone)]
pub struct PalettesMetadataFile {
    pub palettes_order: Vec<String>,
}

/// The order of the themes of a design system, by name.
#[derive(Debug, Clone)]
pub struct ThemesMetadataFile {
    pub themes_order: Vec<String>,
}

/// One shade of a palette: its label and its colour.
#[derive(Debug, Clone)]
pub struct Shade {
    pub label: String,
    pub color: String,
}

impl View for Shade {
    type V = (Seq<char>, Seq<char>);

    open spec fn view(&self) -> (Seq<char>, Seq<char>) {
        (self.label@, self.color@)
    }
}

impl DeepView for Shade {
    type V = (Seq<char>, Seq<char>);

    open spec fn deep_view(&self) -> (Seq<char>, Seq<char>) {
        self@
    }
}

/// A named colour palette with its shades in order.
#[derive(Debug, Clone)]
pub struct Palette {
    pub palette_name: String,
    pub palette_path: Option<PathBuf>,
    pub shades: Vec<Shade>,
}

/// The view of [`Palette`]: its texts as sequences of characters.
pub struct PaletteView {
    pub palette_name: Seq<char>,
    pub palette_path: Option<PathBuf>,
    pub shades: Seq<(Seq<char>, Seq<char>)>,
}

impl View for Palette {
    type V = PaletteView;

    open spec fn view(&self) -> PaletteView {
        PaletteView {
            palette_name: self.palette_name@,
            palette_path: self.palette_path,
            shades: self.shades.deep_view(),
        }
    }
}

impl DeepView for Palette {
    type V = PaletteView;

    open spec fn deep_view(&self) -> PaletteView {
        self@
    }
}

/// One spacing step: its key and its value.
#[derive(Debug, Clone)]
pub struct Space {
    pub space_key: String,
    pub space_value: String,
}

impl View for Space {
    type V = (Seq<char>, Seq<char>);

    open spec fn view(&self) -> (Seq<char>, Seq<char>) {
        (self.space_key@, self.space_value@)
    }
}

impl DeepView for Space {
    type V = (Seq<char>, Seq<char>);

    open spec fn deep_view(&self) -> (Seq<char>, Seq<char>) {
        self@
    }
}

/// A font beside the default one.
#[derive(Debug, Clone)]
pub struct AdditionalFont {
    pub font_name: String,
    pub value: String,
}

impl View for AdditionalFont {
    type V = (Seq<char>, Seq<char>);

    open spec fn view(&self) -> (Seq<char>, Seq<char>) {
        (self.font_name@, self.value@)
    }
}

impl DeepView for AdditionalFont {
    type V = (Seq<char>, Seq<char>);

    open spec fn deep_view(&self) -> (Seq<char>, Seq<char>) {
        self@
    }
}

/// The fonts of a design system.
#[derive(Debug, Clone)]
pub struct Fonts {
    pub default: String,
    pub additionals: Vec<AdditionalFont>,
}

/// The view of [`Fonts`]: its texts as sequences of characters.
pub struct FontsView {
    pub default: Seq<char>,
    pub additionals: Seq<(Seq<char>, Seq<char>)>,
}

impl View for Fonts {
    type V = FontsView;

    open spec fn view(&self) -> FontsView {
        FontsView { default: self.default@, additionals: self.additionals.deep_view() }
    }
}

impl Fonts {
    /// The fonts of a new design system: a sans-serif stack and nothing else.
    pub fn new() -> (res: Fonts)
        ensures
            res@ == (FontsView {
                default: "'Helvetica', 'Arial', sans-serif"@,
                additionals: Seq::empty(),
            }),
    {
        let res = Fonts {
            default: String::from_str("'Helvetica', 'Arial', sans-serif"),
            additionals: Vec::new(),
        };
        proof {
            assert(res@.additionals =~= Seq::empty());
        }
        res
    }
}

/// The slant of a text.
#[derive(Debug, Clone, Copy, PartialEq, Eq, Structural)]
pub enum FontStyle {
    Normal,
    Italic,
    Oblique,
}

/// The change of case of a text.
#[derive(Debug, Clone, Copy, PartialEq, Eq, Structural)]
pub enum TextTransform {
    NoTransform,
    Uppercase,
    Lowercase,
    Capitalize,
}

/// The line drawn with a text.
#[derive(Debug, Clone, Copy, PartialEq, Eq, Structural)]
pub enum TextDecoration {
    NoDecoration,
    Underline,
    Overline,
    LineThrough,
}

/// The weight of a font, in hundreds from 100 to 900.
#[derive(Debug, Clone, Copy, PartialEq, Eq, Structural)]
pub enum FontWeight {
    One,
    Two,
    Three,
    Four,
    Five,
    Six,
    Seven,
    Eight,
    Nine,
}

impl FontWeight {
    /// The weight as a number.
    pub open spec fn weight(self) -> nat {
        match self {
            FontWeight::One => 100,
            FontWeight::Two => 200,
            FontWeight::Three => 300,
            FontWeight::Four => 400,
            FontWeight::Five => 500,
            FontWeight::Six => 600,
            FontWeight::Seven => 700,
            FontWeight::Eight => 800,
            FontWeight::Nine => 900,
        }
    }

    /// The weight as a number.
    pub fn value(&self) -> (res: u16)
        ensures
            res == self.weight(),
    {
        match self {
            FontWeight::One => 100,
            FontWeight::Two => 200,
            FontWeight::Three => 300,
            FontWeight::Four => 400,
            FontWeight::Five => 500,
            FontWeight::Six => 600,
            FontWeight::Seven => 700,
            FontWeight::Eight => 800,
            FontWeight::Nine => 900,
        }
    }
}

/// The space between letters or words, from the tightest to the widest.
#[derive(Debug, Clone, Copy, PartialEq, Eq, Structural)]
pub enum TypographySpacing {
    MinusTwo,
    MinusOne,
    Zero,
    One,
    Two,
    Three,
}

/// The typography of one text scale.
#[derive(Debug, Clone)]
pub struct TypographyScale {
    pub font_size: String,
    pub line_height: String,
    pub font_weight: FontWeight,
    pub letter_spacing: TypographySpacing,
    pub word_spacing: TypographySpacing,
    pub font_style: FontStyle,
    pub text_transform: TextTransform,
    pub text_decoration: TextDecoration,
    pub padding: String,
    pub margin: String,
}

/// The view of [`TypographyScale`]: its texts as sequences of characters.
pub struct TypographyScaleView {
    pub font_size: Seq<char>,
    pub line_height: Seq<char>,
    pub font_weight: FontWeight,
    pub letter_spacing: TypographySpacing,
    pub word_spacing: TypographySpacing,
    pub font_style: FontStyle,
    pub text_transform: TextTransform,
    pub text_decoration: TextDecoration,
    pub padding: Seq<char>,
    pub margin: Seq<char>,
}

impl TypographyScaleView {
    /// An upright scale without spacing, transformation, decoration, padding
    /// or margin.
    pub open spec fn plain(
        font_size: Seq<char>,
        line_height: Seq<char>,
        font_weight: FontWeight,
    ) -> TypographyScaleView {
        TypographyScaleView {
            font_size,
            line_height,
            font_weight,
            letter_spacing: TypographySpacing::Zero,
            word_spacing: TypographySpacing::Zero,
            font_style: FontStyle::Normal,
            text_transform: TextTransform::NoTransform,
            text_decoration: TextDecoration::NoDecoration,
            padding: "0"@,
            margin: "0"@,
        }
    }
}

impl View for TypographyScale {
    type V = TypographyScaleView;

    open spec fn view(&self) -> TypographyScaleView {
        TypographyScaleView {
            font_size: self.font_size@,
            line_height: self.line_height@,
            font_weight: self.font_weight,
            letter_spacing: self.letter_spacing,
            word_spacing: self.word_spacing,
            font_style: self.font_style,
            text_transform: self.text_transform,
            text_decoration: self.text_decoration,
            padding: self.padding@,
            margin: self.margin@,
        }
    }
}

impl TypographyScale {
    /// An upright scale without spacing, transformation, decoration, padding
    /// or margin.
    pub fn plain(font_size: &str, line_height: &str, font_weight: FontWeight) -> (res:
        TypographyScale)
        ensures
            res@ == TypographyScaleView::plain(font_size@, line_height@, font_weight),
    {
        TypographyScale {
            font_size: String::from_str(font_size),
            line_height: String::from_str(line_height),
            font_weight,
            letter_spacing: TypographySpacing::Zero,
            word_spacing: TypographySpacing::Zero,
            font_style: FontStyle::Normal,
            text_transform: TextTransform::NoTransform,
            text_decoration: TextDecoration::NoDecoration,
            padding: String::from_str("0"),
            margin: String::from_str("0"),
        }
    }
}

/// A named text scale beside the fixed ones.
#[derive(Debug, Clone)]
pub struct AdditionalTypographyScale {
    pub scale_name: String,
    pub scale: TypographyScale,
}

impl View for AdditionalTypographyScale {
    type V = (Seq<char>, TypographyScaleView);

    open spec fn view(&self) -> (Seq<char>, TypographyScaleView) {
        (self.scale_name@, self.scale@)
    }
}

impl DeepView for AdditionalTypographyScale {
    type V = (Seq<char>, TypographyScaleView);

    open spec fn deep_view(&self) -> (Seq<char>, TypographyScaleView) {
        self@
    }
}

/// A named font weight.
#[derive(Debug, Clone)]
pub struct AdditionalFontWeight {
    pub weight_name: String,
    pub font_weight: FontWeight,
}

/// The text scales of a design system: the fixed ones and any number of
/// named ones.
#[derive(Debug, Clone)]
pub struct Typography {
    pub paragraph: TypographyScale,
    pub h1: TypographyScale,
    pub h2: TypographyScale,
    pub h3: TypographyScale,
    pub h4: TypographyScale,
    pub h5: TypographyScale,
    pub h6: TypographyScale,
    pub small: TypographyScale,
    pub strong: TypographyScale,
    pub additionals_scales: Vec<AdditionalTypographyScale>,
}

/// The view of [`Typography`]: its texts as sequences of characters.
pub struct TypographyView {
    pub paragraph: TypographyScaleView,
    pub h1: TypographyScaleView,
    pub h2: TypographyScaleView,
    pub h3: TypographyScaleView,
    pub h4: TypographyScaleView,
    pub h5: TypographyScaleView,
    pub h6: TypographyScaleView,
    pub small: TypographyScaleView,
    pub strong: TypographyScaleView,
    pub additionals_scales: Seq<(Seq<char>, TypographyScaleView)>,
}

impl TypographyView {
    /// The text scales of a new design system.
    pub open spec fn initial() -> TypographyView {
        TypographyView {
            paragraph: TypographyScaleView::plain("14px"@, "20px"@, FontWeight::Four),
            h1: TypographyScaleView::plain("32px"@, "40px"@, FontWeight::Seven),
            h2: TypographyScaleView::plain("28px"@, "36px"@, FontWeight::Six),
            h3: TypographyScaleView::plain("24px"@, "32px"@, FontWeight::Five),
            h4: TypographyScaleView::plain("20px"@, "28px"@, FontWeight::Five),
            h5: TypographyScaleView::plain("18px"@, "24px"@, FontWeight::Five),
            h6: TypographyScaleView::plain("16px"@, "22px"@, FontWeight::Five),
            small: TypographyScaleView::plain("12px"@, "16px"@, FontWeight::Four),
            strong: TypographyScaleView::plain("14px"@, "20px"@, FontWeight::Seven),
            additionals_scales: Seq::empty(),
        }
    }
}

impl View for Typography {
    type V = TypographyView;

    open spec fn view(&self) -> TypographyView {
        TypographyView {
            paragraph: self.paragraph@,
            h1: self.h1@,
            h2: self.h2@,
            h3: self.h3@,
            h4: self.h4@,
            h5: self.h5@,
            h6: self.h6@,
            small: self.small@,
            strong: self.strong@,
            additionals_scales: self.additionals_scales.deep_view(),
        }
    }
}

impl Typography {
    /// The text scales of a new design system.
    pub fn new() -> (res: Typography)
        ensures
            res@ == TypographyView::initial(),
    {
        let res = Typography {
            h1: TypographyScale::plain("32px", "40px", FontWeight::Seven),
            h2: TypographyScale::plain("28px", "36px", FontWeight::Six),
            h3: TypographyScale::plain("24px", "32px", FontWeight::Five),
            h4: TypographyScale::plain("20px", "28px", FontWeight::Five),
            h5: TypographyScale::plain("18px", "24px", FontWeight::Five),
            h6: TypographyScale::plain("16px", "22px", FontWeight::Five),
            paragraph: TypographyScale::plain("14px", "20px", FontWeight::Four),
            small: TypographyScale::plain("12px", "16px", FontWeight::Four),
            strong: TypographyScale::plain("14px", "20px", FontWeight::Seven),
            additionals_scales: Vec::new(),
        };
        proof {
            assert(res@.additionals_scales =~= Seq::empty());
        }
        res
    }
}

/// A named corner radius.
#[derive(Debug, Clone)]
pub struct RadiusItem {
    pub radius_key: String,
    pub radius_value: String,
}

impl View for RadiusItem {
    type V = (Seq<char>, Seq<char>);

    open spec fn view(&self) -> (Seq<char>, Seq<char>) {
        (self.radius_key@, self.radius_value@)
    }
}

impl DeepView for RadiusItem {
    type V = (Seq<char>, Seq<char>);

    open spec fn deep_view(&self) -> (Seq<char>, Seq<char>) {
        self@
    }
}

/// The corner radii of a design system: the default one and any number of
/// named ones.
#[derive(Debug, Clone)]
pub struct Radius {
    pub default: String,
    pub additionals_radius: Vec<RadiusItem>,
}

/// The view of [`Radius`]: its texts as sequences of characters.
pub struct RadiusView {
    pub default: Seq<char>,
    pub additionals_radius: Seq<(Seq<char>, Seq<char>)>,
}

impl View for Radius {
    type V = RadiusView;

    open spec fn view(&self) -> RadiusView {
        RadiusView {
            default: self.default@,
            additionals_radius: self.additionals_radius.deep_view(),
        }
    }
}

impl Radius {
    /// The radii of a new design system: square corners.
    pub fn new() -> (res: Radius)
        ensures
            res@ == (RadiusView { default: "0px"@, additionals_radius: Seq::empty() }),
    {
        let res = Radius { default: String::from_str("0px"), additionals_radius: Vec::new() };
        proof {
            assert(res@.additionals_radius =~= Seq::empty());
        }
        res
    }
}

/// The kinds of visual effect.
#[derive(Debug, Clone, Copy, PartialEq, Eq, Structural)]
pub enum EffectType {
    BoxShadow,
    Blur,
    BackdropFilter,
}

/// One layer of an effect: its kind and its value.
#[derive(Debug, Clone)]
pub struct EffectItem {
    pub effect_type: EffectType,
    pub effect_value: String,
}

impl View for EffectItem {
    type V = (EffectType, Seq<char>);

    open spec fn view(&self) -> (EffectType, Seq<char>) {
        (self.effect_type, self.effect_value@)
    }
}

impl DeepView for EffectItem {
    type V = (EffectType, Seq<char>);

    open spec fn deep_view(&self) -> (EffectType, Seq<char>) {
        self@
    }
}

/// A named visual effect: its layers and, where it has one, the reference of
/// its background colour.
#[derive(Debug, Clone)]
pub struct Effect {
    pub effect_name: String,
    pub items: Vec<EffectItem>,
    pub bg: Option<String>,
}

/// The view of [`Effect`]: its texts as sequences of characters.
pub struct EffectView {
    pub effect_name: Seq<char>,
    pub items: Seq<(EffectType, Seq<char>)>,
    pub bg: Option<Seq<char>>,
}

impl EffectView {
    /// The effect of a new design system: a soft shadow in two layers.
    pub open spec fn initial() -> EffectView {
        EffectView {
            effect_name: "shadow"@,
            items: seq![
                (EffectType::BoxShadow, "rgba(0, 0, 0, 0.1) 0px 1px 3px 0px"@),
                (EffectType::BoxShadow, "rgba(0, 0, 0, 0.06) 0px 1px 2px 0px"@),
            ],
            bg: None,
        }
    }
}

impl View for Effect {
    type V = EffectView;

    open spec fn view(&self) -> EffectView {
        EffectView {
            effect_name: self.effect_name@,
            items: self.items.deep_view(),
            bg: self.bg.deep_view(),
        }
    }
}

impl DeepView for Effect {
    type V = EffectView;

    open spec fn deep_view(&self) -> EffectView {
        self@
    }
}

impl Effect {
    /// The effect of a new design system.
    pub fn new() -> (res: Effect)
        ensures
            res@ == EffectView::initial(),
    {
        let mut items: Vec<EffectItem> = Vec::new();
        items.push(
            EffectItem {
                effect_type: EffectType::BoxShadow,
                effect_value: String::from_str("rgba(0, 0, 0, 0.1) 0px 1px 3px 0px"),
            },
        );
        items.push(
            EffectItem {
                effect_type: EffectType::BoxShadow,
                effect_value: String::from_str("rgba(0, 0, 0, 0.06) 0px 1px 2px 0px"),
            },
        );
        let res = Effect { effect_name: String::from_str("shadow"), bg: None, items };
        proof {
            assert(res@.items =~= EffectView::initial().items);
        }
        res
    }
}

/// A design system as the editor holds it.
#[derive(Debug, Clone)]
pub struct DesignSystem {
    pub metadata: DesignSystemMetadata,
    pub palettes: Vec<Palette>,
    pub base: Base,
    pub themes: Vec<ThemeColor>,
    pub fonts: Fonts,
    pub typography: Typography,
    pub spaces: Vec<Space>,
    pub radius: Radius,
    pub effects: Vec<Effect>,
}

/// The view of [`DesignSystem`]: its texts as sequences of characters.
pub struct DesignSystemView {
    pub metadata: DesignSystemMetadataView,
    pub palettes: Seq<PaletteView>,
    pub base: BaseView,
    pub themes: Seq<ThemeColorView>,
    pub fonts: FontsView,
    pub typography: TypographyView,
    pub spaces: Seq<(Seq<char>, Seq<char>)>,
    pub radius: RadiusView,
    pub effects: Seq<EffectView>,
}

impl View for DesignSystem {
    type V = DesignSystemView;

    open spec fn view(&self) -> DesignSystemView {
        DesignSystemView {
            metadata: self.metadata@,
            palettes: self.palettes.deep_view(),
            base: self.base@,
            themes: self.themes.deep_view(),
            fonts: self.fonts@,
            typography: self.typography@,
            spaces: self.spaces.deep_view(),
            radius: self.radius@,
            effects: self.effects.deep_view(),
        }
    }
}

/// The shades of a palette as they are stored: colours by label, in order.
#[derive(Debug)]
pub struct ShadesFile(pub IndexMap<String, String>);

impl View for ShadesFile {
    type V = Entries;

    open spec fn view(&self) -> Entries {
        index_map_entries(self.0)
    }
}

/// One shade: its label and its colour.
fn shade(label: &str, color: &str) -> (res: Shade)
    ensures
        res@ == (label@, color@),
{
    Shade { label: String::from_str(label), color: String::from_str(color) }
}

/// The shades of the neutral palette, from the lightest to the darkest.
pub open spec fn neutral_shades() -> Entries {
    Seq::empty().push(("50"@, "#FAFAFA"@)).push(("100"@, "#F5F5F5"@)).push(
        ("200"@, "#E5E5E5"@),
    ).push(("300"@, "#D4D4D4"@)).push(("400"@, "#A3A3A3"@)).push(("500"@, "#737373"@)).push(
        ("600"@, "#525252"@),
    ).push(("700"@, "#404040"@)).push(("800"@, "#262626"@)).push(("900"@, "#171717"@)).push(
        ("950"@, "#0A0A0A"@),
    )
}

/// Appends `item` to `items`.
fn push_shade(items: &mut Vec<Shade>, item: Shade)
    ensures
        final(items).deep_view() == old(items).deep_view().push(item@),
{
    items.push(item);
    proof {
        assert(items.deep_view() =~= old(items).deep_view().push(item@));
    }
}

/// The labels of the neutral palette are all different.
proof fn lemma_neutral_labels_differ()
    ensures
        keys_distinct(neutral_shades()),
{
    reveal_strlit("50");
    reveal_strlit("100");
    reveal_strlit("200");
    reveal_strlit("300");
    reveal_strlit("400");
    reveal_strlit("500");
    reveal_strlit("600");
    reveal_strlit("700");
    reveal_strlit("800");
    reveal_strlit("900");
    reveal_strlit("950");
    let labels = neutral_shades();
    assert forall|i: int, j: int| 0 <= i < j < labels.len() implies (#[trigger] labels[i]).0 != (
    #[trigger] labels[j]).0 by {
        let a = labels[i].0;
        let b = labels[j].0;
        assert(a.len() != b.len() || a[0] != b[0] || a[1] != b[1]);
    }
}

impl ShadesFile {
    /// The stored form of `shades`: each shade is inserted in order, so that a
    /// label that comes again keeps its first place and takes the later colour.
    pub fn from(shades: &Vec<Shade>) -> (res: ShadesFile)
        ensures
            res@ == inserted_all(Seq::empty(), shades.deep_view()),
    {
        let mut map = index_map_new();
        let n: usize = shades.len();
        let mut i: usize = 0;
        proof {
            assert(shades.deep_view().take(0) =~= Seq::empty());
        }
        while i < n
            invariant
                n == shades.len(),
                i <= n,
                index_map_entries(map) == inserted_all(
                    Seq::empty(),
                    shades.deep_view().take(i as int),
                ),
            decreases n - i,
        {
            let shade = &shades[i];
            proof {
                let next = shades.deep_view().take(i + 1);
                assert(next.drop_last() =~= shades.deep_view().take(i as int));
                assert(next.last() == shade@);
            }
            index_map_insert(&mut map, shade.label.clone(), shade.color.clone());
            i = i + 1;
        }
        proof {
            assert(shades.deep_view().take(n as int) =~= shades.deep_view());
        }
        ShadesFile(map)
    }

    /// The shades of the palette of a new design system: the neutral palette.
    pub fn new() -> (res: ShadesFile)
        ensures
            res@ == neutral_shades(),
    {
        let mut neutral_palette: Vec<Shade> = Vec::new();
        proof {
            assert(neutral_palette.deep_view() =~= Seq::empty());
        }
        push_shade(&mut neutral_palette, shade("50", "#FAFAFA"));
        push_shade(&mut neutral_palette, shade("100", "#F5F5F5"));
        push_shade(&mut neutral_palette, shade("200", "#E5E5E5"));
        push_shade(&mut neutral_palette, shade("300", "#D4D4D4"));
        push_shade(&mut neutral_palette, shade("400", "#A3A3A3"));
        push_shade(&mut neutral_palette, shade("500", "#737373"));
        push_shade(&mut neutral_palette, shade("600", "#525252"));
        push_shade(&mut neutral_palette, shade("700", "#404040"));
        push_shade(&mut neutral_palette, shade("800", "#262626"));
        push_shade(&mut neutral_palette, shade("900", "#171717"));
        push_shade(&mut neutral_palette, shade("950", "#0A0A0A"));
        proof {
            lemma_neutral_labels_differ();
            lemma_distinct_entries_are_kept(neutral_shades());
        }
        ShadesFile::from(&neutral_palette)
    }

    /// The shades of `shades_file`, in the order of the file.
    pub fn to(shades_file: &ShadesFile) -> (res: Vec<Shade>)
        ensures
            res.deep_view() == shades_file@,
    {
        let entries = index_map_to_vec(&shades_file.0);
        let mut out: Vec<Shade> = Vec::new();
        let n: usize = entries.len();
        let mut i: usize = 0;
        while i < n
            invariant
                n == entries.len(),
                i <= n,
                out.len() == i,
                forall|k: int| 0 <= k < i ==> (#[trigger] out@[k])@ == entries@[k].deep_view(),
            decreases n - i,
        {
            out.push(Shade { label: entries[i].0.clone(), color: entries[i].1.clone() });
            i = i + 1;
        }
        proof {
            assert(out.deep_view() =~= entries.deep_view());
        }
        out
    }
}

/// The spacing steps as they are stored: values by key, in order.
#[derive(Debug)]
pub struct SpacesFile(pub IndexMap<String, String>);

impl View for SpacesFile {
    type V = Entries;

    open spec fn view(&self) -> Entries {
        index_map_entries(self.0)
    }
}

/// One spacing step: its key and its value.
fn space(space_key: &str, space_value: &str) -> (res: Space)
    ensures
        res@ == (space_key@, space_value@),
{
    Space { space_key: String::from_str(space_key), space_value: String::from_str(space_value) }
}

/// Appends `item` to `items`.
fn push_space(items: &mut Vec<Space>, item: Space)
    ensures
        final(items).deep_view() == old(items).deep_view().push(item@),
{
    items.push(item);
    proof {
        assert(items.deep_view() =~= old(items).deep_view().push(item@));
    }
}

/// The spacing steps of a new design system, from the smallest to the largest.
pub open spec fn default_spaces() -> Entries {
    Seq::empty().push(("0"@, "0px"@)).push(("1"@, "2px"@)).push(("2"@, "4px"@)).push(
        ("3"@, "8px"@),
    ).push(("4"@, "12px"@)).push(("5"@, "16px"@)).push(("6"@, "20px"@)).push(
        ("7"@, "28px"@),
    ).push(("8"@, "32px"@)).push(("9"@, "40px"@)).push(("10"@, "52px"@)).push(
        ("11"@, "64px"@),
    ).push(("12"@, "80px"@)).push(("13"@, "100px"@)).push(("14"@, "120px"@)).push(
        ("15"@, "160px"@),
    )
}

/// The keys of the default spacing steps are all different.
proof fn lemma_default_space_keys_differ()
    ensures
        keys_distinct(default_spaces()),
{
    reveal_strlit("0");
    reveal_strlit("1");
    reveal_strlit("2");
    reveal_strlit("3");
    reveal_strlit("4");
    reveal_strlit("5");
    reveal_strlit("6");
    reveal_strlit("7");
    reveal_strlit("8");
    reveal_strlit("9");
    reveal_strlit("10");
    reveal_strlit("11");
    reveal_strlit("12");
    reveal_strlit("13");
    reveal_strlit("14");
    reveal_strlit("15");
    let steps = default_spaces();
    assert forall|i: int, j: int| 0 <= i < j < steps.len() implies (#[trigger] steps[i]).0 != (
    #[trigger] steps[j]).0 by {
        let a = steps[i].0;
        let b = steps[j].0;
        assert(a.len() != b.len() || a[0] != b[0] || a[1] != b[1]);
    }
}

impl SpacesFile {
    /// The stored form of `spaces`: each step is inserted in order, so that a
    /// key that comes again keeps its first place and takes the later value.
    pub fn from(spaces: &Vec<Space>) -> (res: SpacesFile)
        ensures
            res@ == inserted_all(Seq::empty(), spaces.deep_view()),
    {
        let mut map = index_map_new();
        let n: usize = spaces.len();
        let mut i: usize = 0;
        proof {
            assert(spaces.deep_view().take(0) =~= Seq::empty());
        }
        while i < n
            invariant
                n == spaces.len(),
                i <= n,
                index_map_entries(map) == inserted_all(
                    Seq::empty(),
                    spaces.deep_view().take(i as int),
                ),
            decreases n - i,
        {
            let space = &spaces[i];
            proof {
                let next = spaces.deep_view().take(i + 1);
                assert(next.drop_last() =~= spaces.deep_view().take(i as int));
                assert(next.last() == space@);
            }
            index_map_insert(&mut map, space.space_key.clone(), space.space_value.clone());
            i = i + 1;
        }
        proof {
            assert(spaces.deep_view().take(n as int) =~= spaces.deep_view());
        }
        SpacesFile(map)
    }

    /// The spacing steps of a new design system.
    pub fn new() -> (res: SpacesFile)
        ensures
            res@ == default_spaces(),
    {
        let mut default_spaces: Vec<Space> = Vec::new();
        proof {
            assert(default_spaces.deep_view() =~= Seq::empty());
        }
        push_space(&mut default_spaces, space("0", "0px"));
        push_space(&mut default_spaces, space("1", "2px"));
        push_space(&mut default_spaces, space("2", "4px"));
        push_space(&mut default_spaces, space("3", "8px"));
        push_space(&mut default_spaces, space("4", "12px"));
        push_space(&mut default_spaces, space("5", "16px"));
        push_space(&mut default_spaces, space("6", "20px"));
        push_space(&mut default_spaces, space("7", "28px"));
        push_space(&mut default_spaces, space("8", "32px"));
        push_space(&mut default_spaces, space("9", "40px"));
        push_space(&mut default_spaces, space("10", "52px"));
        push_space(&mut default_spaces, space("11", "64px"));
        push_space(&mut default_spaces, space("12", "80px"));
        push_space(&mut default_spaces, space("13", "100px"));
        push_space(&mut default_spaces, space("14", "120px"));
        push_space(&mut default_spaces, space("15", "160px"));
        proof {
            lemma_default_space_keys_differ();
            lemma_distinct_entries_are_kept(self::default_spaces());
        }
        SpacesFile::from(&default_spaces)
    }

    /// The spacing steps of `spaces_file`, in the order of the file.
    pub fn to(spaces_file: &SpacesFile) -> (res: Vec<Space>)
        ensures
            res.deep_view() == spaces_file@,
    {
        let entries = index_map_to_vec(&spaces_file.0);
        let mut out: Vec<Space> = Vec::new();
        let n: usize = entries.len();
        let mut i: usize = 0;
        while i < n
            invariant
                n == entries.len(),
                i <= n,
                out.len() == i,
                forall|k: int| 0 <= k < i ==> (#[trigger] out@[k])@ == entries@[k].deep_view(),
            decreases n - i,
        {
            out.push(Space { space_key: entries[i].0.clone(), space_value: entries[i].1.clone() });
            i = i + 1;
        }
        proof {
            assert(out.deep_view() =~= entries.deep_view());
        }
        out
    }
}

} // verus!
