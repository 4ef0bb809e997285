use vstd::prelude::*;
use crate::units::{px, px_text};

verus! {

/// A shared, memoised style class.
#[derive(Clone, Copy, Debug, PartialEq, Eq, Structural)]
pub enum StyleClass {
    /// The font family and colour shared by text and icons.
    StandardFont,
    /// The look of a button: centred flex box, white pill with a thin border.
    Button,
}

/// What a [`Decl`] states; lengths in thousandths of a pixel.
pub enum DeclModel {
    FontSize(nat),
    LineHeight(nat),
    FontWeight(Seq<char>),
    Italic,
    InlineBlock,
    Width(nat),
    Height(nat),
    IconWeight(nat),
}

/// One inline style declaration of an emitted element. Lengths are in
/// thousandths of a pixel, already scaled.
pub enum Decl {
    FontSize(u64),
    LineHeight(u64),
    FontWeight(String),
    Italic,
    InlineBlock,
    Width(u64),
    Height(u64),
    IconWeight(u64),
}

impl View for Decl {
    type V = DeclModel;

    open spec fn view(&self) -> DeclModel {
        match self {
            Decl::FontSize(n) => DeclModel::FontSize(*n as nat),
            Decl::LineHeight(n) => DeclModel::LineHeight(*n as nat),
            Decl::FontWeight(w) => DeclModel::FontWeight(w@),
            Decl::Italic => DeclModel::Italic,
            Decl::InlineBlock => DeclModel::InlineBlock,
            Decl::Width(n) => DeclModel::Width(*n as nat),
            Decl::Height(n) => DeclModel::Height(*n as nat),
            Decl::IconWeight(n) => DeclModel::IconWeight(*n as nat),
        }
    }
}

/// The models of a list of declarations.
pub open spec fn decls_model(d: Seq<Decl>) -> Seq<DeclModel> {
    d.map_values(|x: Decl| x@)
}

/// A declaration emitted at 100% scale as it reads at `k` percent: each
/// length is multiplied by `k / 100`, and everything else is left as it is.
pub open spec fn rescaled(d: DeclModel, k: nat) -> DeclModel {
    match d {
        DeclModel::FontSize(n) => DeclModel::FontSize(n * k / 100),
        DeclModel::LineHeight(n) => DeclModel::LineHeight(n * k / 100),
        DeclModel::Width(n) => DeclModel::Width(n * k / 100),
        DeclModel::Height(n) => DeclModel::Height(n * k / 100),
        DeclModel::IconWeight(n) => DeclModel::IconWeight(n * k / 100),
        _ => d,
    }
}

/// The CSS property a declaration sets.
pub open spec fn property_of(d: DeclModel) -> Seq<char> {
    match d {
        DeclModel::FontSize(_) => "font-size"@,
        DeclModel::LineHeight(_) => "line-height"@,
        DeclModel::FontWeight(_) => "font-weight"@,
        DeclModel::Italic => "font-style"@,
        DeclModel::InlineBlock => "display"@,
        DeclModel::Width(_) => "width"@,
        DeclModel::Height(_) => "height"@,
        DeclModel::IconWeight(_) => "--icon-weight"@,
    }
}

/// The CSS value a declaration sets.
pub open spec fn value_of(d: DeclModel) -> Seq<char> {
    match d {
        DeclModel::FontSize(n) => px(n),
        DeclModel::LineHeight(n) => px(n),
        DeclModel::FontWeight(w) => w,
        DeclModel::Italic => "italic"@,
        DeclModel::InlineBlock => "inline-block"@,
        DeclModel::Width(n) => px(n),
        DeclModel::Height(n) => px(n),
        DeclModel::IconWeight(n) => px(n),
    }
}

impl Decl {
    /// The CSS property name.
    pub fn property(&self) -> (r: String)
        ensures
            r@ == property_of(self@),
    {
        match self {
            Decl::FontSize(_) => "font-size".to_owned(),
            Decl::LineHeight(_) => "line-height".to_owned(),
            Decl::FontWeight(_) => "font-weight".to_owned(),
            Decl::Italic => "font-style".to_owned(),
            Decl::InlineBlock => "display".to_owned(),
            Decl::Width(_) => "width".to_owned(),
            Decl::Height(_) => "height".to_owned(),
            Decl::IconWeight(_) => "--icon-weight".to_owned(),
        }
    }

    /// The CSS value text.
    pub fn value(&self) -> (r: String)
        ensures
            r@ == value_of(self@),
    {
        match self {
            Decl::FontSize(n) => px_text(*n),
            Decl::LineHeight(n) => px_text(*n),
            Decl::FontWeight(w) => w.clone(),
            Decl::Italic => "italic".to_owned(),
            Decl::InlineBlock => "inline-block".to_owned(),
            Decl::Width(n) => px_text(*n),
            Decl::Height(n) => px_text(*n),
            Decl::IconWeight(n) => px_text(*n),
        }
    }
}

/// The rules of a shared class, as (property, value) pairs.
pub open spec fn class_rules_model(c: StyleClass) -> Seq<(Seq<char>, Seq<char>)> {
    match c {
        StyleClass::StandardFont => seq![
            ("font-family"@, "system-ui, -apple-system, BlinkMacSystemFont, 'Segoe UI', Roboto, Ubuntu, sans-serif"@),
            ("color"@, "inherit"@),
        ],
        StyleClass::Button => seq![
            ("display"@, "flex"@),
            ("align-items"@, "center"@),
            ("justify-content"@, "center"@),
            ("background"@, "white"@),
            ("border"@, "1px solid rgba(0, 0, 0, 0.2)"@),
            ("color"@, "black"@),
            ("padding"@, "0.5rem"@),
            ("border-radius"@, "1000rem"@),
            ("cursor"@, "pointer"@),
        ],
    }
}

pub open spec fn pairs_model(v: Seq<(&'static str, &'static str)>) -> Seq<(Seq<char>, Seq<char>)> {
    v.map_values(|p: (&'static str, &'static str)| (p.0@, p.1@))
}

impl StyleClass {
    /// The (property, value) rules that the class stands for.
    pub fn rules(&self) -> (r: Vec<(&'static str, &'static str)>)
        ensures
            pairs_model(r@) == class_rules_model(*self),
    {
        let r = match self {
            StyleClass::StandardFont => vec![
                ("font-family", "system-ui, -apple-system, BlinkMacSystemFont, 'Segoe UI', Roboto, Ubuntu, sans-serif"),
                ("color", "inherit"),
            ],
            StyleClass::Button => vec![
                ("display", "flex"),
                ("align-items", "center"),
                ("justify-content", "center"),
                ("background", "white"),
                ("border", "1px solid rgba(0, 0, 0, 0.2)"),
                ("color", "black"),
                ("padding", "0.5rem"),
                ("border-radius", "1000rem"),
                ("cursor", "pointer"),
            ],
        };
        assert(pairs_model(r@) =~= class_rules_model(*self));
        r
    }
}

} // verus!
