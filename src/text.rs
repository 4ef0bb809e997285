use vstd::prelude::*;
use crate::font::{preset_model, FontModel, FontStyle, ScaleEntry};
use crate::units::{lemma_rescale, scaled, scaled_length, TEXT_SCALE};
use crate::view::{decls_model, rescaled, Decl, DeclModel, StyleClass};

verus! {

/// A block of text as emitted: its content, the shared font class, and its
/// inline declarations in order.
pub struct TextView {
    pub text: String,
    pub class: StyleClass,
    pub decls: Vec<Decl>,
}

/// The declarations of a text block in `font` at a scale of `scale` percent:
/// size and line height, then the weight if one is set, then italic if set.
pub open spec fn text_decls(font: FontModel, scale: nat) -> Seq<DeclModel> {
    seq![
        DeclModel::FontSize(scaled(font.size, scale)),
        DeclModel::LineHeight(scaled(font.leading, scale)),
    ] + match font.weight {
        Some(w) => seq![DeclModel::FontWeight(w)],
        None => Seq::empty(),
    } + if font.italic {
        seq![DeclModel::Italic]
    } else {
        Seq::empty()
    }
}

/// Under a global scale of `k` percent, a text block emits the declarations
/// it emits at 100%, each length multiplied by `k / 100` and nothing else
/// changed.
pub proof fn lemma_text_scale(font: FontModel, k: nat)
    ensures
        text_decls(font, k) == text_decls(font, 100).map_values(|d: DeclModel| rescaled(d, k)),
{
    lemma_rescale(font.size, k);
    lemma_rescale(font.leading, k);
    assert(text_decls(font, k) =~= text_decls(font, 100).map_values(|d: DeclModel| rescaled(d, k)));
}

/// What a text block of `text` in `font` at `scale` percent emits.
pub open spec fn text_view_is(v: TextView, text: Seq<char>, font: FontModel, scale: nat) -> bool {
    &&& v.text@ == text
    &&& v.class == StyleClass::StandardFont
    &&& decls_model(v.decls@) == text_decls(font, scale)
}

/// A text helper over `text`.
pub fn text(content: &str) -> (r: TextHelper<'_>)
    ensures
        r.text@ == content@,
{
    TextHelper { text: content }
}

/// Renders a string in one entry of the typographic scale.
#[derive(Clone, Copy)]
pub struct TextHelper<'a> {
    pub text: &'a str,
}

impl<'a> TextHelper<'a> {
    /// The text block in `font_style` at a scale of `scale` percent.
    pub fn render_at_scale(self, font_style: FontStyle, scale: u32) -> (r: TextView)
        ensures
            text_view_is(r, self.text@, font_style@, scale as nat),
    {
        let mut decls: Vec<Decl> = Vec::new();
        decls.push(Decl::FontSize(scaled_length(font_style.size, scale)));
        decls.push(Decl::LineHeight(scaled_length(font_style.leading, scale)));
        match font_style.weight {
            Some(w) => decls.push(Decl::FontWeight(w)),
            None => {},
        }
        if font_style.italic {
            decls.push(Decl::Italic);
        }
        assert(decls_model(decls@) =~= text_decls(font_style@, scale as nat));
        TextView { text: self.text.to_owned(), class: StyleClass::StandardFont, decls }
    }

    fn render_with_style(self, font_style: FontStyle) -> (r: TextView)
        ensures
            text_view_is(r, self.text@, font_style@, TEXT_SCALE as nat),
    {
        self.render_at_scale(font_style, TEXT_SCALE)
    }

    /// The text block in an arbitrary style.
    pub fn custom(self, font_style: FontStyle) -> (r: TextView)
        ensures
            text_view_is(r, self.text@, font_style@, TEXT_SCALE as nat),
    {
        self.render_with_style(font_style)
    }

    /// The text block in a named entry of the scale.
    pub fn preset(self, entry: ScaleEntry) -> (r: TextView)
        ensures
            text_view_is(r, self.text@, preset_model(entry), TEXT_SCALE as nat),
    {
        self.render_with_style(FontStyle::preset(entry))
    }

    pub fn large_title(self) -> (r: TextView)
        ensures
            text_view_is(r, self.text@, preset_model(ScaleEntry::LargeTitle), TEXT_SCALE as nat),
    {
        self.preset(ScaleEntry::LargeTitle)
    }

    pub fn title(self) -> (r: TextView)
        ensures
            text_view_is(r, self.text@, preset_model(ScaleEntry::Title), TEXT_SCALE as nat),
    {
        self.preset(ScaleEntry::Title)
    }

    pub fn title2(self) -> (r: TextView)
        ensures
            text_view_is(r, self.text@, preset_model(ScaleEntry::Title2), TEXT_SCALE as nat),
    {
        self.preset(ScaleEntry::Title2)
    }

    pub fn title3(self) -> (r: TextView)
        ensures
            text_view_is(r, self.text@, preset_model(ScaleEntry::Title3), TEXT_SCALE as nat),
    {
        self.preset(ScaleEntry::Title3)
    }

    pub fn headline(self) -> (r: TextView)
        ensures
            text_view_is(r, self.text@, preset_model(ScaleEntry::Headline), TEXT_SCALE as nat),
    {
        self.preset(ScaleEntry::Headline)
    }

    pub fn body(self) -> (r: TextView)
        ensures
            text_view_is(r, self.text@, preset_model(ScaleEntry::Body), TEXT_SCALE as nat),
    {
        self.preset(ScaleEntry::Body)
    }

    pub fn callout(self) -> (r: TextView)
        ensures
            text_view_is(r, self.text@, preset_model(ScaleEntry::Callout), TEXT_SCALE as nat),
    {
        self.preset(ScaleEntry::Callout)
    }

    pub fn subheadline(self) -> (r: TextView)
        ensures
            text_view_is(r, self.text@, preset_model(ScaleEntry::Subheadline), TEXT_SCALE as nat),
    {
        self.preset(ScaleEntry::Subheadline)
    }

    pub fn footnote(self) -> (r: TextView)
        ensures
            text_view_is(r, self.text@, preset_model(ScaleEntry::Footnote), TEXT_SCALE as nat),
    {
        self.preset(ScaleEntry::Footnote)
    }

    pub fn caption(self) -> (r: TextView)
        ensures
            text_view_is(r, self.text@, preset_model(ScaleEntry::Caption), TEXT_SCALE as nat),
    {
        self.preset(ScaleEntry::Caption)
    }

    pub fn caption2(self) -> (r: TextView)
        ensures
            text_view_is(r, self.text@, preset_model(ScaleEntry::Caption2), TEXT_SCALE as nat),
    {
        self.preset(ScaleEntry::Caption2)
    }
}

} // verus!
