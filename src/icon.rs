use vstd::prelude::*;
use crate::font::{lemma_icon_weight_table, font_weight_to_icon_weight, icon_weight_of, preset_model, FontModel, FontStyle, IconStyle, ScaleEntry};
use crate::units::{lemma_rescale, scaled, scaled_length, TEXT_SCALE};
use crate::text::text_decls;
use crate::view::{decls_model, rescaled, Decl, DeclModel, StyleClass};

verus! {

/// The glyphs that can be drawn.
#[derive(Clone, Copy, Debug, PartialEq, Eq, Structural)]
pub enum Icon {
    Trash,
    Plus,
}

/// The SVG markup of each glyph.
pub open spec fn icon_source(icon: Icon) -> Seq<char> {
    match icon {
        Icon::Trash => r#"<svg xmlns="http://www.w3.org/2000/svg" viewBox="0 0 24 24"><path fill="none" stroke="currentColor" stroke-linecap="round" stroke-linejoin="round" stroke-width="2" d="M4 6h16l-1.58 14.22A2 2 0 0 1 16.432 22H7.568a2 2 0 0 1-1.988-1.78zm3.345-2.853A2 2 0 0 1 9.154 2h5.692a2 2 0 0 1 1.81 1.147L18 6H6zM2 6h20m-12 5v5m4-5v5"/></svg>"#@,
        Icon::Plus => r#"<svg xmlns="http://www.w3.org/2000/svg" viewBox="0 0 16 16"> <path stroke="currentColor" stroke-linecap="round" stroke-linejoin="round" d="M8 3v10M3 8h10" style="stroke-width: var(--icon-weight, 2);"/></svg>"#@,
    }
}

/// The SVG markup of a glyph, as a fresh string of its own.
pub fn render_icon_svg(icon: Icon) -> (r: String)
    ensures
        r@ == icon_source(icon),
{
    match icon {
        Icon::Trash => r#"<svg xmlns="http://www.w3.org/2000/svg" viewBox="0 0 24 24"><path fill="none" stroke="currentColor" stroke-linecap="round" stroke-linejoin="round" stroke-width="2" d="M4 6h16l-1.58 14.22A2 2 0 0 1 16.432 22H7.568a2 2 0 0 1-1.988-1.78zm3.345-2.853A2 2 0 0 1 9.154 2h5.692a2 2 0 0 1 1.81 1.147L18 6H6zM2 6h20m-12 5v5m4-5v5"/></svg>"#.to_owned(),
        Icon::Plus => r#"<svg xmlns="http://www.w3.org/2000/svg" viewBox="0 0 16 16"> <path stroke="currentColor" stroke-linecap="round" stroke-linejoin="round" d="M8 3v10M3 8h10" style="stroke-width: var(--icon-weight, 2);"/></svg>"#.to_owned(),
    }
}

/// An icon as emitted: the glyph, the shared font class, and its inline
/// declarations in order.
pub struct IconView {
    pub icon: Icon,
    pub class: StyleClass,
    pub decls: Vec<Decl>,
}

pub open spec fn opt_nat(w: Option<u32>) -> Option<nat> {
    match w {
        Some(v) => Some(v as nat),
        None => None,
    }
}

/// The declarations of an icon whose box is `size` tenths of a pixel wide and
/// high, with stroke weight `weight`, at `scale` percent: an inline block of
/// that width and height, then the stroke weight if there is one.
pub open spec fn icon_decls(size: nat, weight: Option<nat>, scale: nat) -> Seq<DeclModel> {
    seq![
        DeclModel::InlineBlock,
        DeclModel::Width(scaled(size, scale)),
        DeclModel::Height(scaled(size, scale)),
    ] + match weight {
        Some(w) => seq![DeclModel::IconWeight(scaled(w, scale))],
        None => Seq::empty(),
    }
}

/// Under a global scale of `k` percent, an icon emits the declarations it
/// emits at 100%, each length multiplied by `k / 100` and nothing else
/// changed.
pub proof fn lemma_icon_scale(size: nat, weight: Option<nat>, k: nat)
    ensures
        icon_decls(size, weight, k) == icon_decls(size, weight, 100).map_values(|d: DeclModel| rescaled(d, k)),
{
    lemma_rescale(size, k);
    if let Some(w) = weight {
        lemma_rescale(w, k);
    }
    assert(icon_decls(size, weight, k) =~= icon_decls(size, weight, 100).map_values(|d: DeclModel| rescaled(d, k)));
}

/// What an icon of glyph `icon`, box `size` and weight `weight` emits at `scale`.
pub open spec fn icon_view_is(v: IconView, icon: Icon, size: nat, weight: Option<nat>, scale: nat) -> bool {
    &&& v.icon == icon
    &&& v.class == StyleClass::StandardFont
    &&& decls_model(v.decls@) == icon_decls(size, weight, scale)
}

pub open spec fn font_size_of(font: FontModel) -> nat {
    font.size
}

/// The stroke weight of an icon in `style` once `font` is applied: the weight
/// that matches the font's weight where there is one, else the weight it had.
pub open spec fn weight_after_font(style: IconStyle, font: FontModel) -> Option<nat> {
    match icon_weight_of(font.weight) {
        Some(w) => Some(w),
        None => opt_nat(style.weight),
    }
}

/// The stroke weight that an icon takes from each entry of the scale: 3
/// pixels for the bold titles, 2.5 for the headline, none for the rest.
pub open spec fn preset_icon_weight(entry: ScaleEntry) -> Option<nat> {
    match entry {
        ScaleEntry::LargeTitle | ScaleEntry::Title | ScaleEntry::Title2 | ScaleEntry::Title3 => Some(30),
        ScaleEntry::Headline => Some(25),
        _ => None,
    }
}

/// Text and an icon rendered in the same entry of the scale agree: the icon
/// box is as wide and as high as the text's font size, and its stroke weight
/// is the one that matches the entry's font weight.
pub proof fn lemma_preset_agreement(entry: ScaleEntry, kind: Icon, k: nat)
    ensures
        ({
            let p = preset_model(entry);
            let w = weight_after_font(IconHelper::default_for(kind).style, p);
            &&& text_decls(p, k)[0] == DeclModel::FontSize(scaled(p.size, k))
            &&& icon_decls(p.size, w, k)[1] == DeclModel::Width(scaled(p.size, k))
            &&& icon_decls(p.size, w, k)[2] == DeclModel::Height(scaled(p.size, k))
            &&& w == icon_weight_of(p.weight)
            &&& w == preset_icon_weight(entry)
        }),
{
    lemma_icon_weight_table(Seq::empty());
}

/// An icon helper for `kind`.
pub fn icon(kind: Icon) -> (r: IconHelper)
    ensures
        r == IconHelper::default_for(kind),
{
    IconHelper::new(kind)
}

/// Renders a glyph sized and weighted to match the typographic scale.
#[derive(Clone, Copy, Debug, PartialEq, Eq, Structural)]
pub struct IconHelper {
    pub icon: Icon,
    pub style: IconStyle,
}

impl IconHelper {
    /// A 16 pixel icon with no stroke weight.
    pub open spec fn default_for(kind: Icon) -> IconHelper {
        IconHelper { icon: kind, style: IconStyle { size: 160, weight: None } }
    }

    pub fn new(kind: Icon) -> (r: Self)
        ensures
            r == Self::default_for(kind),
    {
        IconHelper { icon: kind, style: IconStyle::new(160) }
    }

    /// The same icon with a box of `size` tenths of a pixel.
    pub fn custom_size(self, size: u32) -> (r: Self)
        ensures
            r == (IconHelper { style: IconStyle { size, ..self.style }, ..self }),
    {
        IconHelper { style: IconStyle { size, ..self.style }, ..self }
    }

    /// The same icon with a stroke weight of `weight` tenths of a pixel.
    pub fn weight(self, weight: u32) -> (r: Self)
        ensures
            r == (IconHelper { style: IconStyle { weight: Some(weight), ..self.style }, ..self }),
    {
        IconHelper { style: IconStyle { weight: Some(weight), ..self.style }, ..self }
    }

    /// Applies a font style so that the icon matches text in it: the box takes
    /// the font size, and the stroke weight the weight that matches the font's
    /// weight, where there is one.
    pub fn font(self, font_style: FontStyle) -> (r: Self)
        ensures
            r.icon == self.icon,
            r.style.size == font_style.size,
            opt_nat(r.style.weight) == weight_after_font(self.style, font_style@),
    {
        let weight = match font_weight_to_icon_weight(&font_style.weight) {
            Some(w) => Some(w),
            None => self.style.weight,
        };
        IconHelper { icon: self.icon, style: IconStyle { size: font_style.size, weight } }
    }

    /// The icon as emitted at a scale of `scale` percent.
    pub fn finish_at_scale(self, scale: u32) -> (r: IconView)
        ensures
            icon_view_is(r, self.icon, self.style.size as nat, opt_nat(self.style.weight), scale as nat),
    {
        let mut decls: Vec<Decl> = Vec::new();
        decls.push(Decl::InlineBlock);
        decls.push(Decl::Width(scaled_length(self.style.size, scale)));
        decls.push(Decl::Height(scaled_length(self.style.size, scale)));
        match self.style.weight {
            Some(w) => decls.push(Decl::IconWeight(scaled_length(w, scale))),
            None => {},
        }
        assert(decls_model(decls@) =~= icon_decls(self.style.size as nat, opt_nat(self.style.weight), scale as nat));
        IconView { icon: self.icon, class: StyleClass::StandardFont, decls }
    }

    fn finish(self) -> (r: IconView)
        ensures
            icon_view_is(r, self.icon, self.style.size as nat, opt_nat(self.style.weight), TEXT_SCALE as nat),
    {
        self.finish_at_scale(TEXT_SCALE)
    }

    /// The icon sized and weighted for text in `font_style`.
    pub fn custom(self, font_style: FontStyle) -> (r: IconView)
        ensures
            icon_view_is(r, self.icon, font_style.size as nat, weight_after_font(self.style, font_style@),
                TEXT_SCALE as nat),
    {
        self.font(font_style).finish()
    }

    /// The icon sized and weighted for a named entry of the scale.
    pub fn preset(self, entry: ScaleEntry) -> (r: IconView)
        ensures
            icon_view_is(r, self.icon, font_size_of(preset_model(entry)), weight_after_font(self.style, preset_model(entry)),
                TEXT_SCALE as nat),
    {
        self.font(FontStyle::preset(entry)).finish()
    }

    pub fn large_title(self) -> (r: IconView)
        ensures
            icon_view_is(r, self.icon, font_size_of(preset_model(ScaleEntry::LargeTitle)),
                weight_after_font(self.style, preset_model(ScaleEntry::LargeTitle)), TEXT_SCALE as nat),
    {
        self.preset(ScaleEntry::LargeTitle)
    }

    pub fn title(self) -> (r: IconView)
        ensures
            icon_view_is(r, self.icon, font_size_of(preset_model(ScaleEntry::Title)),
                weight_after_font(self.style, preset_model(ScaleEntry::Title)), TEXT_SCALE as nat),
    {
        self.preset(ScaleEntry::Title)
    }

    pub fn title2(self) -> (r: IconView)
        ensures
            icon_view_is(r, self.icon, font_size_of(preset_model(ScaleEntry::Title2)),
                weight_after_font(self.style, preset_model(ScaleEntry::Title2)), TEXT_SCALE as nat),
    {
        self.preset(ScaleEntry::Title2)
    }

    pub fn title3(self) -> (r: IconView)
        ensures
            icon_view_is(r, self.icon, font_size_of(preset_model(ScaleEntry::Title3)),
                weight_after_font(self.style, preset_model(ScaleEntry::Title3)), TEXT_SCALE as nat),
    {
        self.preset(ScaleEntry::Title3)
    }

    pub fn headline(self) -> (r: IconView)
        ensures
            icon_view_is(r, self.icon, font_size_of(preset_model(ScaleEntry::Headline)),
                weight_after_font(self.style, preset_model(ScaleEntry::Headline)), TEXT_SCALE as nat),
    {
        self.preset(ScaleEntry::Headline)
    }

    pub fn body(self) -> (r: IconView)
        ensures
            icon_view_is(r, self.icon, font_size_of(preset_model(ScaleEntry::Body)),
                weight_after_font(self.style, preset_model(ScaleEntry::Body)), TEXT_SCALE as nat),
    {
        self.preset(ScaleEntry::Body)
    }

    pub fn callout(self) -> (r: IconView)
        ensures
            icon_view_is(r, self.icon, font_size_of(preset_model(ScaleEntry::Callout)),
                weight_after_font(self.style, preset_model(ScaleEntry::Callout)), TEXT_SCALE as nat),
    {
        self.preset(ScaleEntry::Callout)
    }

    pub fn subheadline(self) -> (r: IconView)
        ensures
            icon_view_is(r, self.icon, font_size_of(preset_model(ScaleEntry::Subheadline)),
                weight_after_font(self.style, preset_model(ScaleEntry::Subheadline)), TEXT_SCALE as nat),
    {
        self.preset(ScaleEntry::Subheadline)
    }

    pub fn footnote(self) -> (r: IconView)
        ensures
            icon_view_is(r, self.icon, font_size_of(preset_model(ScaleEntry::Footnote)),
                weight_after_font(self.style, preset_model(ScaleEntry::Footnote)), TEXT_SCALE as nat),
    {
        self.preset(ScaleEntry::Footnote)
    }

    pub fn caption(self) -> (r: IconView)
        ensures
            icon_view_is(r, self.icon, font_size_of(preset_model(ScaleEntry::Caption)),
                weight_after_font(self.style, preset_model(ScaleEntry::Caption)), TEXT_SCALE as nat),
    {
        self.preset(ScaleEntry::Caption)
    }

    pub fn caption2(self) -> (r: IconView)
        ensures
            icon_view_is(r, self.icon, font_size_of(preset_model(ScaleEntry::Caption2)),
                weight_after_font(self.style, preset_model(ScaleEntry::Caption2)), TEXT_SCALE as nat),
    {
        self.preset(ScaleEntry::Caption2)
    }
}

} // verus!
