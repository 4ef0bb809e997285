use vstd::prelude::*;

verus! {

/// What a [`FontStyle`] holds: sizes in tenths of a pixel, the CSS weight as
/// written, and whether the face is italic.
pub struct FontModel {
    pub size: nat,
    pub leading: nat,
    pub weight: Option<Seq<char>>,
    pub italic: bool,
}

/// One entry of a typographic scale.
pub struct FontStyle {
    /// Font size, in tenths of a pixel.
    pub size: u32,
    /// Line height, in tenths of a pixel.
    pub leading: u32,
    /// CSS `font-weight`, when one is set.
    pub weight: Option<String>,
    pub italic: bool,
}

pub open spec fn weight_view(w: Option<String>) -> Option<Seq<char>> {
    match w {
        Some(s) => Some(s@),
        None => None,
    }
}

impl View for FontStyle {
    type V = FontModel;

    open spec fn view(&self) -> FontModel {
        FontModel {
            size: self.size as nat,
            leading: self.leading as nat,
            weight: weight_view(self.weight),
            italic: self.italic,
        }
    }
}

impl Clone for FontStyle {
    fn clone(&self) -> (r: Self)
        ensures
            r@ == self@,
    {
        let weight = match &self.weight {
            Some(w) => Some(w.clone()),
            None => None,
        };
        FontStyle { size: self.size, leading: self.leading, weight, italic: self.italic }
    }
}

impl FontStyle {
    /// A style of the given size and line height (tenths of a pixel), with no
    /// weight and upright.
    pub fn new(size: u32, leading: u32) -> (r: Self)
        ensures
            r@ == (FontModel { size: size as nat, leading: leading as nat, weight: None, italic: false }),
    {
        FontStyle { size, leading, weight: None, italic: false }
    }

    /// The same style with the given CSS weight.
    pub fn weight(self, weight: &str) -> (r: Self)
        ensures
            r@ == (FontModel { weight: Some(weight@), ..self@ }),
    {
        FontStyle { weight: Some(weight.to_owned()), ..self }
    }

    /// The same style, italic.
    pub fn italic(self) -> (r: Self)
        ensures
            r@ == (FontModel { italic: true, ..self@ }),
    {
        FontStyle { italic: true, ..self }
    }

    /// The style of a named scale entry.
    pub fn preset(entry: ScaleEntry) -> (r: Self)
        ensures
            r@ == preset_model(entry),
    {
        proof {
            reveal_strlit("bold");
            reveal_strlit("600");
        }
        match entry {
            ScaleEntry::LargeTitle => FontStyle::new(340, 410).weight("bold"),
            ScaleEntry::Title => FontStyle::new(280, 340).weight("bold"),
            ScaleEntry::Title2 => FontStyle::new(220, 280).weight("bold"),
            ScaleEntry::Title3 => FontStyle::new(200, 250).weight("bold"),
            ScaleEntry::Headline => FontStyle::new(170, 220).weight("600"),
            ScaleEntry::Body => FontStyle::new(170, 220),
            ScaleEntry::Callout => FontStyle::new(160, 210).italic(),
            ScaleEntry::Subheadline => FontStyle::new(150, 200),
            ScaleEntry::Footnote => FontStyle::new(130, 180),
            ScaleEntry::Caption => FontStyle::new(120, 160),
            ScaleEntry::Caption2 => FontStyle::new(110, 130),
        }
    }
}

/// The named entries of the typographic scale.
#[derive(Clone, Copy, Debug, PartialEq, Eq, Structural)]
pub enum ScaleEntry {
    LargeTitle,
    Title,
    Title2,
    Title3,
    Headline,
    Body,
    Callout,
    Subheadline,
    Footnote,
    Caption,
    Caption2,
}

pub open spec fn font_model(size: nat, leading: nat, weight: Option<Seq<char>>, italic: bool) -> FontModel {
    FontModel { size, leading, weight, italic }
}

/// The scale: size and line height in tenths of a pixel, weight, italic.
pub open spec fn preset_model(entry: ScaleEntry) -> FontModel {
    match entry {
        ScaleEntry::LargeTitle => font_model(340, 410, Some("bold"@), false),
        ScaleEntry::Title => font_model(280, 340, Some("bold"@), false),
        ScaleEntry::Title2 => font_model(220, 280, Some("bold"@), false),
        ScaleEntry::Title3 => font_model(200, 250, Some("bold"@), false),
        ScaleEntry::Headline => font_model(170, 220, Some("600"@), false),
        ScaleEntry::Body => font_model(170, 220, None, false),
        ScaleEntry::Callout => font_model(160, 210, None, true),
        ScaleEntry::Subheadline => font_model(150, 200, None, false),
        ScaleEntry::Footnote => font_model(130, 180, None, false),
        ScaleEntry::Caption => font_model(120, 160, None, false),
        ScaleEntry::Caption2 => font_model(110, 130, None, false),
    }
}

/// The icon stroke weight, in tenths of a pixel, that matches a font weight:
/// bold 3, `600` 2.5, normal 2, and none for any other weight or none.
pub open spec fn icon_weight_of(weight: Option<Seq<char>>) -> Option<nat> {
    match weight {
        Some(w) => if w == "bold"@ {
            Some(30)
        } else if w == "600"@ {
            Some(25)
        } else if w == "normal"@ {
            Some(20)
        } else {
            None
        },
        None => None,
    }
}

/// The font-weight to icon-weight mapping, value by value: bold gives 3
/// pixels, `600` gives 2.5, normal gives 2, and any other weight, or none,
/// gives no icon weight.
pub proof fn lemma_icon_weight_table(w: Seq<char>)
    ensures
        icon_weight_of(Some("bold"@)) == Some(30nat),
        icon_weight_of(Some("600"@)) == Some(25nat),
        icon_weight_of(Some("normal"@)) == Some(20nat),
        w != "bold"@ && w != "600"@ && w != "normal"@ ==> icon_weight_of(Some(w)) is None,
        icon_weight_of(None) is None,
{
    reveal_strlit("bold");
    reveal_strlit("600");
    reveal_strlit("normal");
    assert("600"@ != "bold"@) by {
        assert("600"@[0] != "bold"@[0]);
    }
    assert("normal"@ != "bold"@) by {
        assert("normal"@[0] != "bold"@[0]);
    }
    assert("normal"@ != "600"@) by {
        assert("normal"@[0] != "600"@[0]);
    }
}

/// Style of an icon: its box size and, optionally, its stroke weight, both in
/// tenths of a pixel.
#[derive(Clone, Copy, Debug, PartialEq, Eq, Structural)]
pub struct IconStyle {
    pub size: u32,
    pub weight: Option<u32>,
}

impl IconStyle {
    /// A style of the given size, with no stroke weight.
    pub fn new(size: u32) -> (r: Self)
        ensures
            r == (IconStyle { size, weight: None }),
    {
        IconStyle { size, weight: None }
    }
}

/// The icon stroke weight (tenths of a pixel) that matches a font weight.
pub fn font_weight_to_icon_weight(weight: &Option<String>) -> (r: Option<u32>)
    ensures
        match r {
            Some(v) => icon_weight_of(weight_view(*weight)) == Some(v as nat),
            None => icon_weight_of(weight_view(*weight)) is None,
        },
{
    match weight {
        Some(w) => {
            if *w == "bold".to_owned() {
                Some(30)
            } else if *w == "600".to_owned() {
                Some(25)
            } else if *w == "normal".to_owned() {
                Some(20)
            } else {
                None
            }
        },
        None => None,
    }
}

} // verus!
