use vstd::prelude::*;
use crate::font::{font_model, preset_model, FontStyle, ScaleEntry};
use crate::icon::{icon, icon_view_is, preset_icon_weight, weight_after_font, Icon, IconHelper, IconView};
use crate::text::{text, text_view_is, TextView};
use crate::units::TEXT_SCALE;

verus! {

/// The entries of the scale, largest first.
pub open spec fn scale_order() -> Seq<ScaleEntry> {
    seq![
        ScaleEntry::LargeTitle,
        ScaleEntry::Title,
        ScaleEntry::Title2,
        ScaleEntry::Title3,
        ScaleEntry::Headline,
        ScaleEntry::Body,
        ScaleEntry::Callout,
        ScaleEntry::Subheadline,
        ScaleEntry::Footnote,
        ScaleEntry::Caption,
        ScaleEntry::Caption2,
    ]
}

/// The sample style after the scale: 18 on 24 pixels, weight 500, italic.
pub open spec fn sample_custom_font() -> crate::font::FontModel {
    font_model(180, 240, Some("500"@), true)
}

fn sample_custom_style() -> (r: FontStyle)
    ensures
        r@ == sample_custom_font(),
{
    FontStyle::new(180, 240).weight("500").italic()
}

/// The plus glyph in every entry of the scale, largest first, then in the
/// sample custom style.
pub fn icon_test() -> (r: Vec<IconView>)
    ensures
        r@.len() == 12,
        forall|i: int| 0 <= i < 11 ==> icon_view_is(#[trigger] r@[i], Icon::Plus,
            preset_model(scale_order()[i]).size, preset_icon_weight(scale_order()[i]), TEXT_SCALE as nat),
        icon_view_is(r@[11], Icon::Plus, 180, None, TEXT_SCALE as nat),
{
    let mut r: Vec<IconView> = Vec::new();
    r.push(icon(Icon::Plus).large_title());
    r.push(icon(Icon::Plus).title());
    r.push(icon(Icon::Plus).title2());
    r.push(icon(Icon::Plus).title3());
    r.push(icon(Icon::Plus).headline());
    r.push(icon(Icon::Plus).body());
    r.push(icon(Icon::Plus).callout());
    r.push(icon(Icon::Plus).subheadline());
    r.push(icon(Icon::Plus).footnote());
    r.push(icon(Icon::Plus).caption());
    r.push(icon(Icon::Plus).caption2());
    r.push(icon(Icon::Plus).custom(sample_custom_style()));
    proof {
        reveal_strlit("500");
        reveal_strlit("bold");
        reveal_strlit("600");
        reveal_strlit("normal");
        assert("500"@ != "bold"@) by { assert("500"@[0] != "bold"@[0]); }
        assert("500"@ != "600"@) by { assert("500"@[0] != "600"@[0]); }
        assert("500"@ != "normal"@) by { assert("500"@[0] != "normal"@[0]); }
        crate::font::lemma_icon_weight_table("500"@);
        assert forall|i: int| 0 <= i < 11 implies preset_icon_weight(scale_order()[i])
            == weight_after_font(IconHelper::default_for(Icon::Plus).style, preset_model(scale_order()[i])) by {
            crate::icon::lemma_preset_agreement(scale_order()[i], Icon::Plus, 100);
        }
    }
    r
}

/// Sample text in every entry of the scale, largest first, then in the
/// sample custom style.
pub fn text_test() -> (r: Vec<TextView>)
    ensures
        r@.len() == 12,
        text_view_is(r@[0], "Large Title"@, preset_model(ScaleEntry::LargeTitle), TEXT_SCALE as nat),
        text_view_is(r@[1], "Title"@, preset_model(ScaleEntry::Title), TEXT_SCALE as nat),
        text_view_is(r@[2], "Title 2"@, preset_model(ScaleEntry::Title2), TEXT_SCALE as nat),
        text_view_is(r@[3], "Title 3"@, preset_model(ScaleEntry::Title3), TEXT_SCALE as nat),
        text_view_is(r@[4], "Headline"@, preset_model(ScaleEntry::Headline), TEXT_SCALE as nat),
        text_view_is(r@[5], "Body"@, preset_model(ScaleEntry::Body), TEXT_SCALE as nat),
        text_view_is(r@[6], "Callout"@, preset_model(ScaleEntry::Callout), TEXT_SCALE as nat),
        text_view_is(r@[7], "Subheadline"@, preset_model(ScaleEntry::Subheadline), TEXT_SCALE as nat),
        text_view_is(r@[8], "Footnote"@, preset_model(ScaleEntry::Footnote), TEXT_SCALE as nat),
        text_view_is(r@[9], "Caption"@, preset_model(ScaleEntry::Caption), TEXT_SCALE as nat),
        text_view_is(r@[10], "Caption2"@, preset_model(ScaleEntry::Caption2), TEXT_SCALE as nat),
        text_view_is(r@[11], "Custom Text"@, sample_custom_font(), TEXT_SCALE as nat),
{
    let mut r: Vec<TextView> = Vec::new();
    r.push(text("Large Title").large_title());
    r.push(text("Title").title());
    r.push(text("Title 2").title2());
    r.push(text("Title 3").title3());
    r.push(text("Headline").headline());
    r.push(text("Body").body());
    r.push(text("Callout").callout());
    r.push(text("Subheadline").subheadline());
    r.push(text("Footnote").footnote());
    r.push(text("Caption").caption());
    r.push(text("Caption2").caption2());
    r.push(text("Custom Text").custom(sample_custom_style()));
    r
}

} // verus!
