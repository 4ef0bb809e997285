use std::cell::Cell;
use std::rc::Rc;

use ui_style::{
    font_weight_to_icon_weight, icon, icon_test, px_text, render_icon_svg, scaled_length,
    scaled_size, text, text_test, Button, ButtonEvent, Decl, EventDispatcher, FontStyle, Icon,
    IconHelper, IconStyle, IconView, ScaleEntry, StyleClass, TextView, TEXT_SCALE,
};

fn pairs(decls: &[Decl]) -> Vec<(String, String)> {
    decls.iter().map(|d| (d.property(), d.value())).collect()
}

fn text_pairs(v: &TextView) -> Vec<(String, String)> {
    pairs(&v.decls)
}

fn icon_pairs(v: &IconView) -> Vec<(String, String)> {
    pairs(&v.decls)
}

fn p(k: &str, v: &str) -> (String, String) {
    (k.to_string(), v.to_string())
}

fn text_expect(size: &str, leading: &str, weight: Option<&str>, italic: bool) -> Vec<(String, String)> {
    let mut r = vec![p("font-size", size), p("line-height", leading)];
    if let Some(w) = weight {
        r.push(p("font-weight", w));
    }
    if italic {
        r.push(p("font-style", "italic"));
    }
    r
}

fn icon_expect(size: &str, weight: Option<&str>) -> Vec<(String, String)> {
    let mut r = vec![p("display", "inline-block"), p("width", size), p("height", size)];
    if let Some(w) = weight {
        r.push(p("--icon-weight", w));
    }
    r
}

#[test]
fn px_text_formats_shortest_decimal() {
    assert_eq!(px_text(28000), "28px");
    assert_eq!(px_text(2500), "2.5px");
    assert_eq!(px_text(0), "0px");
    assert_eq!(px_text(1250), "1.25px");
    assert_eq!(px_text(1005), "1.005px");
    assert_eq!(px_text(1020), "1.02px");
    assert_eq!(px_text(340000), "340px");
}

#[test]
fn scaled_size_uses_the_global_scale() {
    assert_eq!(TEXT_SCALE, 100);
    assert_eq!(scaled_size(170), "17px");
    assert_eq!(scaled_size(225), "22.5px");
    assert_eq!(scaled_length(220, 150), 33000);
    assert_eq!(scaled_length(u32::MAX, u32::MAX), (u32::MAX as u64) * (u32::MAX as u64));
}

#[test]
fn every_text_preset_matches_the_scale() {
    let cases: Vec<(TextView, Vec<(String, String)>)> = vec![
        (text("a").large_title(), text_expect("34px", "41px", Some("bold"), false)),
        (text("a").title(), text_expect("28px", "34px", Some("bold"), false)),
        (text("a").title2(), text_expect("22px", "28px", Some("bold"), false)),
        (text("a").title3(), text_expect("20px", "25px", Some("bold"), false)),
        (text("a").headline(), text_expect("17px", "22px", Some("600"), false)),
        (text("a").body(), text_expect("17px", "22px", None, false)),
        (text("a").callout(), text_expect("16px", "21px", None, true)),
        (text("a").subheadline(), text_expect("15px", "20px", None, false)),
        (text("a").footnote(), text_expect("13px", "18px", None, false)),
        (text("a").caption(), text_expect("12px", "16px", None, false)),
        (text("a").caption2(), text_expect("11px", "13px", None, false)),
    ];
    for (view, expected) in cases {
        assert_eq!(view.class, StyleClass::StandardFont);
        assert_eq!(view.text, "a");
        assert_eq!(text_pairs(&view), expected);
    }
}

#[test]
fn every_icon_preset_matches_the_scale() {
    let cases: Vec<(IconView, Vec<(String, String)>)> = vec![
        (icon(Icon::Plus).large_title(), icon_expect("34px", Some("3px"))),
        (icon(Icon::Plus).title(), icon_expect("28px", Some("3px"))),
        (icon(Icon::Plus).title2(), icon_expect("22px", Some("3px"))),
        (icon(Icon::Plus).title3(), icon_expect("20px", Some("3px"))),
        (icon(Icon::Plus).headline(), icon_expect("17px", Some("2.5px"))),
        (icon(Icon::Plus).body(), icon_expect("17px", None)),
        (icon(Icon::Plus).callout(), icon_expect("16px", None)),
        (icon(Icon::Plus).subheadline(), icon_expect("15px", None)),
        (icon(Icon::Plus).footnote(), icon_expect("13px", None)),
        (icon(Icon::Plus).caption(), icon_expect("12px", None)),
        (icon(Icon::Plus).caption2(), icon_expect("11px", None)),
    ];
    for (view, expected) in cases {
        assert_eq!(view.class, StyleClass::StandardFont);
        assert_eq!(view.icon, Icon::Plus);
        assert_eq!(icon_pairs(&view), expected);
    }
}

#[test]
fn title2_text_and_icon_agree() {
    let style = FontStyle::preset(ScaleEntry::Title2);
    assert_eq!((style.size, style.leading), (220, 280));
    assert_eq!(style.weight.as_deref(), Some("bold"));
    assert!(!style.italic);
    let helper = icon(Icon::Trash).font(style);
    assert_eq!(helper.style, IconStyle { size: 220, weight: Some(30) });
}

#[test]
fn weight_mapping_is_total() {
    assert_eq!(font_weight_to_icon_weight(&Some("bold".to_string())), Some(30));
    assert_eq!(font_weight_to_icon_weight(&Some("600".to_string())), Some(25));
    assert_eq!(font_weight_to_icon_weight(&Some("normal".to_string())), Some(20));
    assert_eq!(font_weight_to_icon_weight(&Some("500".to_string())), None);
    assert_eq!(font_weight_to_icon_weight(&Some("Bold".to_string())), None);
    assert_eq!(font_weight_to_icon_weight(&Some(String::new())), None);
    assert_eq!(font_weight_to_icon_weight(&None), None);
}

#[test]
fn font_keeps_earlier_weight_when_unmapped() {
    let h = icon(Icon::Plus).weight(15).font(FontStyle::new(180, 240).weight("500"));
    assert_eq!(h.style, IconStyle { size: 180, weight: Some(15) });
    let h = icon(Icon::Plus).weight(15).font(FontStyle::new(180, 240).weight("normal"));
    assert_eq!(h.style, IconStyle { size: 180, weight: Some(20) });
}

#[test]
fn icon_builder_steps() {
    let h = icon(Icon::Trash);
    assert_eq!(h, IconHelper::new(Icon::Trash));
    assert_eq!(h.style, IconStyle::new(160));
    assert_eq!(h.style.weight, None);
    let h = h.custom_size(245).weight(12);
    assert_eq!(h.style, IconStyle { size: 245, weight: Some(12) });
    let v = h.finish_at_scale(100);
    assert_eq!(icon_pairs(&v), icon_expect("24.5px", Some("1.2px")));
    assert_eq!(v.icon, Icon::Trash);
}

#[test]
fn doubling_the_scale_doubles_every_length() {
    let font = FontStyle::new(170, 220).weight("bold").italic();
    let one = text("x").render_at_scale(font.clone(), 100);
    let two = text("x").render_at_scale(font, 200);
    assert_eq!(text_pairs(&one), text_expect("17px", "22px", Some("bold"), true));
    assert_eq!(text_pairs(&two), text_expect("34px", "44px", Some("bold"), true));
    let h = icon(Icon::Plus).title();
    assert_eq!(icon_pairs(&h), icon_expect("28px", Some("3px")));
    let h2 = icon(Icon::Plus).font(FontStyle::preset(ScaleEntry::Title)).finish_at_scale(150);
    assert_eq!(icon_pairs(&h2), icon_expect("42px", Some("4.5px")));
}

#[test]
fn icon_markup_is_a_fresh_copy_each_time() {
    let a = render_icon_svg(Icon::Plus);
    let mut b = render_icon_svg(Icon::Plus);
    assert_eq!(a, b);
    b.push_str("changed");
    assert_ne!(a, b);
    assert_eq!(render_icon_svg(Icon::Plus), a);
    assert!(a.starts_with("<svg"));
    assert!(a.contains("M8 3v10M3 8h10"));
    assert!(render_icon_svg(Icon::Trash).contains("viewBox=\"0 0 24 24\""));
    assert_ne!(render_icon_svg(Icon::Trash), a);
}

#[test]
fn button_click_fires_once_with_clicked() {
    let count = Rc::new(Cell::new(0u32));
    let seen = Rc::new(Cell::new(None));
    let (c, s) = (count.clone(), seen.clone());
    let button = Button::render(vec![text("Tap").body()], move |e: ButtonEvent| {
        c.set(c.get() + 1);
        s.set(Some(e));
    });
    assert_eq!(button.class, StyleClass::Button);
    assert_eq!(button.children.len(), 1);
    assert_eq!(count.get(), 0);
    button.click();
    assert_eq!(count.get(), 1);
    assert_eq!(seen.get(), Some(ButtonEvent::Clicked));
    button.click();
    assert_eq!(count.get(), 2);
}

#[test]
fn cloned_dispatcher_reaches_the_same_listener() {
    let total = Rc::new(Cell::new(0u32));
    let t = total.clone();
    let d = EventDispatcher::new(move |n: u32| t.set(t.get() + n));
    let c = d.clone();
    d.send(2);
    c.send(5);
    assert_eq!(total.get(), 7);
}

#[test]
fn end_to_end_scenario() {
    let plus = icon(Icon::Plus).title();
    assert_eq!(plus.icon, Icon::Plus);
    assert_eq!(icon_pairs(&plus), icon_expect("28px", Some("3px")));
    assert!(render_icon_svg(plus.icon).contains("var(--icon-weight, 2)"));

    let body = text("Body").body();
    assert_eq!(body.text, "Body");
    assert_eq!(text_pairs(&body), vec![p("font-size", "17px"), p("line-height", "22px")]);

    let counter = Rc::new(Cell::new(0u32));
    let c = counter.clone();
    let button = Button::render(vec![text("Press").body()], move |_e: ButtonEvent| c.set(c.get() + 1));
    button.click();
    assert_eq!(counter.get(), 1);
}

#[test]
fn custom_styles() {
    let v = text("Custom Text").custom(FontStyle::new(180, 240).weight("500").italic());
    assert_eq!(text_pairs(&v), text_expect("18px", "24px", Some("500"), true));
    let i = icon(Icon::Plus).custom(FontStyle::new(180, 240).weight("500").italic());
    assert_eq!(icon_pairs(&i), icon_expect("18px", None));
}

#[test]
fn showcases_cover_the_scale() {
    let icons = icon_test();
    assert_eq!(icons.len(), 12);
    assert_eq!(icon_pairs(&icons[0]), icon_expect("34px", Some("3px")));
    assert_eq!(icon_pairs(&icons[4]), icon_expect("17px", Some("2.5px")));
    assert_eq!(icon_pairs(&icons[11]), icon_expect("18px", None));
    let texts = text_test();
    assert_eq!(texts.len(), 12);
    assert_eq!(texts[2].text, "Title 2");
    assert_eq!(text_pairs(&texts[6]), text_expect("16px", "21px", None, true));
    assert_eq!(text_pairs(&texts[11]), text_expect("18px", "24px", Some("500"), true));
}

#[test]
fn class_rules() {
    let button = StyleClass::Button.rules();
    assert_eq!(button.len(), 9);
    assert_eq!(button[0], ("display", "flex"));
    assert_eq!(button[7], ("border-radius", "1000rem"));
    assert_eq!(button[8], ("cursor", "pointer"));
    let font = StyleClass::StandardFont.rules();
    assert_eq!(font[1], ("color", "inherit"));
    assert!(font[0].1.starts_with("system-ui"));
}
