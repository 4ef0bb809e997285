//! Style-parameterised rendering helpers: a typographic scale shared by text
//! and icons, the declarations each helper emits, and a button whose clicks
//! are relayed through a shared single-slot callback.
//!
//! Lengths are held as integers in tenths of a pixel, and the global scale as
//! a percentage, so that every emitted dimension is an exact decimal.
mod dispatch;
mod font;
mod icon;
mod showcase;
mod text;
mod units;
mod view;

pub use dispatch::{lemma_clone_shares_listener, Button, ButtonEvent, ButtonView, EventDispatcher};
pub use font::{
    font_weight_to_icon_weight, lemma_icon_weight_table, FontModel, FontStyle, IconStyle,
    ScaleEntry,
};
pub use icon::{
    icon, lemma_icon_scale, lemma_preset_agreement, render_icon_svg, Icon, IconHelper, IconView,
};
pub use showcase::{icon_test, text_test};
pub use text::{lemma_text_scale, text, TextHelper, TextView};
pub use units::{lemma_rescale, px_text, scaled_length, scaled_size, TEXT_SCALE};
pub use view::{Decl, DeclModel, StyleClass};
