use keyboard_visualizer::glyphs::{layer_indicator, GlyphSize, KeyLabel};
use keyboard_visualizer::keycode::Keycode;

#[test]
fn simple_keys_show_their_character() {
    assert_eq!(
        Keycode::KC_A.glyph(),
        Some(KeyLabel {
            text: "a".to_string(),
            size: GlyphSize::Single
        })
    );
    assert_eq!(
        Keycode::KC_7.glyph(),
        Some(KeyLabel {
            text: "7".to_string(),
            size: GlyphSize::Single
        })
    );
    assert_eq!(
        Keycode::KC_F3.glyph(),
        Some(KeyLabel {
            text: "F3".to_string(),
            size: GlyphSize::Double
        })
    );
    assert_eq!(
        Keycode::KC_F10.glyph(),
        Some(KeyLabel {
            text: "F10".to_string(),
            size: GlyphSize::Triple
        })
    );
    assert_eq!(
        Keycode::KC_BSPC.glyph(),
        Some(KeyLabel {
            text: "Bsp".to_string(),
            size: GlyphSize::Triple
        })
    );
}

#[test]
fn shifted_digit_shows_its_symbol() {
    let shifted_one = Keycode::parse_str("S(KC_1)").unwrap();
    assert_eq!(
        shifted_one.glyph(),
        Some(KeyLabel {
            text: "!".to_string(),
            size: GlyphSize::Single
        })
    );
}

#[test]
fn shifted_letter_shows_upper_case() {
    let shifted = Keycode::S(Box::new(Keycode::KC_Q));
    assert_eq!(
        shifted.glyph(),
        Some(KeyLabel {
            text: "Q".to_string(),
            size: GlyphSize::Single
        })
    );
}

#[test]
fn shifted_punctuation_is_remapped() {
    assert_eq!(
        Keycode::S(Box::new(Keycode::KC_COMM)).glyph(),
        Some(KeyLabel {
            text: "<".to_string(),
            size: GlyphSize::Single
        })
    );
    assert_eq!(
        Keycode::S(Box::new(Keycode::KC_0)).glyph(),
        Some(KeyLabel {
            text: ")".to_string(),
            size: GlyphSize::Single
        })
    );
}

#[test]
fn unshiftable_inner_shows_placeholder() {
    assert_eq!(
        Keycode::S(Box::new(Keycode::KC_ENT)).glyph(),
        Some(KeyLabel {
            text: "<>".to_string(),
            size: GlyphSize::Double
        })
    );
}

#[test]
fn blank_and_composite_keys_show_no_single_glyph() {
    assert_eq!(Keycode::NONE.glyph(), None);
    assert_eq!(Keycode::TRANSPARENT.glyph(), None);
    assert_eq!(
        Keycode::MT(Box::new(Keycode::MOD_LCTL), Box::new(Keycode::KC_A)).glyph(),
        None
    );
    assert_eq!(
        Keycode::LT("_NUMBERS".to_string(), Box::new(Keycode::KC_A)).glyph(),
        None
    );
}

#[test]
fn known_layer_names_have_indicators() {
    assert_eq!(
        layer_indicator("_SHIFT"),
        Some(KeyLabel {
            text: "\u{2191}".to_string(),
            size: GlyphSize::Single
        })
    );
    assert_eq!(
        layer_indicator("_NUMBERS"),
        Some(KeyLabel {
            text: "123".to_string(),
            size: GlyphSize::Triple
        })
    );
    assert_eq!(
        layer_indicator("_SYMBOLS"),
        Some(KeyLabel {
            text: "#+=".to_string(),
            size: GlyphSize::Triple
        })
    );
    assert_eq!(layer_indicator("_OTHER"), None);
}

#[test]
fn momentary_layer_key_shows_its_indicator() {
    assert_eq!(
        Keycode::MO("_NUMBERS".to_string()).glyph(),
        Some(KeyLabel {
            text: "123".to_string(),
            size: GlyphSize::Triple
        })
    );
    assert_eq!(Keycode::MO("_UNKNOWN".to_string()).glyph(), None);
}
