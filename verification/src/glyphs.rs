//! What each key action shows on a rendered keycap: the glyph text and
//! its size class.  This is the computational half of rendering; placing
//! the text on a pixel surface is the caller's concern.
//!
//! The shift-remap table gives each shiftable simple action its shifted
//! glyph (a digit becomes its symbol, a letter its upper case).

use vstd::prelude::*;
use vstd::string::StringExecFns;

use crate::keycode::{Keycode, KeycodeView};

verus! {

/// How wide a glyph is allowed to draw: one character centred, two
/// characters, or three-plus characters at a reduced scale.
#[derive(Debug, Clone, Copy, PartialEq, Eq)]
pub enum GlyphSize {
    Single,
    Double,
    Triple,
}

/// The text a keycap shows, with its size class.
#[derive(Debug, PartialEq, Eq)]
pub struct KeyLabel {
    pub text: String,
    pub size: GlyphSize,
}

/// The mathematical model of [`KeyLabel`].
pub struct KeyLabelView {
    pub text: Seq<char>,
    pub size: GlyphSize,
}

impl DeepView for KeyLabel {
    type V = KeyLabelView;

    open spec fn deep_view(&self) -> KeyLabelView {
        KeyLabelView { text: self.text@, size: self.size }
    }
}

/// The glyph of the momentary-layer indicator for a layer name, if that
/// layer has one.
pub open spec fn layer_glyph(name: Seq<char>) -> Option<KeyLabelView> {
    if name == "_SHIFT"@ {
        Some(KeyLabelView { text: "\u{2191}"@, size: GlyphSize::Single })
    } else if name == "_NUMBERS"@ {
        Some(KeyLabelView { text: "123"@, size: GlyphSize::Triple })
    } else if name == "_SYMBOLS"@ {
        Some(KeyLabelView { text: "#+="@, size: GlyphSize::Triple })
    } else {
        None
    }
}

/// The shifted glyph of a simple action: letters turn upper case, digits
/// and punctuation turn into their shifted symbols, and anything else
/// shows a placeholder.
pub open spec fn shifted_glyph(k: KeycodeView) -> KeyLabelView {
    match k {
        KeycodeView::KC_A => KeyLabelView { text: "A"@, size: GlyphSize::Single },
        KeycodeView::KC_B => KeyLabelView { text: "B"@, size: GlyphSize::Single },
        KeycodeView::KC_C => KeyLabelView { text: "C"@, size: GlyphSize::Single },
        KeycodeView::KC_D => KeyLabelView { text: "D"@, size: GlyphSize::Single },
        KeycodeView::KC_E => KeyLabelView { text: "E"@, size: GlyphSize::Single },
        KeycodeView::KC_F => KeyLabelView { text: "F"@, size: GlyphSize::Single },
        KeycodeView::KC_G => KeyLabelView { text: "G"@, size: GlyphSize::Single },
        KeycodeView::KC_H => KeyLabelView { text: "H"@, size: GlyphSize::Single },
        KeycodeView::KC_I => KeyLabelView { text: "I"@, size: GlyphSize::Single },
        KeycodeView::KC_J => KeyLabelView { text: "J"@, size: GlyphSize::Single },
        KeycodeView::KC_K => KeyLabelView { text: "K"@, size: GlyphSize::Single },
        KeycodeView::KC_L => KeyLabelView { text: "L"@, size: GlyphSize::Single },
        KeycodeView::KC_M => KeyLabelView { text: "M"@, size: GlyphSize::Single },
        KeycodeView::KC_N => KeyLabelView { text: "N"@, size: GlyphSize::Single },
        KeycodeView::KC_O => KeyLabelView { text: "O"@, size: GlyphSize::Single },
        KeycodeView::KC_P => KeyLabelView { text: "P"@, size: GlyphSize::Single },
        KeycodeView::KC_Q => KeyLabelView { text: "Q"@, size: GlyphSize::Single },
        KeycodeView::KC_R => KeyLabelView { text: "R"@, size: GlyphSize::Single },
        KeycodeView::KC_S => KeyLabelView { text: "S"@, size: GlyphSize::Single },
        KeycodeView::KC_T => KeyLabelView { text: "T"@, size: GlyphSize::Single },
        KeycodeView::KC_U => KeyLabelView { text: "U"@, size: GlyphSize::Single },
        KeycodeView::KC_V => KeyLabelView { text: "V"@, size: GlyphSize::Single },
        KeycodeView::KC_W => KeyLabelView { text: "W"@, size: GlyphSize::Single },
        KeycodeView::KC_X => KeyLabelView { text: "X"@, size: GlyphSize::Single },
        KeycodeView::KC_Y => KeyLabelView { text: "Y"@, size: GlyphSize::Single },
        KeycodeView::KC_Z => KeyLabelView { text: "Z"@, size: GlyphSize::Single },
        KeycodeView::KC_0 => KeyLabelView { text: ")"@, size: GlyphSize::Single },
        KeycodeView::KC_1 => KeyLabelView { text: "!"@, size: GlyphSize::Single },
        KeycodeView::KC_2 => KeyLabelView { text: "@"@, size: GlyphSize::Single },
        KeycodeView::KC_3 => KeyLabelView { text: "#"@, size: GlyphSize::Single },
        KeycodeView::KC_4 => KeyLabelView { text: "$"@, size: GlyphSize::Single },
        KeycodeView::KC_5 => KeyLabelView { text: "%"@, size: GlyphSize::Single },
        KeycodeView::KC_6 => KeyLabelView { text: "^"@, size: GlyphSize::Single },
        KeycodeView::KC_7 => KeyLabelView { text: "&"@, size: GlyphSize::Single },
        KeycodeView::KC_8 => KeyLabelView { text: "*"@, size: GlyphSize::Single },
        KeycodeView::KC_9 => KeyLabelView { text: "("@, size: GlyphSize::Single },
        KeycodeView::KC_MINUS => KeyLabelView { text: "_"@, size: GlyphSize::Single },
        KeycodeView::KC_GRV => KeyLabelView { text: "~"@, size: GlyphSize::Single },
        KeycodeView::KC_QUOT => KeyLabelView { text: "\""@, size: GlyphSize::Single },
        KeycodeView::KC_BSLS => KeyLabelView { text: "|"@, size: GlyphSize::Single },
        KeycodeView::KC_LBRC => KeyLabelView { text: "{"@, size: GlyphSize::Single },
        KeycodeView::KC_RBRC => KeyLabelView { text: "}"@, size: GlyphSize::Single },
        KeycodeView::KC_EQUAL => KeyLabelView { text: "+"@, size: GlyphSize::Single },
        KeycodeView::KC_COMM => KeyLabelView { text: "<"@, size: GlyphSize::Single },
        KeycodeView::KC_DOT => KeyLabelView { text: ">"@, size: GlyphSize::Single },
        KeycodeView::KC_SLASH => KeyLabelView { text: "?"@, size: GlyphSize::Single },
        _ => KeyLabelView { text: "<>"@, size: GlyphSize::Double },
    }
}

/// The glyph a key action shows on its keycap, if it shows one by
/// itself.  `NONE` and `TRANSPARENT` show nothing, and the two-part
/// composites (`MT`, `LT`) place the glyphs of their parts separately.
pub open spec fn glyph_of(k: KeycodeView) -> Option<KeyLabelView> {
    match k {
        KeycodeView::NONE => None,
        KeycodeView::TRANSPARENT => None,
        KeycodeView::KC_A => Some(KeyLabelView { text: "a"@, size: GlyphSize::Single }),
        KeycodeView::KC_B => Some(KeyLabelView { text: "b"@, size: GlyphSize::Single }),
        KeycodeView::KC_C => Some(KeyLabelView { text: "c"@, size: GlyphSize::Single }),
        KeycodeView::KC_D => Some(KeyLabelView { text: "d"@, size: GlyphSize::Single }),
        KeycodeView::KC_E => Some(KeyLabelView { text: "e"@, size: GlyphSize::Single }),
        KeycodeView::KC_F => Some(KeyLabelView { text: "f"@, size: GlyphSize::Single }),
        KeycodeView::KC_G => Some(KeyLabelView { text: "g"@, size: GlyphSize::Single }),
        KeycodeView::KC_H => Some(KeyLabelView { text: "h"@, size: GlyphSize::Single }),
        KeycodeView::KC_I => Some(KeyLabelView { text: "i"@, size: GlyphSize::Single }),
        KeycodeView::KC_J => Some(KeyLabelView { text: "j"@, size: GlyphSize::Single }),
        KeycodeView::KC_K => Some(KeyLabelView { text: "k"@, size: GlyphSize::Single }),
        KeycodeView::KC_L => Some(KeyLabelView { text: "l"@, size: GlyphSize::Single }),
        KeycodeView::KC_M => Some(KeyLabelView { text: "m"@, size: GlyphSize::Single }),
        KeycodeView::KC_N => Some(KeyLabelView { text: "n"@, size: GlyphSize::Single }),
        KeycodeView::KC_O => Some(KeyLabelView { text: "o"@, size: GlyphSize::Single }),
        KeycodeView::KC_P => Some(KeyLabelView { text: "p"@, size: GlyphSize::Single }),
        KeycodeView::KC_Q => Some(KeyLabelView { text: "q"@, size: GlyphSize::Single }),
        KeycodeView::KC_R => Some(KeyLabelView { text: "r"@, size: GlyphSize::Single }),
        KeycodeView::KC_S => Some(KeyLabelView { text: "s"@, size: GlyphSize::Single }),
        KeycodeView::KC_T => Some(KeyLabelView { text: "t"@, size: GlyphSize::Single }),
        KeycodeView::KC_U => Some(KeyLabelView { text: "u"@, size: GlyphSize::Single }),
        KeycodeView::KC_V => Some(KeyLabelView { text: "v"@, size: GlyphSize::Single }),
        KeycodeView::KC_W => Some(KeyLabelView { text: "w"@, size: GlyphSize::Single }),
        KeycodeView::KC_X => Some(KeyLabelView { text: "x"@, size: GlyphSize::Single }),
        KeycodeView::KC_Y => Some(KeyLabelView { text: "y"@, size: GlyphSize::Single }),
        KeycodeView::KC_Z => Some(KeyLabelView { text: "z"@, size: GlyphSize::Single }),
        KeycodeView::KC_0 => Some(KeyLabelView { text: "0"@, size: GlyphSize::Single }),
        KeycodeView::KC_1 => Some(KeyLabelView { text: "1"@, size: GlyphSize::Single }),
        KeycodeView::KC_2 => Some(KeyLabelView { text: "2"@, size: GlyphSize::Single }),
        KeycodeView::KC_3 => Some(KeyLabelView { text: "3"@, size: GlyphSize::Single }),
        KeycodeView::KC_4 => Some(KeyLabelView { text: "4"@, size: GlyphSize::Single }),
        KeycodeView::KC_5 => Some(KeyLabelView { text: "5"@, size: GlyphSize::Single }),
        KeycodeView::KC_6 => Some(KeyLabelView { text: "6"@, size: GlyphSize::Single }),
        KeycodeView::KC_7 => Some(KeyLabelView { text: "7"@, size: GlyphSize::Single }),
        KeycodeView::KC_8 => Some(KeyLabelView { text: "8"@, size: GlyphSize::Single }),
        KeycodeView::KC_9 => Some(KeyLabelView { text: "9"@, size: GlyphSize::Single }),
        KeycodeView::KC_F1 => Some(KeyLabelView { text: "F1"@, size: GlyphSize::Double }),
        KeycodeView::KC_F2 => Some(KeyLabelView { text: "F2"@, size: GlyphSize::Double }),
        KeycodeView::KC_F3 => Some(KeyLabelView { text: "F3"@, size: GlyphSize::Double }),
        KeycodeView::KC_F4 => Some(KeyLabelView { text: "F4"@, size: GlyphSize::Double }),
        KeycodeView::KC_F5 => Some(KeyLabelView { text: "F5"@, size: GlyphSize::Double }),
        KeycodeView::KC_F6 => Some(KeyLabelView { text: "F6"@, size: GlyphSize::Double }),
        KeycodeView::KC_F7 => Some(KeyLabelView { text: "F7"@, size: GlyphSize::Double }),
        KeycodeView::KC_F8 => Some(KeyLabelView { text: "F8"@, size: GlyphSize::Double }),
        KeycodeView::KC_F9 => Some(KeyLabelView { text: "F9"@, size: GlyphSize::Double }),
        KeycodeView::KC_F10 => Some(KeyLabelView { text: "F10"@, size: GlyphSize::Triple }),
        KeycodeView::KC_KB_VOLUME_UP => Some(KeyLabelView { text: "V+"@, size: GlyphSize::Double }),
        KeycodeView::KC_KB_VOLUME_DOWN => Some(KeyLabelView { text: "V-"@, size: GlyphSize::Double }),
        KeycodeView::KC_KB_MUTE => Some(KeyLabelView { text: "mut"@, size: GlyphSize::Triple }),
        KeycodeView::KC_MEDIA_PLAY => Some(KeyLabelView { text: "\u{25b6}"@, size: GlyphSize::Double }),
        KeycodeView::KC_MEDIA_PREV => Some(KeyLabelView { text: "prev"@, size: GlyphSize::Triple }),
        KeycodeView::KC_MEDIA_NEXT => Some(KeyLabelView { text: "next"@, size: GlyphSize::Triple }),
        KeycodeView::KC_MINUS => Some(KeyLabelView { text: "-"@, size: GlyphSize::Single }),
        KeycodeView::KC_GRV => Some(KeyLabelView { text: "`"@, size: GlyphSize::Single }),
        KeycodeView::KC_QUOT => Some(KeyLabelView { text: "'"@, size: GlyphSize::Single }),
        KeycodeView::KC_BSLS => Some(KeyLabelView { text: "\\"@, size: GlyphSize::Single }),
        KeycodeView::KC_LBRC => Some(KeyLabelView { text: "["@, size: GlyphSize::Single }),
        KeycodeView::KC_RBRC => Some(KeyLabelView { text: "]"@, size: GlyphSize::Single }),
        KeycodeView::KC_EQUAL => Some(KeyLabelView { text: "="@, size: GlyphSize::Single }),
        KeycodeView::KC_COMM => Some(KeyLabelView { text: ","@, size: GlyphSize::Single }),
        KeycodeView::KC_DOT => Some(KeyLabelView { text: "."@, size: GlyphSize::Single }),
        KeycodeView::KC_SLASH => Some(KeyLabelView { text: "/"@, size: GlyphSize::Single }),
        KeycodeView::MOD_LCTL => Some(KeyLabelView { text: "Ctl"@, size: GlyphSize::Triple }),
        KeycodeView::KC_BSPC => Some(KeyLabelView { text: "Bsp"@, size: GlyphSize::Triple }),
        KeycodeView::KC_LGUI => Some(KeyLabelView { text: "Mod"@, size: GlyphSize::Triple }),
        KeycodeView::KC_SPACE => Some(KeyLabelView { text: "\u{2423}"@, size: GlyphSize::Single }),
        KeycodeView::MOD_LALT => Some(KeyLabelView { text: "Alt"@, size: GlyphSize::Triple }),
        KeycodeView::KC_TAB => Some(KeyLabelView { text: "Tab"@, size: GlyphSize::Triple }),
        KeycodeView::KC_PGUP => Some(KeyLabelView { text: "PgU"@, size: GlyphSize::Triple }),
        KeycodeView::KC_PGDN => Some(KeyLabelView { text: "PgD"@, size: GlyphSize::Triple }),
        KeycodeView::KC_HOME => Some(KeyLabelView { text: "Hom"@, size: GlyphSize::Triple }),
        KeycodeView::KC_END => Some(KeyLabelView { text: "End"@, size: GlyphSize::Triple }),
        KeycodeView::KC_ENT => Some(KeyLabelView { text: "Ent"@, size: GlyphSize::Triple }),
        KeycodeView::KC_ESC => Some(KeyLabelView { text: "Esc"@, size: GlyphSize::Triple }),
        KeycodeView::KC_PSCR => Some(KeyLabelView { text: "PSc"@, size: GlyphSize::Triple }),
        KeycodeView::S(inner) => Some(shifted_glyph(*inner)),
        KeycodeView::MO(name) => layer_glyph(name),
        KeycodeView::MT(hold, tap) => None,
        KeycodeView::LT(name, tap) => None,
    }
}

/// The glyph of the momentary-layer indicator for a layer name.
pub fn layer_indicator(name: &str) -> (r: Option<KeyLabel>)
    ensures
        match r {
            Some(l) => layer_glyph(name@) == Some(l.deep_view()),
            None => layer_glyph(name@) is None,
        },
{
    let chars = crate::text::str_chars(name);
    let t = chars.as_slice();
    if crate::text::is_tok(t, "_SHIFT") {
        Some(KeyLabel { text: String::from_str("\u{2191}"), size: GlyphSize::Single })
    } else if crate::text::is_tok(t, "_NUMBERS") {
        Some(KeyLabel { text: String::from_str("123"), size: GlyphSize::Triple })
    } else if crate::text::is_tok(t, "_SYMBOLS") {
        Some(KeyLabel { text: String::from_str("#+="), size: GlyphSize::Triple })
    } else {
        None
    }
}

impl Keycode {
    /// The shifted glyph of the action inside an `S(..)` wrapper.
    fn shifted_label(&self) -> (r: KeyLabel)
        ensures
            r.deep_view() == shifted_glyph(self.deep_view()),
    {
        match self {
            Keycode::KC_A => KeyLabel { text: String::from_str("A"), size: GlyphSize::Single },
            Keycode::KC_B => KeyLabel { text: String::from_str("B"), size: GlyphSize::Single },
            Keycode::KC_C => KeyLabel { text: String::from_str("C"), size: GlyphSize::Single },
            Keycode::KC_D => KeyLabel { text: String::from_str("D"), size: GlyphSize::Single },
            Keycode::KC_E => KeyLabel { text: String::from_str("E"), size: GlyphSize::Single },
            Keycode::KC_F => KeyLabel { text: String::from_str("F"), size: GlyphSize::Single },
            Keycode::KC_G => KeyLabel { text: String::from_str("G"), size: GlyphSize::Single },
            Keycode::KC_H => KeyLabel { text: String::from_str("H"), size: GlyphSize::Single },
            Keycode::KC_I => KeyLabel { text: String::from_str("I"), size: GlyphSize::Single },
            Keycode::KC_J => KeyLabel { text: String::from_str("J"), size: GlyphSize::Single },
            Keycode::KC_K => KeyLabel { text: String::from_str("K"), size: GlyphSize::Single },
            Keycode::KC_L => KeyLabel { text: String::from_str("L"), size: GlyphSize::Single },
            Keycode::KC_M => KeyLabel { text: String::from_str("M"), size: GlyphSize::Single },
            Keycode::KC_N => KeyLabel { text: String::from_str("N"), size: GlyphSize::Single },
            Keycode::KC_O => KeyLabel { text: String::from_str("O"), size: GlyphSize::Single },
            Keycode::KC_P => KeyLabel { text: String::from_str("P"), size: GlyphSize::Single },
            Keycode::KC_Q => KeyLabel { text: String::from_str("Q"), size: GlyphSize::Single },
            Keycode::KC_R => KeyLabel { text: String::from_str("R"), size: GlyphSize::Single },
            Keycode::KC_S => KeyLabel { text: String::from_str("S"), size: GlyphSize::Single },
            Keycode::KC_T => KeyLabel { text: String::from_str("T"), size: GlyphSize::Single },
            Keycode::KC_U => KeyLabel { text: String::from_str("U"), size: GlyphSize::Single },
            Keycode::KC_V => KeyLabel { text: String::from_str("V"), size: GlyphSize::Single },
            Keycode::KC_W => KeyLabel { text: String::from_str("W"), size: GlyphSize::Single },
            Keycode::KC_X => KeyLabel { text: String::from_str("X"), size: GlyphSize::Single },
            Keycode::KC_Y => KeyLabel { text: String::from_str("Y"), size: GlyphSize::Single },
            Keycode::KC_Z => KeyLabel { text: String::from_str("Z"), size: GlyphSize::Single },
            Keycode::KC_0 => KeyLabel { text: String::from_str(")"), size: GlyphSize::Single },
            Keycode::KC_1 => KeyLabel { text: String::from_str("!"), size: GlyphSize::Single },
            Keycode::KC_2 => KeyLabel { text: String::from_str("@"), size: GlyphSize::Single },
            Keycode::KC_3 => KeyLabel { text: String::from_str("#"), size: GlyphSize::Single },
            Keycode::KC_4 => KeyLabel { text: String::from_str("$"), size: GlyphSize::Single },
            Keycode::KC_5 => KeyLabel { text: String::from_str("%"), size: GlyphSize::Single },
            Keycode::KC_6 => KeyLabel { text: String::from_str("^"), size: GlyphSize::Single },
            Keycode::KC_7 => KeyLabel { text: String::from_str("&"), size: GlyphSize::Single },
            Keycode::KC_8 => KeyLabel { text: String::from_str("*"), size: GlyphSize::Single },
            Keycode::KC_9 => KeyLabel { text: String::from_str("("), size: GlyphSize::Single },
            Keycode::KC_MINUS => KeyLabel { text: String::from_str("_"), size: GlyphSize::Single },
            Keycode::KC_GRV => KeyLabel { text: String::from_str("~"), size: GlyphSize::Single },
            Keycode::KC_QUOT => KeyLabel { text: String::from_str("\""), size: GlyphSize::Single },
            Keycode::KC_BSLS => KeyLabel { text: String::from_str("|"), size: GlyphSize::Single },
            Keycode::KC_LBRC => KeyLabel { text: String::from_str("{"), size: GlyphSize::Single },
            Keycode::KC_RBRC => KeyLabel { text: String::from_str("}"), size: GlyphSize::Single },
            Keycode::KC_EQUAL => KeyLabel { text: String::from_str("+"), size: GlyphSize::Single },
            Keycode::KC_COMM => KeyLabel { text: String::from_str("<"), size: GlyphSize::Single },
            Keycode::KC_DOT => KeyLabel { text: String::from_str(">"), size: GlyphSize::Single },
            Keycode::KC_SLASH => KeyLabel { text: String::from_str("?"), size: GlyphSize::Single },
            _ => KeyLabel { text: String::from_str("<>"), size: GlyphSize::Double },
        }
    }

    /// The glyph this key action shows on its keycap, if it shows one by
    /// itself.
    pub fn glyph(&self) -> (r: Option<KeyLabel>)
        ensures
            match r {
                Some(l) => glyph_of(self.deep_view()) == Some(l.deep_view()),
                None => glyph_of(self.deep_view()) is None,
            },
    {
        match self {
            Keycode::NONE => None,
            Keycode::TRANSPARENT => None,
            Keycode::KC_A => Some(KeyLabel { text: String::from_str("a"), size: GlyphSize::Single }),
            Keycode::KC_B => Some(KeyLabel { text: String::from_str("b"), size: GlyphSize::Single }),
            Keycode::KC_C => Some(KeyLabel { text: String::from_str("c"), size: GlyphSize::Single }),
            Keycode::KC_D => Some(KeyLabel { text: String::from_str("d"), size: GlyphSize::Single }),
            Keycode::KC_E => Some(KeyLabel { text: String::from_str("e"), size: GlyphSize::Single }),
            Keycode::KC_F => Some(KeyLabel { text: String::from_str("f"), size: GlyphSize::Single }),
            Keycode::KC_G => Some(KeyLabel { text: String::from_str("g"), size: GlyphSize::Single }),
            Keycode::KC_H => Some(KeyLabel { text: String::from_str("h"), size: GlyphSize::Single }),
            Keycode::KC_I => Some(KeyLabel { text: String::from_str("i"), size: GlyphSize::Single }),
            Keycode::KC_J => Some(KeyLabel { text: String::from_str("j"), size: GlyphSize::Single }),
            Keycode::KC_K => Some(KeyLabel { text: String::from_str("k"), size: GlyphSize::Single }),
            Keycode::KC_L => Some(KeyLabel { text: String::from_str("l"), size: GlyphSize::Single }),
            Keycode::KC_M => Some(KeyLabel { text: String::from_str("m"), size: GlyphSize::Single }),
            Keycode::KC_N => Some(KeyLabel { text: String::from_str("n"), size: GlyphSize::Single }),
            Keycode::KC_O => Some(KeyLabel { text: String::from_str("o"), size: GlyphSize::Single }),
            Keycode::KC_P => Some(KeyLabel { text: String::from_str("p"), size: GlyphSize::Single }),
            Keycode::KC_Q => Some(KeyLabel { text: String::from_str("q"), size: GlyphSize::Single }),
            Keycode::KC_R => Some(KeyLabel { text: String::from_str("r"), size: GlyphSize::Single }),
            Keycode::KC_S => Some(KeyLabel { text: String::from_str("s"), size: GlyphSize::Single }),
            Keycode::KC_T => Some(KeyLabel { text: String::from_str("t"), size: GlyphSize::Single }),
            Keycode::KC_U => Some(KeyLabel { text: String::from_str("u"), size: GlyphSize::Single }),
            Keycode::KC_V => Some(KeyLabel { text: String::from_str("v"), size: GlyphSize::Single }),
            Keycode::KC_W => Some(KeyLabel { text: String::from_str("w"), size: GlyphSize::Single }),
            Keycode::KC_X => Some(KeyLabel { text: String::from_str("x"), size: GlyphSize::Single }),
            Keycode::KC_Y => Some(KeyLabel { text: String::from_str("y"), size: GlyphSize::Single }),
            Keycode::KC_Z => Some(KeyLabel { text: String::from_str("z"), size: GlyphSize::Single }),
            Keycode::KC_0 => Some(KeyLabel { text: String::from_str("0"), size: GlyphSize::Single }),
            Keycode::KC_1 => Some(KeyLabel { text: String::from_str("1"), size: GlyphSize::Single }),
            Keycode::KC_2 => Some(KeyLabel { text: String::from_str("2"), size: GlyphSize::Single }),
            Keycode::KC_3 => Some(KeyLabel { text: String::from_str("3"), size: GlyphSize::Single }),
            Keycode::KC_4 => Some(KeyLabel { text: String::from_str("4"), size: GlyphSize::Single }),
            Keycode::KC_5 => Some(KeyLabel { text: String::from_str("5"), size: GlyphSize::Single }),
            Keycode::KC_6 => Some(KeyLabel { text: String::from_str("6"), size: GlyphSize::Single }),
            Keycode::KC_7 => Some(KeyLabel { text: String::from_str("7"), size: GlyphSize::Single }),
            Keycode::KC_8 => Some(KeyLabel { text: String::from_str("8"), size: GlyphSize::Single }),
            Keycode::KC_9 => Some(KeyLabel { text: String::from_str("9"), size: GlyphSize::Single }),
            Keycode::KC_F1 => Some(KeyLabel { text: String::from_str("F1"), size: GlyphSize::Double }),
            Keycode::KC_F2 => Some(KeyLabel { text: String::from_str("F2"), size: GlyphSize::Double }),
            Keycode::KC_F3 => Some(KeyLabel { text: String::from_str("F3"), size: GlyphSize::Double }),
            Keycode::KC_F4 => Some(KeyLabel { text: String::from_str("F4"), size: GlyphSize::Double }),
            Keycode::KC_F5 => Some(KeyLabel { text: String::from_str("F5"), size: GlyphSize::Double }),
            Keycode::KC_F6 => Some(KeyLabel { text: String::from_str("F6"), size: GlyphSize::Double }),
            Keycode::KC_F7 => Some(KeyLabel { text: String::from_str("F7"), size: GlyphSize::Double }),
            Keycode::KC_F8 => Some(KeyLabel { text: String::from_str("F8"), size: GlyphSize::Double }),
            Keycode::KC_F9 => Some(KeyLabel { text: String::from_str("F9"), size: GlyphSize::Double }),
            Keycode::KC_F10 => Some(KeyLabel { text: String::from_str("F10"), size: GlyphSize::Triple }),
            Keycode::KC_KB_VOLUME_UP => Some(KeyLabel { text: String::from_str("V+"), size: GlyphSize::Double }),
            Keycode::KC_KB_VOLUME_DOWN => Some(KeyLabel { text: String::from_str("V-"), size: GlyphSize::Double }),
            Keycode::KC_KB_MUTE => Some(KeyLabel { text: String::from_str("mut"), size: GlyphSize::Triple }),
            Keycode::KC_MEDIA_PLAY => Some(KeyLabel { text: String::from_str("\u{25b6}"), size: GlyphSize::Double }),
            Keycode::KC_MEDIA_PREV => Some(KeyLabel { text: String::from_str("prev"), size: GlyphSize::Triple }),
            Keycode::KC_MEDIA_NEXT => Some(KeyLabel { text: String::from_str("next"), size: GlyphSize::Triple }),
            Keycode::KC_MINUS => Some(KeyLabel { text: String::from_str("-"), size: GlyphSize::Single }),
            Keycode::KC_GRV => Some(KeyLabel { text: String::from_str("`"), size: GlyphSize::Single }),
            Keycode::KC_QUOT => Some(KeyLabel { text: String::from_str("'"), size: GlyphSize::Single }),
            Keycode::KC_BSLS => Some(KeyLabel { text: String::from_str("\\"), size: GlyphSize::Single }),
            Keycode::KC_LBRC => Some(KeyLabel { text: String::from_str("["), size: GlyphSize::Single }),
            Keycode::KC_RBRC => Some(KeyLabel { text: String::from_str("]"), size: GlyphSize::Single }),
            Keycode::KC_EQUAL => Some(KeyLabel { text: String::from_str("="), size: GlyphSize::Single }),
            Keycode::KC_COMM => Some(KeyLabel { text: String::from_str(","), size: GlyphSize::Single }),
            Keycode::KC_DOT => Some(KeyLabel { text: String::from_str("."), size: GlyphSize::Single }),
            Keycode::KC_SLASH => Some(KeyLabel { text: String::from_str("/"), size: GlyphSize::Single }),
            Keycode::MOD_LCTL => Some(KeyLabel { text: String::from_str("Ctl"), size: GlyphSize::Triple }),
            Keycode::KC_BSPC => Some(KeyLabel { text: String::from_str("Bsp"), size: GlyphSize::Triple }),
            Keycode::KC_LGUI => Some(KeyLabel { text: String::from_str("Mod"), size: GlyphSize::Triple }),
            Keycode::KC_SPACE => Some(KeyLabel { text: String::from_str("\u{2423}"), size: GlyphSize::Single }),
            Keycode::MOD_LALT => Some(KeyLabel { text: String::from_str("Alt"), size: GlyphSize::Triple }),
            Keycode::KC_TAB => Some(KeyLabel { text: String::from_str("Tab"), size: GlyphSize::Triple }),
            Keycode::KC_PGUP => Some(KeyLabel { text: String::from_str("PgU"), size: GlyphSize::Triple }),
            Keycode::KC_PGDN => Some(KeyLabel { text: String::from_str("PgD"), size: GlyphSize::Triple }),
            Keycode::KC_HOME => Some(KeyLabel { text: String::from_str("Hom"), size: GlyphSize::Triple }),
            Keycode::KC_END => Some(KeyLabel { text: String::from_str("End"), size: GlyphSize::Triple }),
            Keycode::KC_ENT => Some(KeyLabel { text: String::from_str("Ent"), size: GlyphSize::Triple }),
            Keycode::KC_ESC => Some(KeyLabel { text: String::from_str("Esc"), size: GlyphSize::Triple }),
            Keycode::KC_PSCR => Some(KeyLabel { text: String::from_str("PSc"), size: GlyphSize::Triple }),
            Keycode::S(inner) => Some(inner.shifted_label()),
            Keycode::MO(name) => layer_indicator(name.as_str()),
            Keycode::MT(hold, tap) => None,
            Keycode::LT(name, tap) => None,
        }
    }
}

} // verus!
