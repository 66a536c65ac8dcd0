//! The key-action vocabulary and the resolver that turns one key
//! expression into a typed [`Keycode`].
//!
//! The vocabulary is a fixed, closed catalog: literal tokens map to plain
//! variants, and four composite forms (`S(..)`, `MO(..)`, `MT(..,..)`,
//! `LT(..,..)`) nest further key actions.  Tokens outside the catalog are
//! unresolvable and fail, never silently default.

use vstd::prelude::*;
use vstd::string::StringExecFns;

use crate::error::{ParseError, ParseErrorView};
use crate::text::{
    chars_to_string, has_prefix, is_tok, lemma_split_commas_pieces, split_commas,
    split_commas_exec, starts_with, str_chars, subvec,
};

verus! {

/// One physical key's behavior on one layer: a closed, recursive variant
/// type.  Composite variants own independently allocated child values, so
/// ownership is strictly tree-shaped.
#[allow(non_camel_case_types)]
#[derive(Debug, PartialEq, Eq)]
pub enum Keycode {
    NONE,
    TRANSPARENT,
    KC_A,
    KC_B,
    KC_C,
    KC_D,
    KC_E,
    KC_F,
    KC_G,
    KC_H,
    KC_I,
    KC_J,
    KC_K,
    KC_L,
    KC_M,
    KC_N,
    KC_O,
    KC_P,
    KC_Q,
    KC_R,
    KC_S,
    KC_T,
    KC_U,
    KC_V,
    KC_W,
    KC_X,
    KC_Y,
    KC_Z,
    KC_0,
    KC_1,
    KC_2,
    KC_3,
    KC_4,
    KC_5,
    KC_6,
    KC_7,
    KC_8,
    KC_9,
    KC_F1,
    KC_F2,
    KC_F3,
    KC_F4,
    KC_F5,
    KC_F6,
    KC_F7,
    KC_F8,
    KC_F9,
    KC_F10,
    KC_KB_VOLUME_UP,
    KC_KB_VOLUME_DOWN,
    KC_KB_MUTE,
    KC_MEDIA_PLAY,
    KC_MEDIA_PREV,
    KC_MEDIA_NEXT,
    KC_MINUS,
    KC_GRV,
    KC_QUOT,
    KC_BSLS,
    KC_LBRC,
    KC_RBRC,
    KC_EQUAL,
    KC_COMM,
    KC_DOT,
    KC_SLASH,
    MOD_LCTL,
    KC_BSPC,
    KC_LGUI,
    KC_SPACE,
    MOD_LALT,
    KC_TAB,
    KC_PGUP,
    KC_PGDN,
    KC_HOME,
    KC_END,
    KC_ENT,
    KC_ESC,
    KC_PSCR,
    /// Momentarily activates the named layer while held.
    MO(String),
    /// Holds to emit the first action, taps to emit the second.
    MT(Box<Keycode>, Box<Keycode>),
    /// Holds to activate the named layer, taps to emit the action.
    LT(String, Box<Keycode>),
    /// The shifted variant of the inner action.
    S(Box<Keycode>),
}

/// The mathematical model of [`Keycode`]: the same variants with layer
/// names as character sequences.
#[allow(non_camel_case_types)]
pub enum KeycodeView {
    NONE,
    TRANSPARENT,
    KC_A,
    KC_B,
    KC_C,
    KC_D,
    KC_E,
    KC_F,
    KC_G,
    KC_H,
    KC_I,
    KC_J,
    KC_K,
    KC_L,
    KC_M,
    KC_N,
    KC_O,
    KC_P,
    KC_Q,
    KC_R,
    KC_S,
    KC_T,
    KC_U,
    KC_V,
    KC_W,
    KC_X,
    KC_Y,
    KC_Z,
    KC_0,
    KC_1,
    KC_2,
    KC_3,
    KC_4,
    KC_5,
    KC_6,
    KC_7,
    KC_8,
    KC_9,
    KC_F1,
    KC_F2,
    KC_F3,
    KC_F4,
    KC_F5,
    KC_F6,
    KC_F7,
    KC_F8,
    KC_F9,
    KC_F10,
    KC_KB_VOLUME_UP,
    KC_KB_VOLUME_DOWN,
    KC_KB_MUTE,
    KC_MEDIA_PLAY,
    KC_MEDIA_PREV,
    KC_MEDIA_NEXT,
    KC_MINUS,
    KC_GRV,
    KC_QUOT,
    KC_BSLS,
    KC_LBRC,
    KC_RBRC,
    KC_EQUAL,
    KC_COMM,
    KC_DOT,
    KC_SLASH,
    MOD_LCTL,
    KC_BSPC,
    KC_LGUI,
    KC_SPACE,
    MOD_LALT,
    KC_TAB,
    KC_PGUP,
    KC_PGDN,
    KC_HOME,
    KC_END,
    KC_ENT,
    KC_ESC,
    KC_PSCR,
    MO(Seq<char>),
    MT(Box<KeycodeView>, Box<KeycodeView>),
    LT(Seq<char>, Box<KeycodeView>),
    S(Box<KeycodeView>),
}

/// The model a [`Keycode`] denotes.
pub open spec fn keycode_view(k: Keycode) -> KeycodeView
    decreases k,
{
    match k {
        Keycode::NONE => KeycodeView::NONE,
        Keycode::TRANSPARENT => KeycodeView::TRANSPARENT,
        Keycode::KC_A => KeycodeView::KC_A,
        Keycode::KC_B => KeycodeView::KC_B,
        Keycode::KC_C => KeycodeView::KC_C,
        Keycode::KC_D => KeycodeView::KC_D,
        Keycode::KC_E => KeycodeView::KC_E,
        Keycode::KC_F => KeycodeView::KC_F,
        Keycode::KC_G => KeycodeView::KC_G,
        Keycode::KC_H => KeycodeView::KC_H,
        Keycode::KC_I => KeycodeView::KC_I,
        Keycode::KC_J => KeycodeView::KC_J,
        Keycode::KC_K => KeycodeView::KC_K,
        Keycode::KC_L => KeycodeView::KC_L,
        Keycode::KC_M => KeycodeView::KC_M,
        Keycode::KC_N => KeycodeView::KC_N,
        Keycode::KC_O => KeycodeView::KC_O,
        Keycode::KC_P => KeycodeView::KC_P,
        Keycode::KC_Q => KeycodeView::KC_Q,
        Keycode::KC_R => KeycodeView::KC_R,
        Keycode::KC_S => KeycodeView::KC_S,
        Keycode::KC_T => KeycodeView::KC_T,
        Keycode::KC_U => KeycodeView::KC_U,
        Keycode::KC_V => KeycodeView::KC_V,
        Keycode::KC_W => KeycodeView::KC_W,
        Keycode::KC_X => KeycodeView::KC_X,
        Keycode::KC_Y => KeycodeView::KC_Y,
        Keycode::KC_Z => KeycodeView::KC_Z,
        Keycode::KC_0 => KeycodeView::KC_0,
        Keycode::KC_1 => KeycodeView::KC_1,
        Keycode::KC_2 => KeycodeView::KC_2,
        Keycode::KC_3 => KeycodeView::KC_3,
        Keycode::KC_4 => KeycodeView::KC_4,
        Keycode::KC_5 => KeycodeView::KC_5,
        Keycode::KC_6 => KeycodeView::KC_6,
        Keycode::KC_7 => KeycodeView::KC_7,
        Keycode::KC_8 => KeycodeView::KC_8,
        Keycode::KC_9 => KeycodeView::KC_9,
        Keycode::KC_F1 => KeycodeView::KC_F1,
        Keycode::KC_F2 => KeycodeView::KC_F2,
        Keycode::KC_F3 => KeycodeView::KC_F3,
        Keycode::KC_F4 => KeycodeView::KC_F4,
        Keycode::KC_F5 => KeycodeView::KC_F5,
        Keycode::KC_F6 => KeycodeView::KC_F6,
        Keycode::KC_F7 => KeycodeView::KC_F7,
        Keycode::KC_F8 => KeycodeView::KC_F8,
        Keycode::KC_F9 => KeycodeView::KC_F9,
        Keycode::KC_F10 => KeycodeView::KC_F10,
        Keycode::KC_KB_VOLUME_UP => KeycodeView::KC_KB_VOLUME_UP,
        Keycode::KC_KB_VOLUME_DOWN => KeycodeView::KC_KB_VOLUME_DOWN,
        Keycode::KC_KB_MUTE => KeycodeView::KC_KB_MUTE,
        Keycode::KC_MEDIA_PLAY => KeycodeView::KC_MEDIA_PLAY,
        Keycode::KC_MEDIA_PREV => KeycodeView::KC_MEDIA_PREV,
        Keycode::KC_MEDIA_NEXT => KeycodeView::KC_MEDIA_NEXT,
        Keycode::KC_MINUS => KeycodeView::KC_MINUS,
        Keycode::KC_GRV => KeycodeView::KC_GRV,
        Keycode::KC_QUOT => KeycodeView::KC_QUOT,
        Keycode::KC_BSLS => KeycodeView::KC_BSLS,
        Keycode::KC_LBRC => KeycodeView::KC_LBRC,
        Keycode::KC_RBRC => KeycodeView::KC_RBRC,
        Keycode::KC_EQUAL => KeycodeView::KC_EQUAL,
        Keycode::KC_COMM => KeycodeView::KC_COMM,
        Keycode::KC_DOT => KeycodeView::KC_DOT,
        Keycode::KC_SLASH => KeycodeView::KC_SLASH,
        Keycode::MOD_LCTL => KeycodeView::MOD_LCTL,
        Keycode::KC_BSPC => KeycodeView::KC_BSPC,
        Keycode::KC_LGUI => KeycodeView::KC_LGUI,
        Keycode::KC_SPACE => KeycodeView::KC_SPACE,
        Keycode::MOD_LALT => KeycodeView::MOD_LALT,
        Keycode::KC_TAB => KeycodeView::KC_TAB,
        Keycode::KC_PGUP => KeycodeView::KC_PGUP,
        Keycode::KC_PGDN => KeycodeView::KC_PGDN,
        Keycode::KC_HOME => KeycodeView::KC_HOME,
        Keycode::KC_END => KeycodeView::KC_END,
        Keycode::KC_ENT => KeycodeView::KC_ENT,
        Keycode::KC_ESC => KeycodeView::KC_ESC,
        Keycode::KC_PSCR => KeycodeView::KC_PSCR,
        Keycode::MO(name) => KeycodeView::MO(name@),
        Keycode::MT(hold, tap) => KeycodeView::MT(
            Box::new(keycode_view(*hold)),
            Box::new(keycode_view(*tap)),
        ),
        Keycode::LT(name, tap) => KeycodeView::LT(name@, Box::new(keycode_view(*tap))),
        Keycode::S(inner) => KeycodeView::S(Box::new(keycode_view(*inner))),
    }
}

impl DeepView for Keycode {
    type V = KeycodeView;

    open spec fn deep_view(&self) -> KeycodeView {
        keycode_view(*self)
    }
}

/// The literal catalog: the plain variant a token resolves to, if any.
pub open spec fn simple_keycode(t: Seq<char>) -> Option<KeycodeView> {
    if t == "KC_NO"@ {
        Some(KeycodeView::NONE)
    } else if t == "KC_TRNS"@ {
        Some(KeycodeView::TRANSPARENT)
    } else if t == "KC_A"@ {
        Some(KeycodeView::KC_A)
    } else if t == "KC_B"@ {
        Some(KeycodeView::KC_B)
    } else if t == "KC_C"@ {
        Some(KeycodeView::KC_C)
    } else if t == "KC_D"@ {
        Some(KeycodeView::KC_D)
    } else if t == "KC_E"@ {
        Some(KeycodeView::KC_E)
    } else if t == "KC_F"@ {
        Some(KeycodeView::KC_F)
    } else if t == "KC_G"@ {
        Some(KeycodeView::KC_G)
    } else if t == "KC_H"@ {
        Some(KeycodeView::KC_H)
    } else if t == "KC_I"@ {
        Some(KeycodeView::KC_I)
    } else if t == "KC_J"@ {
        Some(KeycodeView::KC_J)
    } else if t == "KC_K"@ {
        Some(KeycodeView::KC_K)
    } else if t == "KC_L"@ {
        Some(KeycodeView::KC_L)
    } else if t == "KC_M"@ {
        Some(KeycodeView::KC_M)
    } else if t == "KC_N"@ {
        Some(KeycodeView::KC_N)
    } else if t == "KC_O"@ {
        Some(KeycodeView::KC_O)
    } else if t == "KC_P"@ {
        Some(KeycodeView::KC_P)
    } else if t == "KC_Q"@ {
        Some(KeycodeView::KC_Q)
    } else if t == "KC_R"@ {
        Some(KeycodeView::KC_R)
    } else if t == "KC_S"@ {
        Some(KeycodeView::KC_S)
    } else if t == "KC_T"@ {
        Some(KeycodeView::KC_T)
    } else if t == "KC_U"@ {
        Some(KeycodeView::KC_U)
    } else if t == "KC_V"@ {
        Some(KeycodeView::KC_V)
    } else if t == "KC_W"@ {
        Some(KeycodeView::KC_W)
    } else if t == "KC_X"@ {
        Some(KeycodeView::KC_X)
    } else if t == "KC_Y"@ {
        Some(KeycodeView::KC_Y)
    } else if t == "KC_Z"@ {
        Some(KeycodeView::KC_Z)
    } else if t == "KC_0"@ {
        Some(KeycodeView::KC_0)
    } else if t == "KC_1"@ {
        Some(KeycodeView::KC_1)
    } else if t == "KC_2"@ {
        Some(KeycodeView::KC_2)
    } else if t == "KC_3"@ {
        Some(KeycodeView::KC_3)
    } else if t == "KC_4"@ {
        Some(KeycodeView::KC_4)
    } else if t == "KC_5"@ {
        Some(KeycodeView::KC_5)
    } else if t == "KC_6"@ {
        Some(KeycodeView::KC_6)
    } else if t == "KC_7"@ {
        Some(KeycodeView::KC_7)
    } else if t == "KC_8"@ {
        Some(KeycodeView::KC_8)
    } else if t == "KC_9"@ {
        Some(KeycodeView::KC_9)
    } else if t == "KC_F1"@ {
        Some(KeycodeView::KC_F1)
    } else if t == "KC_F2"@ {
        Some(KeycodeView::KC_F2)
    } else if t == "KC_F3"@ {
        Some(KeycodeView::KC_F3)
    } else if t == "KC_F4"@ {
        Some(KeycodeView::KC_F4)
    } else if t == "KC_F5"@ {
        Some(KeycodeView::KC_F5)
    } else if t == "KC_F6"@ {
        Some(KeycodeView::KC_F6)
    } else if t == "KC_F7"@ {
        Some(KeycodeView::KC_F7)
    } else if t == "KC_F8"@ {
        Some(KeycodeView::KC_F8)
    } else if t == "KC_F9"@ {
        Some(KeycodeView::KC_F9)
    } else if t == "KC_F10"@ {
        Some(KeycodeView::KC_F10)
    } else if t == "KC_KB_VOLUME_UP"@ {
        Some(KeycodeView::KC_KB_VOLUME_UP)
    } else if t == "KC_KB_VOLUME_DOWN"@ {
        Some(KeycodeView::KC_KB_VOLUME_DOWN)
    } else if t == "KC_KB_MUTE"@ {
        Some(KeycodeView::KC_KB_MUTE)
    } else if t == "KC_MPLY"@ {
        Some(KeycodeView::KC_MEDIA_PLAY)
    } else if t == "KC_MPRV"@ {
        Some(KeycodeView::KC_MEDIA_PREV)
    } else if t == "KC_MNXT"@ {
        Some(KeycodeView::KC_MEDIA_NEXT)
    } else if t == "KC_MINUS"@ {
        Some(KeycodeView::KC_MINUS)
    } else if t == "KC_GRV"@ {
        Some(KeycodeView::KC_GRV)
    } else if t == "KC_QUOT"@ {
        Some(KeycodeView::KC_QUOT)
    } else if t == "KC_BSLS"@ {
        Some(KeycodeView::KC_BSLS)
    } else if t == "KC_LBRC"@ {
        Some(KeycodeView::KC_LBRC)
    } else if t == "KC_RBRC"@ {
        Some(KeycodeView::KC_RBRC)
    } else if t == "KC_EQUAL"@ {
        Some(KeycodeView::KC_EQUAL)
    } else if t == "KC_COMM"@ {
        Some(KeycodeView::KC_COMM)
    } else if t == "KC_DOT"@ {
        Some(KeycodeView::KC_DOT)
    } else if t == "KC_SLASH"@ {
        Some(KeycodeView::KC_SLASH)
    } else if t == "MOD_LCTL"@ {
        Some(KeycodeView::MOD_LCTL)
    } else if t == "KC_BSPC"@ {
        Some(KeycodeView::KC_BSPC)
    } else if t == "KC_LGUI"@ {
        Some(KeycodeView::KC_LGUI)
    } else if t == "KC_SPACE"@ {
        Some(KeycodeView::KC_SPACE)
    } else if t == "MOD_LALT"@ {
        Some(KeycodeView::MOD_LALT)
    } else if t == "KC_TAB"@ {
        Some(KeycodeView::KC_TAB)
    } else if t == "KC_PGUP"@ {
        Some(KeycodeView::KC_PGUP)
    } else if t == "KC_PGDN"@ {
        Some(KeycodeView::KC_PGDN)
    } else if t == "KC_HOME"@ {
        Some(KeycodeView::KC_HOME)
    } else if t == "KC_END"@ {
        Some(KeycodeView::KC_END)
    } else if t == "KC_ENT"@ {
        Some(KeycodeView::KC_ENT)
    } else if t == "KC_ESC"@ {
        Some(KeycodeView::KC_ESC)
    } else if t == "KC_PSCR"@ {
        Some(KeycodeView::KC_PSCR)
    } else {
        None
    }
}

/// `t` ends with a closing parenthesis.
pub open spec fn last_is_close(t: Seq<char>) -> bool {
    t.len() > 0 && t[t.len() - 1] == ')'
}

/// The resolution grammar for one key expression: an exact literal match
/// against the catalog, or one of the composite forms, resolved
/// recursively.  Anything else is an unknown token.
pub open spec fn resolve_token(t: Seq<char>) -> Result<KeycodeView, ParseErrorView>
    decreases t.len(),
    via resolve_token_decreases
{
    match simple_keycode(t) {
        Some(k) => Ok(k),
        None => {
            if has_prefix(t, "S("@) && last_is_close(t) && t.len() >= 3 {
                match resolve_token(t.subrange(2, t.len() - 1)) {
                    Ok(inner) => Ok(KeycodeView::S(Box::new(inner))),
                    Err(e) => Err(e),
                }
            } else if has_prefix(t, "MO("@) && last_is_close(t) && t.len() >= 4 {
                Ok(KeycodeView::MO(t.subrange(3, t.len() - 1)))
            } else if has_prefix(t, "MT("@) && last_is_close(t) && t.len() >= 4 {
                let parts = split_commas(t.subrange(3, t.len() - 1));
                if parts.len() != 2 {
                    Err(ParseErrorView::InvalidCompositeArity)
                } else {
                    match resolve_token(parts[0]) {
                        Err(e) => Err(e),
                        Ok(hold) => match resolve_token(parts[1]) {
                            Err(e) => Err(e),
                            Ok(tap) => Ok(KeycodeView::MT(Box::new(hold), Box::new(tap))),
                        },
                    }
                }
            } else if has_prefix(t, "LT("@) && last_is_close(t) && t.len() >= 4 {
                let parts = split_commas(t.subrange(3, t.len() - 1));
                if parts.len() != 2 {
                    Err(ParseErrorView::InvalidCompositeArity)
                } else {
                    match resolve_token(parts[1]) {
                        Err(e) => Err(e),
                        Ok(tap) => Ok(KeycodeView::LT(parts[0], Box::new(tap))),
                    }
                }
            } else {
                Err(ParseErrorView::UnknownKeyToken(t))
            }
        }
    }
}

#[via_fn]
proof fn resolve_token_decreases(t: Seq<char>) {
    if simple_keycode(t) is None {
        if has_prefix(t, "S("@) && last_is_close(t) && t.len() >= 3 {
        } else if has_prefix(t, "MO("@) && last_is_close(t) && t.len() >= 4 {
        } else if has_prefix(t, "MT("@) && last_is_close(t) && t.len() >= 4 {
            lemma_split_commas_pieces(t.subrange(3, t.len() - 1));
        } else if has_prefix(t, "LT("@) && last_is_close(t) && t.len() >= 4 {
            lemma_split_commas_pieces(t.subrange(3, t.len() - 1));
        }
    }
}

/// The plain variant a token resolves to, if any: the executable catalog
/// lookup.
fn simple_lookup(t: &[char]) -> (r: Option<Keycode>)
    ensures
        match r {
            Some(k) => simple_keycode(t@) == Some(k.deep_view()),
            None => simple_keycode(t@) is None,
        },
{
    if is_tok(t, "KC_NO") {
        return Some(Keycode::NONE);
    }
    if is_tok(t, "KC_TRNS") {
        return Some(Keycode::TRANSPARENT);
    }
    if is_tok(t, "KC_A") {
        return Some(Keycode::KC_A);
    }
    if is_tok(t, "KC_B") {
        return Some(Keycode::KC_B);
    }
    if is_tok(t, "KC_C") {
        return Some(Keycode::KC_C);
    }
    if is_tok(t, "KC_D") {
        return Some(Keycode::KC_D);
    }
    if is_tok(t, "KC_E") {
        return Some(Keycode::KC_E);
    }
    if is_tok(t, "KC_F") {
        return Some(Keycode::KC_F);
    }
    if is_tok(t, "KC_G") {
        return Some(Keycode::KC_G);
    }
    if is_tok(t, "KC_H") {
        return Some(Keycode::KC_H);
    }
    if is_tok(t, "KC_I") {
        return Some(Keycode::KC_I);
    }
    if is_tok(t, "KC_J") {
        return Some(Keycode::KC_J);
    }
    if is_tok(t, "KC_K") {
        return Some(Keycode::KC_K);
    }
    if is_tok(t, "KC_L") {
        return Some(Keycode::KC_L);
    }
    if is_tok(t, "KC_M") {
        return Some(Keycode::KC_M);
    }
    if is_tok(t, "KC_N") {
        return Some(Keycode::KC_N);
    }
    if is_tok(t, "KC_O") {
        return Some(Keycode::KC_O);
    }
    if is_tok(t, "KC_P") {
        return Some(Keycode::KC_P);
    }
    if is_tok(t, "KC_Q") {
        return Some(Keycode::KC_Q);
    }
    if is_tok(t, "KC_R") {
        return Some(Keycode::KC_R);
    }
    if is_tok(t, "KC_S") {
        return Some(Keycode::KC_S);
    }
    if is_tok(t, "KC_T") {
        return Some(Keycode::KC_T);
    }
    if is_tok(t, "KC_U") {
        return Some(Keycode::KC_U);
    }
    if is_tok(t, "KC_V") {
        return Some(Keycode::KC_V);
    }
    if is_tok(t, "KC_W") {
        return Some(Keycode::KC_W);
    }
    if is_tok(t, "KC_X") {
        return Some(Keycode::KC_X);
    }
    if is_tok(t, "KC_Y") {
        return Some(Keycode::KC_Y);
    }
    if is_tok(t, "KC_Z") {
        return Some(Keycode::KC_Z);
    }
    if is_tok(t, "KC_0") {
        return Some(Keycode::KC_0);
    }
    if is_tok(t, "KC_1") {
        return Some(Keycode::KC_1);
    }
    if is_tok(t, "KC_2") {
        return Some(Keycode::KC_2);
    }
    if is_tok(t, "KC_3") {
        return Some(Keycode::KC_3);
    }
    if is_tok(t, "KC_4") {
        return Some(Keycode::KC_4);
    }
    if is_tok(t, "KC_5") {
        return Some(Keycode::KC_5);
    }
    if is_tok(t, "KC_6") {
        return Some(Keycode::KC_6);
    }
    if is_tok(t, "KC_7") {
        return Some(Keycode::KC_7);
    }
    if is_tok(t, "KC_8") {
        return Some(Keycode::KC_8);
    }
    if is_tok(t, "KC_9") {
        return Some(Keycode::KC_9);
    }
    if is_tok(t, "KC_F1") {
        return Some(Keycode::KC_F1);
    }
    if is_tok(t, "KC_F2") {
        return Some(Keycode::KC_F2);
    }
    if is_tok(t, "KC_F3") {
        return Some(Keycode::KC_F3);
    }
    if is_tok(t, "KC_F4") {
        return Some(Keycode::KC_F4);
    }
    if is_tok(t, "KC_F5") {
        return Some(Keycode::KC_F5);
    }
    if is_tok(t, "KC_F6") {
        return Some(Keycode::KC_F6);
    }
    if is_tok(t, "KC_F7") {
        return Some(Keycode::KC_F7);
    }
    if is_tok(t, "KC_F8") {
        return Some(Keycode::KC_F8);
    }
    if is_tok(t, "KC_F9") {
        return Some(Keycode::KC_F9);
    }
    if is_tok(t, "KC_F10") {
        return Some(Keycode::KC_F10);
    }
    if is_tok(t, "KC_KB_VOLUME_UP") {
        return Some(Keycode::KC_KB_VOLUME_UP);
    }
    if is_tok(t, "KC_KB_VOLUME_DOWN") {
        return Some(Keycode::KC_KB_VOLUME_DOWN);
    }
    if is_tok(t, "KC_KB_MUTE") {
        return Some(Keycode::KC_KB_MUTE);
    }
    if is_tok(t, "KC_MPLY") {
        return Some(Keycode::KC_MEDIA_PLAY);
    }
    if is_tok(t, "KC_MPRV") {
        return Some(Keycode::KC_MEDIA_PREV);
    }
    if is_tok(t, "KC_MNXT") {
        return Some(Keycode::KC_MEDIA_NEXT);
    }
    if is_tok(t, "KC_MINUS") {
        return Some(Keycode::KC_MINUS);
    }
    if is_tok(t, "KC_GRV") {
        return Some(Keycode::KC_GRV);
    }
    if is_tok(t, "KC_QUOT") {
        return Some(Keycode::KC_QUOT);
    }
    if is_tok(t, "KC_BSLS") {
        return Some(Keycode::KC_BSLS);
    }
    if is_tok(t, "KC_LBRC") {
        return Some(Keycode::KC_LBRC);
    }
    if is_tok(t, "KC_RBRC") {
        return Some(Keycode::KC_RBRC);
    }
    if is_tok(t, "KC_EQUAL") {
        return Some(Keycode::KC_EQUAL);
    }
    if is_tok(t, "KC_COMM") {
        return Some(Keycode::KC_COMM);
    }
    if is_tok(t, "KC_DOT") {
        return Some(Keycode::KC_DOT);
    }
    if is_tok(t, "KC_SLASH") {
        return Some(Keycode::KC_SLASH);
    }
    if is_tok(t, "MOD_LCTL") {
        return Some(Keycode::MOD_LCTL);
    }
    if is_tok(t, "KC_BSPC") {
        return Some(Keycode::KC_BSPC);
    }
    if is_tok(t, "KC_LGUI") {
        return Some(Keycode::KC_LGUI);
    }
    if is_tok(t, "KC_SPACE") {
        return Some(Keycode::KC_SPACE);
    }
    if is_tok(t, "MOD_LALT") {
        return Some(Keycode::MOD_LALT);
    }
    if is_tok(t, "KC_TAB") {
        return Some(Keycode::KC_TAB);
    }
    if is_tok(t, "KC_PGUP") {
        return Some(Keycode::KC_PGUP);
    }
    if is_tok(t, "KC_PGDN") {
        return Some(Keycode::KC_PGDN);
    }
    if is_tok(t, "KC_HOME") {
        return Some(Keycode::KC_HOME);
    }
    if is_tok(t, "KC_END") {
        return Some(Keycode::KC_END);
    }
    if is_tok(t, "KC_ENT") {
        return Some(Keycode::KC_ENT);
    }
    if is_tok(t, "KC_ESC") {
        return Some(Keycode::KC_ESC);
    }
    if is_tok(t, "KC_PSCR") {
        return Some(Keycode::KC_PSCR);
    }
    None
}

impl Keycode {
    /// Resolves one trimmed key expression into its typed key action, or
    /// the exact failure the resolution grammar assigns to it.
    pub fn parse_str(key: &str) -> (r: Result<Keycode, ParseError>)
        ensures
            match r {
                Ok(k) => resolve_token(key@) == Ok::<KeycodeView, ParseErrorView>(k.deep_view()),
                Err(e) => resolve_token(key@) == Err::<KeycodeView, ParseErrorView>(e.deep_view()),
            },
    {
        let chars = str_chars(key);
        Self::parse_token(chars.as_slice())
    }

    /// Resolves one key expression given as its characters.
    pub fn parse_token(t: &[char]) -> (r: Result<Keycode, ParseError>)
        ensures
            match r {
                Ok(k) => resolve_token(t@) == Ok::<KeycodeView, ParseErrorView>(k.deep_view()),
                Err(e) => resolve_token(t@) == Err::<KeycodeView, ParseErrorView>(e.deep_view()),
            },
        decreases t@.len(),
    {
        if let Some(k) = simple_lookup(t) {
            return Ok(k);
        }
        let tlen = t.len();
        let s_open = str_chars("S(");
        let mo_open = str_chars("MO(");
        let mt_open = str_chars("MT(");
        let lt_open = str_chars("LT(");
        let closes = tlen >= 1 && t[tlen - 1] == ')';
        if starts_with(t, s_open.as_slice()) && closes && tlen >= 3 {
            let inner = subvec(t, 2, tlen - 1);
            return match Self::parse_token(inner.as_slice()) {
                Ok(k) => Ok(Keycode::S(Box::new(k))),
                Err(e) => Err(e),
            };
        }
        if starts_with(t, mo_open.as_slice()) && closes && tlen >= 4 {
            let name = subvec(t, 3, tlen - 1);
            return Ok(Keycode::MO(chars_to_string(&name)));
        }
        if starts_with(t, mt_open.as_slice()) && closes && tlen >= 4 {
            let inner = subvec(t, 3, tlen - 1);
            let parts = split_commas_exec(inner.as_slice());
            if parts.len() != 2 {
                return Err(ParseError::InvalidCompositeArity);
            }
            proof {
                lemma_split_commas_pieces(inner@);
            }
            let hold = match Self::parse_token(parts[0].as_slice()) {
                Ok(k) => k,
                Err(e) => return Err(e),
            };
            let tap = match Self::parse_token(parts[1].as_slice()) {
                Ok(k) => k,
                Err(e) => return Err(e),
            };
            return Ok(Keycode::MT(Box::new(hold), Box::new(tap)));
        }
        if starts_with(t, lt_open.as_slice()) && closes && tlen >= 4 {
            let inner = subvec(t, 3, tlen - 1);
            let parts = split_commas_exec(inner.as_slice());
            if parts.len() != 2 {
                return Err(ParseError::InvalidCompositeArity);
            }
            proof {
                lemma_split_commas_pieces(inner@);
            }
            let tap = match Self::parse_token(parts[1].as_slice()) {
                Ok(k) => k,
                Err(e) => return Err(e),
            };
            return Ok(Keycode::LT(chars_to_string(&parts[0]), Box::new(tap)));
        }
        let full = subvec(t, 0, tlen);
        proof {
            assert(full@ =~= t@);
        }
        Err(ParseError::UnknownKeyToken(chars_to_string(&full)))
    }
}

} // verus!
