use keyboard_visualizer::error::ParseError;
use keyboard_visualizer::keycode::Keycode;
use keyboard_visualizer::layout::{parse_c_source, resolve_token_stream, Layer};
use keyboard_visualizer::parser::{extract_invocations, extract_layer_names, strip_block_comments};

const MARKER: &str = "const uint16_t PROGMEM keymaps[][MATRIX_ROWS][MATRIX_COLS] = {";

fn chars(s: &str) -> Vec<char> {
    s.chars().collect()
}

#[test]
fn resolves_simple_key() {
    assert_eq!(Keycode::parse_str("KC_A"), Ok(Keycode::KC_A));
    assert_eq!(Keycode::parse_str("KC_F10"), Ok(Keycode::KC_F10));
    assert_eq!(Keycode::parse_str("KC_NO"), Ok(Keycode::NONE));
    assert_eq!(Keycode::parse_str("KC_TRNS"), Ok(Keycode::TRANSPARENT));
}

#[test]
fn resolves_shifted_key() {
    assert_eq!(
        Keycode::parse_str("S(KC_A)"),
        Ok(Keycode::S(Box::new(Keycode::KC_A)))
    );
    assert_eq!(
        Keycode::parse_str("S(KC_1)"),
        Ok(Keycode::S(Box::new(Keycode::KC_1)))
    );
}

#[test]
fn resolves_momentary_layer() {
    assert_eq!(
        Keycode::parse_str("MO(_NUMBERS)"),
        Ok(Keycode::MO("_NUMBERS".to_string()))
    );
}

#[test]
fn resolves_mod_tap_composite() {
    assert_eq!(
        Keycode::parse_str("MT(MOD_LCTL,KC_A)"),
        Ok(Keycode::MT(
            Box::new(Keycode::MOD_LCTL),
            Box::new(Keycode::KC_A)
        ))
    );
}

#[test]
fn resolves_layer_tap_composite() {
    assert_eq!(
        Keycode::parse_str("LT(_SYMBOLS,KC_SPACE)"),
        Ok(Keycode::LT(
            "_SYMBOLS".to_string(),
            Box::new(Keycode::KC_SPACE)
        ))
    );
}

#[test]
fn single_argument_composite_fails_with_arity() {
    assert_eq!(
        Keycode::parse_str("MT(MOD_LCTL)"),
        Err(ParseError::InvalidCompositeArity)
    );
    assert_eq!(
        Keycode::parse_str("LT(_NUMBERS)"),
        Err(ParseError::InvalidCompositeArity)
    );
    assert_eq!(
        Keycode::parse_str("MT(MOD_LCTL,KC_A,KC_B)"),
        Err(ParseError::InvalidCompositeArity)
    );
}

#[test]
fn unknown_token_fails_with_token() {
    assert_eq!(
        Keycode::parse_str("KC_BOGUS"),
        Err(ParseError::UnknownKeyToken("KC_BOGUS".to_string()))
    );
}

#[test]
fn dangling_composite_opener_fails() {
    let toks = vec![chars("KC_A"), chars("MT(MOD_LCTL")];
    assert_eq!(
        resolve_token_stream(&toks),
        Err(ParseError::UnmatchedCompositeCall)
    );
}

#[test]
fn fragmented_composite_is_merged() {
    let toks = vec![chars("MT(MOD_LCTL"), chars("KC_A)"), chars("KC_B")];
    assert_eq!(
        resolve_token_stream(&toks),
        Ok(vec![
            Keycode::MT(Box::new(Keycode::MOD_LCTL), Box::new(Keycode::KC_A)),
            Keycode::KC_B,
        ])
    );
}

#[test]
fn nested_invocation_is_one_balanced_body() {
    let body = chars("xx LAYOUT_40_macro(FOO(BAR(1,2),3)) yy");
    let got = extract_invocations(&body).unwrap();
    assert_eq!(got, vec![chars("FOO(BAR(1,2),3)")]);
}

#[test]
fn unmatched_open_parenthesis_fails() {
    let body = chars("LAYOUT_40_macro(FOO(");
    assert_eq!(
        extract_invocations(&body),
        Err(ParseError::UnmatchedParentheses)
    );
}

#[test]
fn layer_names_are_collected_in_order() {
    let body = chars("[_BASE] = x, [ _NUMBERS ] = y");
    assert_eq!(
        extract_layer_names(&body),
        vec!["_BASE".to_string(), "_NUMBERS".to_string()]
    );
}

#[test]
fn block_comments_are_removed() {
    let body = chars("aa /* layer 2 */ bb /* c */ cc");
    let got: String = strip_block_comments(&body).into_iter().collect();
    assert_eq!(got, "aa  bb  cc");
}

#[test]
fn unterminated_comment_is_left_in_place() {
    let body = chars("aa /* bb");
    let got: String = strip_block_comments(&body).into_iter().collect();
    assert_eq!(got, "aa /* bb");
}

#[test]
fn comment_between_invocations_does_not_shift_bodies() {
    let source = format!(
        "{}\n[_A] = LAYOUT_40_macro(KC_A)/* layer 2 */,\n[_B] = LAYOUT_40_macro(KC_B)\n}};",
        MARKER
    );
    let layers = parse_c_source(&source).unwrap();
    assert_eq!(layers.len(), 2);
    assert_eq!(layers[0].keys, vec![Keycode::KC_A]);
    assert_eq!(layers[1].keys, vec![Keycode::KC_B]);
}

#[test]
fn end_to_end_single_layer() {
    let source = format!(
        "{} [_BASE] = LAYOUT_40_macro(KC_A, KC_B, MT(MOD_LCTL,KC_C), MO(_NUMBERS)) }};",
        MARKER
    );
    let layers = parse_c_source(&source).unwrap();
    assert_eq!(
        layers,
        vec![Layer {
            name: "_BASE".to_string(),
            keys: vec![
                Keycode::KC_A,
                Keycode::KC_B,
                Keycode::MT(Box::new(Keycode::MOD_LCTL), Box::new(Keycode::KC_C)),
                Keycode::MO("_NUMBERS".to_string()),
            ],
        }]
    );
}

#[test]
fn layer_count_matches_name_and_invocation_count() {
    let source = format!(
        "{} [_BASE] = LAYOUT_40_macro(KC_A), [_FN] = LAYOUT_40_macro(KC_TRNS) }};",
        MARKER
    );
    let layers = parse_c_source(&source).unwrap();
    assert_eq!(layers.len(), 2);
    assert_eq!(layers[0].name, "_BASE");
    assert_eq!(layers[1].name, "_FN");
    assert_eq!(layers[0].keys.len(), 1);
    assert_eq!(layers[1].keys.len(), 1);
}

#[test]
fn missing_marker_fails() {
    let source = "int main() { return 0; }";
    assert_eq!(parse_c_source(source), Err(ParseError::MarkerNotFound));
}

#[test]
fn unterminated_declaration_fails() {
    let source = format!("{} [_BASE] = LAYOUT_40_macro(KC_A)", MARKER);
    assert_eq!(
        parse_c_source(&source),
        Err(ParseError::UnterminatedDeclaration)
    );
}

#[test]
fn name_invocation_count_mismatch_fails() {
    let source = format!(
        "{} [_BASE] = LAYOUT_40_macro(KC_A), [_EXTRA] }};",
        MARKER
    );
    assert_eq!(
        parse_c_source(&source),
        Err(ParseError::LayerCountMismatch)
    );
}

#[test]
fn newlines_inside_declaration_are_tolerated() {
    let source = format!(
        "{}\n[_BASE] = LAYOUT_40_macro(\nKC_A,\nKC_B\n)\n}};",
        MARKER
    );
    let layers = parse_c_source(&source).unwrap();
    assert_eq!(layers[0].keys, vec![Keycode::KC_A, Keycode::KC_B]);
}
