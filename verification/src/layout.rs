//! The top of the pipeline: tokenizing each raw invocation body,
//! merging fragmented two-argument composite calls, resolving every key
//! expression, and assembling the ordered list of named [`Layer`]
//! records that the whole parse produces.

use vstd::prelude::*;

use crate::error::{ParseError, ParseErrorView};
use crate::keycode::{resolve_token, Keycode, KeycodeView};
use crate::parser::{declaration_body, extract_invocations, extract_layer_names, invocations_from,
    layer_names};
use crate::text::{concat_chars, find_char, find_char_from, has_prefix, split_commas,
    split_commas_exec, starts_with, str_chars, subvec};

verus! {

/// One named layer: an ordered sequence of key actions, one per physical
/// key position, index-aligned with an externally supplied key-position
/// list.
#[derive(Debug, PartialEq, Eq)]
pub struct Layer {
    pub name: String,
    pub keys: Vec<Keycode>,
}

/// The mathematical model of [`Layer`].
pub struct LayerView {
    pub name: Seq<char>,
    pub keys: Seq<KeycodeView>,
}

impl DeepView for Layer {
    type V = LayerView;

    open spec fn deep_view(&self) -> LayerView {
        LayerView { name: self.name@, keys: self.keys.deep_view() }
    }
}

/// A token that opens a two-argument composite call which the naive
/// comma split has fragmented: it begins with `MT(` or `LT(` and holds
/// no closing parenthesis, so its second argument sits in the following
/// token.
pub open spec fn is_composite_opener(t: Seq<char>) -> bool {
    (has_prefix(t, "MT("@) || has_prefix(t, "LT("@)) && find_char_from(t, ')', 0) is None
}

/// The resolution of a layer's token stream, in order: a fragmented
/// composite opener is first rejoined (with a comma) with exactly the
/// next token; a composite opener with no following token is a failure.
pub open spec fn resolve_tokens(toks: Seq<Seq<char>>) -> Result<Seq<KeycodeView>, ParseErrorView>
    decreases toks.len(),
{
    if toks.len() == 0 {
        Ok(seq![])
    } else if is_composite_opener(toks[0]) {
        if toks.len() < 2 {
            Err(ParseErrorView::UnmatchedCompositeCall)
        } else {
            match resolve_token(toks[0] + seq![','] + toks[1]) {
                Err(e) => Err(e),
                Ok(k) => match resolve_tokens(toks.skip(2)) {
                    Err(e) => Err(e),
                    Ok(rest) => Ok(seq![k] + rest),
                },
            }
        }
    } else {
        match resolve_token(toks[0]) {
            Err(e) => Err(e),
            Ok(k) => match resolve_tokens(toks.skip(1)) {
                Err(e) => Err(e),
                Ok(rest) => Ok(seq![k] + rest),
            },
        }
    }
}

/// The layers assembled from equally many names and raw invocation
/// bodies, each body split on commas and resolved.
pub open spec fn resolve_layers(names: Seq<Seq<char>>, bodies: Seq<Seq<char>>) -> Result<
    Seq<LayerView>,
    ParseErrorView,
>
    recommends
        names.len() == bodies.len(),
    decreases bodies.len(),
{
    if bodies.len() == 0 {
        Ok(seq![])
    } else {
        match resolve_tokens(split_commas(bodies[0])) {
            Err(e) => Err(e),
            Ok(keys) => match resolve_layers(names.skip(1), bodies.skip(1)) {
                Err(e) => Err(e),
                Ok(rest) => Ok(seq![LayerView { name: names[0], keys }] + rest),
            },
        }
    }
}

/// What parsing a whole firmware source yields: the declaration body is
/// located and comment-stripped, its layer names and invocation bodies
/// are collected, their counts must agree, and every invocation body is
/// resolved into one layer.
pub open spec fn parse_spec(src: Seq<char>) -> Result<Seq<LayerView>, ParseErrorView> {
    match declaration_body(src) {
        Err(e) => Err(e),
        Ok(body) => {
            let names = layer_names(body);
            match invocations_from(body, 0) {
                Err(e) => Err(e),
                Ok(bodies) => if names.len() != bodies.len() {
                    Err(ParseErrorView::LayerCountMismatch)
                } else {
                    resolve_layers(names, bodies)
                },
            }
        },
    }
}

/// Every successful resolution yields one layer per invocation body,
/// each keeping its name and the resolution of its own body.
pub proof fn lemma_resolve_layers_shape(
    names: Seq<Seq<char>>,
    bodies: Seq<Seq<char>>,
    layers: Seq<LayerView>,
)
    requires
        names.len() == bodies.len(),
        resolve_layers(names, bodies) == Ok::<Seq<LayerView>, ParseErrorView>(layers),
    ensures
        layers.len() == bodies.len(),
        forall|i: int| 0 <= i < layers.len() ==> (#[trigger] layers[i]).name == names[i],
        forall|i: int|
            0 <= i < layers.len() ==> resolve_tokens(split_commas(bodies[i])) == Ok::<
                Seq<KeycodeView>,
                ParseErrorView,
            >((#[trigger] layers[i]).keys),
    decreases bodies.len(),
{
    if bodies.len() > 0 {
        match resolve_tokens(split_commas(bodies[0])) {
            Err(e) => {}
            Ok(keys) => {
                match resolve_layers(names.skip(1), bodies.skip(1)) {
                    Err(e) => {}
                    Ok(rest) => {
                        lemma_resolve_layers_shape(names.skip(1), bodies.skip(1), rest);
                        assert(layers == seq![LayerView { name: names[0], keys }] + rest);
                        assert forall|i: int| 0 <= i < layers.len() implies (#[trigger] layers[i]).name
                            == names[i] && resolve_tokens(split_commas(bodies[i])) == Ok::<
                            Seq<KeycodeView>,
                            ParseErrorView,
                        >(layers[i].keys) by {
                            if i >= 1 {
                                assert(layers[i] == rest[i - 1]);
                                assert(names.skip(1)[i - 1] == names[i]);
                                assert(bodies.skip(1)[i - 1] == bodies[i]);
                            }
                        }
                    }
                }
            }
        }
    }
}

/// A successful parse yields exactly as many layers as there are
/// bracketed layer names, and as many as there are macro invocations;
/// each layer carries the name of its annotation, in source order, and
/// the resolution of its own invocation body.
pub proof fn lemma_parse_layer_counts(src: Seq<char>, layers: Seq<LayerView>)
    requires
        parse_spec(src) == Ok::<Seq<LayerView>, ParseErrorView>(layers),
    ensures
        declaration_body(src) is Ok,
        invocations_from(declaration_body(src)->Ok_0, 0) is Ok,
        layers.len() == layer_names(declaration_body(src)->Ok_0).len(),
        layers.len() == invocations_from(declaration_body(src)->Ok_0, 0)->Ok_0.len(),
        forall|i: int|
            0 <= i < layers.len() ==> (#[trigger] layers[i]).name == layer_names(
                declaration_body(src)->Ok_0,
            )[i],
        forall|i: int|
            0 <= i < layers.len() ==> resolve_tokens(
                split_commas(invocations_from(declaration_body(src)->Ok_0, 0)->Ok_0[i]),
            ) == Ok::<Seq<KeycodeView>, ParseErrorView>((#[trigger] layers[i]).keys),
{
    let body = declaration_body(src)->Ok_0;
    let names = layer_names(body);
    let bodies = invocations_from(body, 0)->Ok_0;
    lemma_resolve_layers_shape(names, bodies, layers);
}

/// Whether `t` is a fragmented composite opener.
fn is_composite_opener_exec(t: &[char]) -> (r: bool)
    ensures
        r == is_composite_opener(t@),
{
    let mt_open = str_chars("MT(");
    let lt_open = str_chars("LT(");
    if !starts_with(t, mt_open.as_slice()) && !starts_with(t, lt_open.as_slice()) {
        return false;
    }
    find_char(t, ')', 0).is_none()
}

/// The ordered key actions of one layer's token stream.
pub fn resolve_token_stream(toks: &Vec<Vec<char>>) -> (r: Result<Vec<Keycode>, ParseError>)
    ensures
        match r {
            Ok(keys) => resolve_tokens(toks.deep_view()) == Ok::<Seq<KeycodeView>, ParseErrorView>(
                keys.deep_view(),
            ),
            Err(e) => resolve_tokens(toks.deep_view()) == Err::<Seq<KeycodeView>, ParseErrorView>(
                e.deep_view(),
            ),
        },
{
    let tlen = toks.len();
    let mut keys: Vec<Keycode> = Vec::new();
    let mut idx: usize = 0;
    proof {
        assert(toks.deep_view().skip(0) =~= toks.deep_view());
        match resolve_tokens(toks.deep_view()) {
            Ok(rest) => {
                assert(keys.deep_view() + rest =~= rest);
            }
            Err(e) => {}
        }
    }
    loop
        invariant
            idx <= tlen,
            tlen == toks@.len(),
            resolve_tokens(toks.deep_view()) == (match resolve_tokens(
                toks.deep_view().skip(idx as int),
            ) {
                Ok(rest) => Ok::<Seq<KeycodeView>, ParseErrorView>(keys.deep_view() + rest),
                Err(e) => Err::<Seq<KeycodeView>, ParseErrorView>(e),
            }),
        decreases tlen - idx,
    {
        proof {
            assert(toks.deep_view().len() == tlen);
        }
        if idx == tlen {
            proof {
                assert(toks.deep_view().skip(idx as int) =~= Seq::<Seq<char>>::empty());
                assert(keys.deep_view() + Seq::<KeycodeView>::empty() =~= keys.deep_view());
            }
            return Ok(keys);
        }
        let t0 = &toks[idx];
        proof {
            assert(toks.deep_view()[idx as int] =~= t0@);
            assert(toks.deep_view().skip(idx as int)[0] == toks.deep_view()[idx as int]);
        }
        if is_composite_opener_exec(t0.as_slice()) {
            if idx + 1 == tlen {
                proof {
                    assert(toks.deep_view().skip(idx as int).len() == 1);
                }
                return Err(ParseError::UnmatchedCompositeCall);
            }
            let t1 = &toks[idx + 1];
            proof {
                assert(toks.deep_view()[idx + 1] =~= t1@);
                assert(toks.deep_view().skip(idx as int)[1] == toks.deep_view()[idx + 1]);
            }
            let mut head = subvec(t0.as_slice(), 0, t0.len());
            head.push(',');
            let merged = concat_chars(head.as_slice(), t1.as_slice());
            proof {
                assert(t0@.subrange(0, t0@.len() as int) =~= t0@);
                assert(merged@ =~= t0@ + seq![','] + t1@);
            }
            let k = match Keycode::parse_token(merged.as_slice()) {
                Ok(k) => k,
                Err(e) => {
                    return Err(e);
                }
            };
            let ghost old_deep = keys.deep_view();
            keys.push(k);
            idx = idx + 2;
            proof {
                assert(keys.deep_view() =~~= old_deep + seq![keycode_deep(&k)]);
                assert(toks.deep_view().skip(idx - 2).skip(2) =~= toks.deep_view().skip(
                    idx as int,
                ));
                match resolve_tokens(toks.deep_view().skip(idx as int)) {
                    Ok(rest) => {
                        assert(keys.deep_view() + rest =~= old_deep + (seq![keycode_deep(&k)]
                            + rest));
                    }
                    Err(e) => {}
                }
            }
        } else {
            let k = match Keycode::parse_token(t0.as_slice()) {
                Ok(k) => k,
                Err(e) => {
                    return Err(e);
                }
            };
            let ghost old_deep = keys.deep_view();
            keys.push(k);
            idx = idx + 1;
            proof {
                assert(keys.deep_view() =~~= old_deep + seq![keycode_deep(&k)]);
                assert(toks.deep_view().skip(idx - 1).skip(1) =~= toks.deep_view().skip(
                    idx as int,
                ));
                match resolve_tokens(toks.deep_view().skip(idx as int)) {
                    Ok(rest) => {
                        assert(keys.deep_view() + rest =~= old_deep + (seq![keycode_deep(&k)]
                            + rest));
                    }
                    Err(e) => {}
                }
            }
        }
    }
}

/// The model of one key action; a helper name for proofs.
pub open spec fn keycode_deep(k: &Keycode) -> KeycodeView {
    k.deep_view()
}

/// Parses a whole firmware source into its ordered, named layers, or
/// fails with the exact error the parse grammar assigns.  The source is
/// the already loaded text of the firmware file.
pub fn parse_c_source(source: &str) -> (r: Result<Vec<Layer>, ParseError>)
    ensures
        match r {
            Ok(layers) => parse_spec(source@) == Ok::<Seq<LayerView>, ParseErrorView>(
                layers.deep_view(),
            ),
            Err(e) => parse_spec(source@) == Err::<Seq<LayerView>, ParseErrorView>(e.deep_view()),
        },
{
    let chars = str_chars(source);
    let flat = crate::parser::normalize_newlines(chars.as_slice());
    let marker = str_chars("const uint16_t PROGMEM keymaps[][MATRIX_ROWS][MATRIX_COLS] = {");
    let ms = match crate::text::find_pat(flat.as_slice(), marker.as_slice(), 0) {
        None => {
            return Err(ParseError::MarkerNotFound);
        }
        Some(ms) => ms,
    };
    proof {
        crate::text::lemma_find_from_some(flat@, crate::parser::start_marker(), 0, ms as int);
    }
    let flen = flat.len();
    let after = subvec(flat.as_slice(), ms + marker.len(), flen);
    let end_pat = str_chars("};");
    let e = match crate::text::find_pat(after.as_slice(), end_pat.as_slice(), 0) {
        None => {
            return Err(ParseError::UnterminatedDeclaration);
        }
        Some(e) => e,
    };
    proof {
        crate::text::lemma_find_from_some(after@, "};"@, 0, e as int);
    }
    let body = crate::parser::strip_block_comments(subvec(after.as_slice(), 0, e).as_slice());
    let names = extract_layer_names(body.as_slice());
    let bodies = match extract_invocations(body.as_slice()) {
        Ok(bodies) => bodies,
        Err(err) => {
            return Err(err);
        }
    };
    if names.len() != bodies.len() {
        proof {
            assert(names.deep_view().len() == names@.len());
            assert(bodies.deep_view().len() == bodies@.len());
        }
        return Err(ParseError::LayerCountMismatch);
    }
    let count = bodies.len();
    let mut layers: Vec<Layer> = Vec::new();
    let mut i: usize = 0;
    proof {
        assert(names.deep_view().len() == names@.len());
        assert(bodies.deep_view().len() == bodies@.len());
        assert(names.deep_view().skip(0) =~= names.deep_view());
        assert(bodies.deep_view().skip(0) =~= bodies.deep_view());
        match resolve_layers(names.deep_view(), bodies.deep_view()) {
            Ok(rest) => {
                assert(layers.deep_view() + rest =~= rest);
            }
            Err(e) => {}
        }
    }
    loop
        invariant
            i <= count,
            count == names@.len() == bodies@.len(),
            count == names.deep_view().len() == bodies.deep_view().len(),
            resolve_layers(names.deep_view(), bodies.deep_view()) == (match resolve_layers(
                names.deep_view().skip(i as int),
                bodies.deep_view().skip(i as int),
            ) {
                Ok(rest) => Ok::<Seq<LayerView>, ParseErrorView>(layers.deep_view() + rest),
                Err(e) => Err::<Seq<LayerView>, ParseErrorView>(e),
            }),
            parse_spec(source@) == (match resolve_layers(
                names.deep_view(),
                bodies.deep_view(),
            ) {
                Ok(ls) => Ok::<Seq<LayerView>, ParseErrorView>(ls),
                Err(e) => Err::<Seq<LayerView>, ParseErrorView>(e),
            }),
        decreases count - i,
    {
        if i == count {
            proof {
                assert(names.deep_view().skip(i as int) =~= Seq::<Seq<char>>::empty());
                assert(bodies.deep_view().skip(i as int) =~= Seq::<Seq<char>>::empty());
                assert(layers.deep_view() + Seq::<LayerView>::empty() =~= layers.deep_view());
            }
            return Ok(layers);
        }
        let toks = split_commas_exec(bodies[i].as_slice());
        proof {
            assert(bodies.deep_view()[i as int] =~= bodies@[i as int]@);
            assert(bodies.deep_view().skip(i as int)[0] == bodies.deep_view()[i as int]);
            assert(names.deep_view().skip(i as int)[0] == names.deep_view()[i as int]);
        }
        let keys = match resolve_token_stream(&toks) {
            Ok(keys) => keys,
            Err(err) => {
                return Err(err);
            }
        };
        let name = names[i].clone();
        let ghost old_deep = layers.deep_view();
        let layer = Layer { name, keys };
        let ghost lv = layer.deep_view();
        layers.push(layer);
        i = i + 1;
        proof {
            assert(keys.deep_view() =~= resolve_tokens(split_commas(bodies@[i - 1]@))->Ok_0);
            assert(lv.name =~= names.deep_view()[i - 1]);
            assert(layers.deep_view() =~~= old_deep + seq![lv]);
            assert(names.deep_view().skip(i - 1).skip(1) =~= names.deep_view().skip(i as int));
            assert(bodies.deep_view().skip(i - 1).skip(1) =~= bodies.deep_view().skip(i as int));
            match resolve_layers(names.deep_view().skip(i as int), bodies.deep_view().skip(i as int)) {
                Ok(rest) => {
                    assert(layers.deep_view() + rest =~= old_deep + (seq![lv] + rest));
                    assert(seq![lv] =~= seq![
                        LayerView {
                            name: names.deep_view().skip(i - 1)[0],
                            keys: resolve_tokens(split_commas(bodies.deep_view().skip(i - 1)[0]))->Ok_0,
                        },
                    ]);
                }
                Err(e) => {}
            }
        }
    }
}

} // verus!
