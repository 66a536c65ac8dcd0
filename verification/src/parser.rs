//! The lexical scanner and layer segmenter: locating the keymap matrix
//! declaration, stripping block comments, collecting bracketed layer
//! names, and extracting one balanced-parenthesis macro-invocation body
//! per layer.
//!
//! Each stage has a spec-level definition over character sequences and an
//! executable counterpart proved to compute it.

use vstd::prelude::*;

use crate::error::{ParseError, ParseErrorView};
use crate::text::{
    chars_to_string, find_char, find_char_from, find_from, find_pat,
    lemma_find_char_from_some, lemma_find_from_some, str_chars, subvec, trim, trim_slice,
};

verus! {

/// The literal that opens the target matrix declaration.
pub open spec fn start_marker() -> Seq<char> {
    "const uint16_t PROGMEM keymaps[][MATRIX_ROWS][MATRIX_COLS] = {"@
}

/// The macro identifier, with its opening parenthesis, that begins each
/// layer's invocation.
pub open spec fn invocation_marker() -> Seq<char> {
    "LAYOUT_40_macro("@
}

/// `src` with every newline replaced by a space, so that all later
/// scanning is insensitive to original line breaks.
pub open spec fn replace_newlines(s: Seq<char>) -> Seq<char> {
    s.map_values(|c: char| if c == '\n' { ' ' } else { c })
}

/// `s` with every `/* ... */` block comment removed, repeatedly from the
/// front.  An unterminated block comment is left in place.
pub open spec fn strip_comments(s: Seq<char>) -> Seq<char>
    decreases s.len(),
    via strip_comments_decreases
{
    match find_from(s, "/*"@, 0) {
        None => s,
        Some(i) => match find_from(s, "*/"@, i) {
            None => s,
            Some(j) => strip_comments(s.subrange(0, i) + s.subrange(j + 2, s.len() as int)),
        },
    }
}

#[via_fn]
proof fn strip_comments_decreases(s: Seq<char>) {
    reveal_strlit("/*");
    reveal_strlit("*/");
    match find_from(s, "/*"@, 0) {
        None => {}
        Some(i) => {
            lemma_find_from_some(s, "/*"@, 0, i);
            match find_from(s, "*/"@, i) {
                None => {}
                Some(j) => {
                    lemma_find_from_some(s, "*/"@, i, j);
                }
            }
        }
    }
}

/// The ordered list of bracketed layer names: every `[` ... `]` span,
/// trimmed.  A `[` with no closing `]` ends the scan.
pub open spec fn layer_names(s: Seq<char>) -> Seq<Seq<char>>
    decreases s.len(),
    via layer_names_decreases
{
    match find_char_from(s, '[', 0) {
        None => seq![],
        Some(i) => match find_char_from(s, ']', i) {
            None => seq![],
            Some(j) => seq![trim(s.subrange(i + 1, j))] + layer_names(
                s.subrange(j + 1, s.len() as int),
            ),
        },
    }
}

#[via_fn]
proof fn layer_names_decreases(s: Seq<char>) {
    match find_char_from(s, '[', 0) {
        None => {}
        Some(i) => {
            lemma_find_char_from_some(s, '[', 0, i);
            match find_char_from(s, ']', i) {
                None => {}
                Some(j) => {
                    lemma_find_char_from_some(s, ']', i, j);
                }
            }
        }
    }
}

/// From position `p` inside an invocation whose nesting depth is `n`,
/// the position of the closing parenthesis that balances the invocation.
/// At each step the nearer of the next `(` and the next `)` decides:
/// an opening parenthesis deepens the nesting, a closing one shallows
/// it.  Running out of closing parentheses while an opening one remains,
/// or running out of both before balance, is a failure.
pub open spec fn scan_invocation(s: Seq<char>, p: int, n: int) -> Result<int, ParseErrorView>
    recommends
        0 <= p,
        1 <= n,
    decreases s.len() - p,
    via scan_invocation_decreases
{
    match (find_char_from(s, '(', p), find_char_from(s, ')', p)) {
        (Some(o), Some(c)) => if o < c {
            scan_invocation(s, o + 1, n + 1)
        } else {
            if n == 1 {
                Ok(c)
            } else {
                scan_invocation(s, c + 1, n - 1)
            }
        },
        (Some(o), None) => Err(ParseErrorView::UnmatchedParentheses),
        (None, Some(c)) => if n == 1 {
            Ok(c)
        } else {
            scan_invocation(s, c + 1, n - 1)
        },
        (None, None) => Err(ParseErrorView::UnmatchedParentheses),
    }
}

#[via_fn]
proof fn scan_invocation_decreases(s: Seq<char>, p: int, n: int) {
    if p >= 0 {
        match (find_char_from(s, '(', p), find_char_from(s, ')', p)) {
            (Some(o), Some(c)) => {
                lemma_find_char_from_some(s, '(', p, o);
                lemma_find_char_from_some(s, ')', p, c);
            }
            (None, Some(c)) => {
                lemma_find_char_from_some(s, ')', p, c);
            }
            _ => {}
        }
    }
}

/// A successful scan ends on a closing parenthesis at or after `p`.
pub proof fn lemma_scan_invocation_ok(s: Seq<char>, p: int, n: int, c: int)
    requires
        0 <= p,
        scan_invocation(s, p, n) == Ok::<int, ParseErrorView>(c),
    ensures
        p <= c < s.len(),
        s[c] == ')',
    decreases s.len() - p,
{
    match (find_char_from(s, '(', p), find_char_from(s, ')', p)) {
        (Some(o), Some(cc)) => {
            lemma_find_char_from_some(s, '(', p, o);
            lemma_find_char_from_some(s, ')', p, cc);
            if o < cc {
                lemma_scan_invocation_ok(s, o + 1, n + 1, c);
            } else {
                if n != 1 {
                    lemma_scan_invocation_ok(s, cc + 1, n - 1, c);
                }
            }
        }
        (None, Some(cc)) => {
            lemma_find_char_from_some(s, ')', p, cc);
            if n != 1 {
                lemma_scan_invocation_ok(s, cc + 1, n - 1, c);
            }
        }
        _ => {}
    }
}

/// The ordered list of raw invocation bodies found at or after `q`: for
/// each occurrence of the invocation marker, the trimmed span between its
/// opening parenthesis and the closing parenthesis that balances it.
pub open spec fn invocations_from(s: Seq<char>, q: int) -> Result<Seq<Seq<char>>, ParseErrorView>
    recommends
        0 <= q,
    decreases s.len() - q,
    via invocations_from_decreases
{
    match find_from(s, invocation_marker(), q) {
        None => Ok(seq![]),
        Some(st) => {
            let body = st + invocation_marker().len();
            match scan_invocation(s, body, 1) {
                Err(e) => Err(e),
                Ok(c) => match invocations_from(s, c + 1) {
                    Err(e) => Err(e),
                    Ok(rest) => Ok(seq![trim(s.subrange(body, c))] + rest),
                },
            }
        },
    }
}

#[via_fn]
proof fn invocations_from_decreases(s: Seq<char>, q: int) {
    if q >= 0 {
        match find_from(s, invocation_marker(), q) {
            None => {}
            Some(st) => {
                lemma_find_from_some(s, invocation_marker(), q, st);
                let body = st + invocation_marker().len();
                match scan_invocation(s, body, 1) {
                    Err(e) => {}
                    Ok(c) => {
                        lemma_scan_invocation_ok(s, body, 1, c);
                    }
                }
            }
        }
    }
}

/// The comment-stripped declaration body: everything after the opening
/// marker and before the first terminating `};`, newlines normalized.
pub open spec fn declaration_body(src: Seq<char>) -> Result<Seq<char>, ParseErrorView> {
    let flat = replace_newlines(src);
    match find_from(flat, start_marker(), 0) {
        None => Err(ParseErrorView::MarkerNotFound),
        Some(ms) => {
            let after = flat.subrange(ms + start_marker().len(), flat.len() as int);
            match find_from(after, "};"@, 0) {
                None => Err(ParseErrorView::UnterminatedDeclaration),
                Some(e) => Ok(strip_comments(after.subrange(0, e))),
            }
        },
    }
}

/// `src` with every newline replaced by a space.
pub fn normalize_newlines(s: &[char]) -> (r: Vec<char>)
    ensures
        r@ == replace_newlines(s@),
{
    let slen = s.len();
    let mut r: Vec<char> = Vec::new();
    let mut i: usize = 0;
    while i < slen
        invariant
            0 <= i <= slen,
            slen == s@.len(),
            r@.len() == i,
            forall|k: int|
                0 <= k < i ==> r@[k] == (if s@[k] == '\n' {
                    ' '
                } else {
                    s@[k]
                }),
        decreases slen - i,
    {
        let c = s[i];
        if c == '\n' {
            r.push(' ');
        } else {
            r.push(c);
        }
        i += 1;
    }
    proof {
        assert(r@ =~= replace_newlines(s@));
    }
    r
}

/// `s` with every block comment removed.
pub fn strip_block_comments(s: &[char]) -> (r: Vec<char>)
    ensures
        r@ == strip_comments(s@),
{
    let open_pat = str_chars("/*");
    let close_pat = str_chars("*/");
    let mut cur: Vec<char> = subvec(s, 0, s.len());
    proof {
        assert(cur@ =~= s@);
    }
    loop
        invariant
            open_pat@ == "/*"@,
            close_pat@ == "*/"@,
            strip_comments(cur@) == strip_comments(s@),
        decreases cur@.len(),
    {
        let clen = cur.len();
        match find_pat(cur.as_slice(), open_pat.as_slice(), 0) {
            None => {
                return cur;
            }
            Some(i) => {
                match find_pat(cur.as_slice(), close_pat.as_slice(), i) {
                    None => {
                        return cur;
                    }
                    Some(j) => {
                        proof {
                            reveal_strlit("/*");
                            reveal_strlit("*/");
                            lemma_find_from_some(cur@, "/*"@, 0, i as int);
                            lemma_find_from_some(cur@, "*/"@, i as int, j as int);
                        }
                        let head = subvec(cur.as_slice(), 0, i);
                        let tail = subvec(cur.as_slice(), j + 2, clen);
                        let next = crate::text::concat_chars(head.as_slice(), tail.as_slice());
                        cur = next;
                    }
                }
            }
        }
    }
}

/// The bracketed layer names of the declaration body, in order.
pub fn extract_layer_names(s: &[char]) -> (r: Vec<String>)
    ensures
        r.deep_view() == layer_names(s@),
{
    let mut names: Vec<String> = Vec::new();
    let mut cur: Vec<char> = subvec(s, 0, s.len());
    proof {
        assert(cur@ =~= s@);
        assert(names.deep_view() + layer_names(cur@) =~= layer_names(s@));
    }
    loop
        invariant
            names.deep_view() + layer_names(cur@) == layer_names(s@),
        decreases cur@.len(),
    {
        let clen = cur.len();
        match find_char(cur.as_slice(), '[', 0) {
            None => {
                proof {
                    assert(names.deep_view() =~= layer_names(s@));
                }
                return names;
            }
            Some(i) => {
                match find_char(cur.as_slice(), ']', i) {
                    None => {
                        proof {
                            assert(names.deep_view() =~= layer_names(s@));
                        }
                        return names;
                    }
                    Some(j) => {
                        proof {
                            lemma_find_char_from_some(cur@, '[', 0, i as int);
                            lemma_find_char_from_some(cur@, ']', i as int, j as int);
                        }
                        let ghost old_deep = names.deep_view();
                        let ghost old_cur = cur@;
                        let name_chars = trim_slice(subvec(cur.as_slice(), i + 1, j).as_slice());
                        names.push(chars_to_string(&name_chars));
                        let next = subvec(cur.as_slice(), j + 1, clen);
                        cur = next;
                        proof {
                            assert(names.deep_view() =~~= old_deep + seq![
                                trim(old_cur.subrange(i + 1, j as int)),
                            ]);
                            assert(names.deep_view() + layer_names(cur@) =~= layer_names(s@));
                        }
                    }
                }
            }
        }
    }
}

/// The raw invocation bodies of the declaration body, in order, or the
/// failure the balancing scan assigns.
pub fn extract_invocations(s: &[char]) -> (r: Result<Vec<Vec<char>>, ParseError>)
    ensures
        match r {
            Ok(bodies) => invocations_from(s@, 0) == Ok::<Seq<Seq<char>>, ParseErrorView>(
                bodies.deep_view(),
            ),
            Err(e) => invocations_from(s@, 0) == Err::<Seq<Seq<char>>, ParseErrorView>(
                e.deep_view(),
            ),
        },
{
    let slen = s.len();
    let marker = str_chars("LAYOUT_40_macro(");
    let mlen = marker.len();
    proof {
        reveal_strlit("LAYOUT_40_macro(");
    }
    let mut bodies: Vec<Vec<char>> = Vec::new();
    let mut q: usize = 0;
    loop
        invariant
            q <= slen,
            slen == s@.len(),
            marker@ == invocation_marker(),
            mlen == marker@.len(),
            mlen >= 2,
            invocations_from(s@, 0) == (match invocations_from(s@, q as int) {
                Ok(rest) => Ok::<Seq<Seq<char>>, ParseErrorView>(bodies.deep_view() + rest),
                Err(e) => Err::<Seq<Seq<char>>, ParseErrorView>(e),
            }),
        decreases slen - q,
    {
        match find_pat(s, marker.as_slice(), q) {
            None => {
                proof {
                    assert(bodies.deep_view() + Seq::<Seq<char>>::empty() =~= bodies.deep_view());
                }
                return Ok(bodies);
            }
            Some(st) => {
                proof {
                    lemma_find_from_some(s@, invocation_marker(), q as int, st as int);
                }
                let body_start = st + mlen;
                match scan_balance(s, body_start) {
                    Err(e) => {
                        return Err(e);
                    }
                    Ok(close) => {
                        proof {
                            lemma_scan_invocation_ok(s@, body_start as int, 1, close as int);
                        }
                        let ghost old_deep = bodies.deep_view();
                        let piece = trim_slice(subvec(s, body_start, close).as_slice());
                        bodies.push(piece);
                        q = close + 1;
                        proof {
                            let ghost pv = trim(s@.subrange(body_start as int, close as int));
                            assert(bodies.deep_view() =~~= old_deep + seq![pv]);
                            match invocations_from(s@, q as int) {
                                Ok(rest) => {
                                    assert(bodies.deep_view() + rest =~= old_deep + (seq![pv]
                                        + rest));
                                }
                                Err(e) => {}
                            }
                        }
                    }
                }
            }
        }
    }
}

/// The position of the closing parenthesis that balances an invocation
/// whose body starts at `start` (one parenthesis already open).
fn scan_balance(s: &[char], start: usize) -> (r: Result<usize, ParseError>)
    requires
        2 <= start <= s@.len(),
    ensures
        match r {
            Ok(c) => scan_invocation(s@, start as int, 1) == Ok::<int, ParseErrorView>(c as int),
            Err(e) => scan_invocation(s@, start as int, 1) == Err::<int, ParseErrorView>(
                e.deep_view(),
            ),
        },
{
    let slen = s.len();
    let mut p = start;
    let mut n: usize = 1;
    loop
        invariant
            start <= p <= slen,
            slen == s@.len(),
            start >= 2,
            1 <= n,
            n <= p - start + 1,
            scan_invocation(s@, start as int, 1) == scan_invocation(s@, p as int, n as int),
        decreases slen - p,
    {
        let no = find_char(s, '(', p);
        let nc = find_char(s, ')', p);
        match (no, nc) {
            (Some(o), Some(c)) => {
                proof {
                    lemma_find_char_from_some(s@, '(', p as int, o as int);
                    lemma_find_char_from_some(s@, ')', p as int, c as int);
                }
                if o < c {
                    n += 1;
                    p = o + 1;
                } else {
                    if n == 1 {
                        return Ok(c);
                    } else {
                        n -= 1;
                        p = c + 1;
                    }
                }
            }
            (Some(_), None) => {
                return Err(ParseError::UnmatchedParentheses);
            }
            (None, Some(c)) => {
                proof {
                    lemma_find_char_from_some(s@, ')', p as int, c as int);
                }
                if n == 1 {
                    return Ok(c);
                } else {
                    n -= 1;
                    p = c + 1;
                }
            }
            (None, None) => {
                return Err(ParseError::UnmatchedParentheses);
            }
        }
    }
}

} // verus!
