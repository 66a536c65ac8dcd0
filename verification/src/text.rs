//! Character-sequence utilities shared by the scanner, segmenter and
//! resolver: substring search, trimming, splitting on commas, and the
//! spec-level definitions they are proved against.

use vstd::prelude::*;

verus! {

/// ASCII whitespace; the trimming done throughout the parser recognises
/// exactly this set.
pub open spec fn is_space(c: char) -> bool {
    c == ' ' || c == '\t' || c == '\n' || c == '\r' || c == '\u{b}' || c == '\u{c}'
}

/// `pat` occurs in `s` starting at position `i`.
pub open spec fn match_at(s: Seq<char>, pat: Seq<char>, i: int) -> bool {
    0 <= i && i + pat.len() <= s.len() && s.subrange(i, i + pat.len()) == pat
}

/// Position of the first occurrence of `pat` in `s` at or after `i`.
pub open spec fn find_from(s: Seq<char>, pat: Seq<char>, i: int) -> Option<int>
    recommends
        0 <= i,
    decreases s.len() - i,
{
    if i < 0 || i + pat.len() > s.len() {
        None
    } else if pat.len() == 0 {
        Some(i)
    } else if match_at(s, pat, i) {
        Some(i)
    } else {
        find_from(s, pat, i + 1)
    }
}

/// Position of the first occurrence of the character `c` in `s` at or
/// after `i`.
pub open spec fn find_char_from(s: Seq<char>, c: char, i: int) -> Option<int>
    recommends
        0 <= i,
    decreases s.len() - i,
{
    if i < 0 || i >= s.len() {
        None
    } else if s[i] == c {
        Some(i)
    } else {
        find_char_from(s, c, i + 1)
    }
}

/// A successful pattern search yields a match inside the bounds of `s`.
pub proof fn lemma_find_from_some(s: Seq<char>, pat: Seq<char>, i: int, j: int)
    requires
        0 <= i,
        find_from(s, pat, i) == Some(j),
    ensures
        i <= j,
        j + pat.len() <= s.len(),
        pat.len() > 0 ==> match_at(s, pat, j),
    decreases s.len() - i,
{
    if i + pat.len() > s.len() {
    } else if pat.len() == 0 {
    } else if match_at(s, pat, i) {
    } else {
        lemma_find_from_some(s, pat, i + 1, j);
    }
}

/// A successful character search yields that character inside `s`.
pub proof fn lemma_find_char_from_some(s: Seq<char>, c: char, i: int, j: int)
    requires
        0 <= i,
        find_char_from(s, c, i) == Some(j),
    ensures
        i <= j < s.len(),
        s[j] == c,
    decreases s.len() - i,
{
    if i >= s.len() {
    } else if s[i] == c {
    } else {
        lemma_find_char_from_some(s, c, i + 1, j);
    }
}

/// `s` with leading whitespace removed.
pub open spec fn trim_front(s: Seq<char>) -> Seq<char>
    decreases s.len(),
{
    if s.len() > 0 && is_space(s[0]) {
        trim_front(s.subrange(1, s.len() as int))
    } else {
        s
    }
}

/// `s` with trailing whitespace removed.
pub open spec fn trim_back(s: Seq<char>) -> Seq<char>
    decreases s.len(),
{
    if s.len() > 0 && is_space(s[s.len() - 1]) {
        trim_back(s.subrange(0, s.len() - 1))
    } else {
        s
    }
}

/// `s` with leading and trailing whitespace removed.
pub open spec fn trim(s: Seq<char>) -> Seq<char> {
    trim_back(trim_front(s))
}

pub proof fn lemma_trim_front_len(s: Seq<char>)
    ensures
        trim_front(s).len() <= s.len(),
    decreases s.len(),
{
    if s.len() > 0 && is_space(s[0]) {
        lemma_trim_front_len(s.subrange(1, s.len() as int));
    }
}

pub proof fn lemma_trim_back_len(s: Seq<char>)
    ensures
        trim_back(s).len() <= s.len(),
    decreases s.len(),
{
    if s.len() > 0 && is_space(s[s.len() - 1]) {
        lemma_trim_back_len(s.subrange(0, s.len() - 1));
    }
}

/// Trimming never lengthens a sequence.
pub proof fn lemma_trim_len(s: Seq<char>)
    ensures
        trim(s).len() <= s.len(),
{
    lemma_trim_front_len(s);
    lemma_trim_back_len(trim_front(s));
}

/// `s` split on every comma, each piece trimmed, in order.  A sequence
/// without commas yields one piece; a trailing comma yields a final empty
/// piece.
pub open spec fn split_commas(s: Seq<char>) -> Seq<Seq<char>>
    decreases s.len(),
    via split_commas_decreases
{
    match find_char_from(s, ',', 0) {
        None => seq![trim(s)],
        Some(i) => seq![trim(s.subrange(0, i))] + split_commas(
            s.subrange(i + 1, s.len() as int),
        ),
    }
}

#[via_fn]
proof fn split_commas_decreases(s: Seq<char>) {
    match find_char_from(s, ',', 0) {
        None => {}
        Some(i) => {
            lemma_find_char_from_some(s, ',', 0, i);
        }
    }
}

/// Splitting yields at least one piece, and none longer than the input.
pub proof fn lemma_split_commas_pieces(s: Seq<char>)
    ensures
        split_commas(s).len() >= 1,
        forall|k: int|
            0 <= k < split_commas(s).len() ==> (#[trigger] split_commas(s)[k]).len() <= s.len(),
    decreases s.len(),
{
    match find_char_from(s, ',', 0) {
        None => {
            lemma_trim_len(s);
        }
        Some(i) => {
            lemma_find_char_from_some(s, ',', 0, i);
            lemma_trim_len(s.subrange(0, i));
            let rest = s.subrange(i + 1, s.len() as int);
            lemma_split_commas_pieces(rest);
            assert forall|k: int|
                0 <= k < split_commas(s).len() implies (#[trigger] split_commas(s)[k]).len()
                <= s.len() by {
                if k >= 1 {
                    assert(split_commas(s)[k] == split_commas(rest)[k - 1]);
                }
            }
        }
    }
}

/// Whether `c` is ASCII whitespace; the executable counterpart of
/// [`is_space`].
pub fn is_space_char(c: char) -> (r: bool)
    ensures
        r == is_space(c),
{
    c == ' ' || c == '\t' || c == '\n' || c == '\r' || c == '\u{b}' || c == '\u{c}'
}

/// Whether `pat` occurs in `s` at position `i`.
fn match_at_exec(s: &[char], pat: &[char], i: usize) -> (r: bool)
    requires
        i + pat@.len() <= s@.len(),
    ensures
        r == match_at(s@, pat@, i as int),
{
    let plen = pat.len();
    let slen = s.len();
    let mut j: usize = 0;
    while j < plen
        invariant
            0 <= j <= plen,
            i + plen <= slen,
            slen == s@.len(),
            plen == pat@.len(),
            forall|k: int| 0 <= k < j ==> s@[i + k] == pat@[k],
        decreases plen - j,
    {
        if s[i + j] != pat[j] {
            assert(s@.subrange(i as int, i + pat@.len())[j as int] != pat@[j as int]);
            return false;
        }
        j += 1;
    }
    assert(s@.subrange(i as int, i + pat@.len()) =~= pat@);
    true
}

/// First occurrence of `pat` in `s` at or after `from`.
pub fn find_pat(s: &[char], pat: &[char], from: usize) -> (r: Option<usize>)
    ensures
        match r {
            Some(j) => find_from(s@, pat@, from as int) == Some(j as int),
            None => find_from(s@, pat@, from as int) is None,
        },
{
    let slen = s.len();
    let plen = pat.len();
    let mut i = from;
    loop
        invariant
            from <= i,
            slen == s@.len(),
            plen == pat@.len(),
            find_from(s@, pat@, from as int) == find_from(s@, pat@, i as int),
        decreases slen + 1 - i,
    {
        if plen > slen || i > slen - plen {
            return None;
        }
        if plen == 0 {
            return Some(i);
        }
        if match_at_exec(s, pat, i) {
            return Some(i);
        }
        i += 1;
    }
}

/// First occurrence of the character `c` in `s` at or after `from`.
pub fn find_char(s: &[char], c: char, from: usize) -> (r: Option<usize>)
    ensures
        match r {
            Some(j) => find_char_from(s@, c, from as int) == Some(j as int),
            None => find_char_from(s@, c, from as int) is None,
        },
{
    let slen = s.len();
    let mut i = from;
    while i < slen
        invariant
            from <= i,
            slen == s@.len(),
            find_char_from(s@, c, from as int) == find_char_from(s@, c, i as int),
        decreases slen - i,
    {
        if s[i] == c {
            return Some(i);
        }
        i += 1;
    }
    None
}

/// The characters of `s` from `a` (inclusive) to `b` (exclusive), as a
/// fresh vector.
pub fn subvec(s: &[char], a: usize, b: usize) -> (r: Vec<char>)
    requires
        a <= b <= s@.len(),
    ensures
        r@ == s@.subrange(a as int, b as int),
{
    let mut r: Vec<char> = Vec::new();
    let mut i = a;
    while i < b
        invariant
            a <= i <= b <= s@.len(),
            r@ == s@.subrange(a as int, i as int),
        decreases b - i,
    {
        r.push(s[i]);
        i += 1;
        assert(s@.subrange(a as int, i as int) =~= s@.subrange(a as int, i - 1).push(
            s@[i - 1],
        ));
    }
    r
}

/// `s` with leading and trailing whitespace removed.
pub fn trim_slice(s: &[char]) -> (r: Vec<char>)
    ensures
        r@ == trim(s@),
{
    let slen = s.len();
    proof {
        assert(s@.subrange(0, slen as int) =~= s@);
    }
    let mut lo: usize = 0;
    while lo < slen && is_space_char(s[lo])
        invariant
            0 <= lo <= slen,
            slen == s@.len(),
            trim_front(s@) == trim_front(s@.subrange(lo as int, slen as int)),
        decreases slen - lo,
    {
        assert(s@.subrange(lo as int, slen as int).subrange(1, slen - lo) =~= s@.subrange(
            lo + 1,
            slen as int,
        ));
        lo += 1;
    }
    assert(trim_front(s@) =~= s@.subrange(lo as int, slen as int));
    let mut hi: usize = slen;
    while hi > lo && is_space_char(s[hi - 1])
        invariant
            lo <= hi <= slen,
            slen == s@.len(),
            trim_front(s@) == s@.subrange(lo as int, slen as int),
            trim_back(trim_front(s@)) == trim_back(s@.subrange(lo as int, hi as int)),
        decreases hi,
    {
        assert(s@.subrange(lo as int, hi as int).subrange(0, hi - lo - 1) =~= s@.subrange(
            lo as int,
            hi - 1,
        ));
        hi -= 1;
    }
    assert(trim_back(s@.subrange(lo as int, hi as int)) =~= s@.subrange(lo as int, hi as int));
    subvec(s, lo, hi)
}

/// Whether the character sequences `a` and `b` are equal.
pub fn chars_eq(a: &[char], b: &[char]) -> (r: bool)
    ensures
        r == (a@ == b@),
{
    let alen = a.len();
    if alen != b.len() {
        return false;
    }
    let mut i: usize = 0;
    while i < alen
        invariant
            0 <= i <= alen,
            alen == a@.len() == b@.len(),
            forall|k: int| 0 <= k < i ==> a@[k] == b@[k],
        decreases alen - i,
    {
        if a[i] != b[i] {
            return false;
        }
        i += 1;
    }
    assert(a@ =~= b@);
    true
}

/// `p` is a prefix of `s`.
pub open spec fn has_prefix(s: Seq<char>, p: Seq<char>) -> bool {
    p.len() <= s.len() && s.subrange(0, p.len() as int) == p
}

/// Whether `p` is a prefix of `s`.
pub fn starts_with(s: &[char], p: &[char]) -> (r: bool)
    ensures
        r == has_prefix(s@, p@),
{
    if p.len() > s.len() {
        return false;
    }
    match_at_exec(s, p, 0)
}

/// Relies on `str::chars`: the characters of the string, in order.
#[verifier::external_body]
pub fn str_chars(s: &str) -> (r: Vec<char>)
    ensures
        r@ == s@,
{
    s.chars().collect()
}

/// The concatenation of `a` and `b`.
pub fn concat_chars(a: &[char], b: &[char]) -> (r: Vec<char>)
    ensures
        r@ == a@ + b@,
{
    let blen = b.len();
    let mut r = subvec(a, 0, a.len());
    proof {
        assert(r@ =~= a@);
    }
    let mut i: usize = 0;
    while i < blen
        invariant
            0 <= i <= blen,
            blen == b@.len(),
            r@ == a@ + b@.subrange(0, i as int),
        decreases blen - i,
    {
        r.push(b[i]);
        i += 1;
        proof {
            assert(a@ + b@.subrange(0, i as int) =~= (a@ + b@.subrange(0, i - 1)).push(
                b@[i - 1],
            ));
        }
    }
    proof {
        assert(a@ + b@.subrange(0, blen as int) =~= a@ + b@);
    }
    r
}

/// Relies on `String`'s `FromIterator` over characters: collecting the
/// characters of `v` yields exactly the string with those characters.
#[verifier::external_body]
pub fn chars_to_string(v: &Vec<char>) -> (r: String)
    ensures
        r@ == v@,
{
    v.iter().collect()
}

/// Whether the token `t` spells exactly the literal `lit`.
pub fn is_tok(t: &[char], lit: &str) -> (r: bool)
    ensures
        r == (t@ == lit@),
{
    let l = str_chars(lit);
    chars_eq(t, l.as_slice())
}

/// `s` split on every comma, each piece trimmed.
pub fn split_commas_exec(s: &[char]) -> (r: Vec<Vec<char>>)
    ensures
        r.deep_view() == split_commas(s@),
        r@.len() == split_commas(s@).len(),
        forall|k: int| 0 <= k < r@.len() ==> (#[trigger] r@[k])@ == split_commas(s@)[k],
{
    let mut pieces: Vec<Vec<char>> = Vec::new();
    let mut rest: Vec<char> = subvec(s, 0, s.len());
    proof {
        assert(rest@ =~= s@);
        assert(pieces.deep_view() + split_commas(rest@) =~= split_commas(s@));
    }
    loop
        invariant
            pieces.deep_view() + split_commas(rest@) == split_commas(s@),
        decreases rest@.len(),
    {
        let rlen = rest.len();
        match find_char(rest.as_slice(), ',', 0) {
            None => {
                let ghost old_deep = pieces.deep_view();
                let piece = trim_slice(rest.as_slice());
                pieces.push(piece);
                proof {
                    assert(pieces.deep_view() =~~= old_deep + seq![trim(rest@)]);
                    assert(pieces.deep_view() =~= split_commas(s@));
                    assert forall|k: int|
                        0 <= k < pieces@.len() implies (#[trigger] pieces@[k])@ == split_commas(
                        s@,
                    )[k] by {
                        assert(pieces@[k].deep_view() =~= pieces@[k]@);
                        assert(pieces.deep_view()[k] == pieces@[k].deep_view());
                    }
                }
                return pieces;
            }
            Some(i) => {
                proof {
                    lemma_find_char_from_some(rest@, ',', 0, i as int);
                }
                let ghost old_deep = pieces.deep_view();
                let ghost old_rest = rest@;
                let piece = trim_slice(subvec(rest.as_slice(), 0, i).as_slice());
                let new_rest = subvec(rest.as_slice(), i + 1, rlen);
                pieces.push(piece);
                rest = new_rest;
                proof {
                    assert(pieces.deep_view() =~~= old_deep + seq![
                        trim(old_rest.subrange(0, i as int)),
                    ]);
                    assert(pieces.deep_view() + split_commas(rest@) =~= split_commas(s@));
                }
            }
        }
    }
}

} // verus!
