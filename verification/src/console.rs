//! Interpreting one line of the firmware's live console: a line that
//! carries a `LAYERS:` report is turned into the eight layer-active
//! flags.  The base layer is always reported active.

use vstd::prelude::*;

use crate::text::{find_from, find_pat, lemma_find_from_some, str_chars, subvec, trim,
    trim_slice};

verus! {

/// The number of layer-active flags a console report carries.
pub open spec fn flag_count() -> int {
    8
}

/// The flags a console line reports: the line is trimmed, the span
/// after the first `LAYERS:` marker (up to the next such marker, if
/// any) is trimmed in turn, and its first eight characters give the
/// flags, `'1'` meaning active.  The first flag is always active.  A
/// line without the marker, or with fewer than eight flag characters,
/// reports nothing.
pub open spec fn console_flags(line: Seq<char>) -> Option<Seq<bool>> {
    let t = trim(line);
    match find_from(t, "LAYERS:"@, 0) {
        None => None,
        Some(i) => {
            let start = i + "LAYERS:"@.len();
            let piece = match find_from(t, "LAYERS:"@, start) {
                None => t.subrange(start, t.len() as int),
                Some(j) => t.subrange(start, j),
            };
            let flags = trim(piece);
            if flags.len() < flag_count() {
                None
            } else {
                Some(Seq::new(flag_count() as nat, |k: int| k == 0 || flags[k] == '1'))
            }
        },
    }
}

/// The index of the highest set flag, or zero when none is set.
pub open spec fn highest_active(flags: Seq<bool>) -> int
    decreases flags.len(),
{
    if flags.len() == 0 {
        0
    } else if flags[flags.len() - 1] {
        flags.len() - 1
    } else {
        highest_active(flags.drop_last())
    }
}

/// The layer whose name the display shows: the highest active flag (the
/// base layer when none is set), clamped to the layer count.
pub open spec fn display_layer_index(flags: Seq<bool>, layer_count: int) -> int {
    if highest_active(flags) <= layer_count {
        highest_active(flags)
    } else {
        layer_count
    }
}

/// The index of the layer whose name the display shows.
pub fn display_layer(flags: &Vec<bool>, layer_count: usize) -> (r: usize)
    ensures
        r == display_layer_index(flags@, layer_count as int),
{
    let mut i = flags.len();
    proof {
        assert(flags@.subrange(0, i as int) =~= flags@);
    }
    while i > 0
        invariant
            0 <= i <= flags@.len(),
            highest_active(flags@) == highest_active(flags@.subrange(0, i as int)),
        decreases i,
    {
        if flags[i - 1] {
            if i - 1 <= layer_count {
                return i - 1;
            } else {
                return layer_count;
            }
        }
        proof {
            assert(flags@.subrange(0, i as int).drop_last() =~= flags@.subrange(0, i - 1));
        }
        i -= 1;
    }
    0
}

/// The eight layer-active flags a console line reports, if it reports
/// any.
pub fn parse_console_line(line: &str) -> (r: Option<Vec<bool>>)
    ensures
        match r {
            Some(v) => console_flags(line@) == Some(v@),
            None => console_flags(line@) is None,
        },
{
    let chars = str_chars(line);
    let t = trim_slice(chars.as_slice());
    let marker = str_chars("LAYERS:");
    let tlen = t.len();
    let i = match find_pat(t.as_slice(), marker.as_slice(), 0) {
        None => {
            return None;
        }
        Some(i) => i,
    };
    proof {
        lemma_find_from_some(t@, "LAYERS:"@, 0, i as int);
    }
    let start = i + marker.len();
    let piece = match find_pat(t.as_slice(), marker.as_slice(), start) {
        None => subvec(t.as_slice(), start, tlen),
        Some(j) => {
            proof {
                lemma_find_from_some(t@, "LAYERS:"@, start as int, j as int);
            }
            subvec(t.as_slice(), start, j)
        },
    };
    let flags = trim_slice(piece.as_slice());
    if flags.len() < 8 {
        return None;
    }
    let mut v: Vec<bool> = Vec::new();
    v.push(true);
    let mut k: usize = 1;
    while k < 8
        invariant
            1 <= k <= 8,
            flags@.len() >= 8,
            v@.len() == k,
            v@[0] == true,
            forall|m: int| 1 <= m < k ==> v@[m] == (flags@[m] == '1'),
        decreases 8 - k,
    {
        v.push(flags[k] == '1');
        k += 1;
    }
    proof {
        assert(v@ =~= Seq::new(flag_count() as nat, |m: int| m == 0 || flags@[m] == '1'));
    }
    Some(v)
}

} // verus!
