use crate::word::{
    word_rows_a, word_rows_a_exec, word_rows_b, word_rows_b_exec, word_rows_c, word_rows_c_exec,
    word_rows_d, word_rows_d_exec,
};
use vstd::prelude::*;

verus! {

/// A single Unicode white-space character, the set that `char::is_whitespace`
/// (and hence `str::trim` and `str::split_whitespace`) recognises.
pub open spec fn is_ws(c: char) -> bool {
    c == ' ' || c == '\t' || c == '\n' || c == '\u{b}' || c == '\u{c}' || c == '\r'
        || c == '\u{85}' || c == '\u{a0}' || c == '\u{1680}' || c == '\u{2000}'
        || c == '\u{2001}' || c == '\u{2002}' || c == '\u{2003}' || c == '\u{2004}'
        || c == '\u{2005}' || c == '\u{2006}' || c == '\u{2007}' || c == '\u{2008}'
        || c == '\u{2009}' || c == '\u{200a}' || c == '\u{2028}' || c == '\u{2029}'
        || c == '\u{202f}' || c == '\u{205f}' || c == '\u{3000}'
}

/// An ASCII letter, the only characters that may open a command name.
pub open spec fn is_letter(c: char) -> bool {
    (('A' as u32) <= (c as u32) && (c as u32) <= ('Z' as u32)) || (('a' as u32) <= (c as u32)
        && (c as u32) <= ('z' as u32))
}

/// A character of the command-name alphabet after its opening letter: the
/// Unicode word class of `src/word.rs` (hyphens are admitted separately).
pub open spec fn is_word(c: char) -> bool {
    word_rows_a(c as u32) || word_rows_b(c as u32) || word_rows_c(c as u32) || word_rows_d(
        c as u32,
    )
}

/// No word character is white space: the word class holds letters, marks,
/// digits, connector punctuation and join controls, and every white-space
/// code point falls outside all four rows of the table.
pub proof fn lemma_word_not_ws(c: char)
    ensures
        is_word(c) ==> !is_ws(c),
{
}

/// What a left-to-right scan stops on.
#[derive(Clone, Copy)]
pub enum Scan {
    /// A character that is not white space.
    NonWs,
    /// A white-space character.
    Ws,
    /// A character that is neither a space nor a tab.
    NonBlank,
    /// A character other than `-`.
    NonDash,
    /// A `:`.
    Colon,
    /// A `\n`.
    Nl,
    /// A `\r`.
    Cr,
    /// A character that may not continue a command name.
    NonName,
}

pub open spec fn scan_hit(k: Scan, c: char) -> bool {
    match k {
        Scan::NonWs => !is_ws(c),
        Scan::Ws => is_ws(c),
        Scan::NonBlank => !(c == ' ' || c == '\t'),
        Scan::NonDash => c != '-',
        Scan::Colon => c == ':',
        Scan::Nl => c == '\n',
        Scan::Cr => c == '\r',
        Scan::NonName => !(is_word(c) || c == '-'),
    }
}

/// The first index in `[from, to)` whose character the scan kind stops on,
/// or `to` if there is none.
pub open spec fn scan_idx(s: Seq<char>, from: int, to: int, k: Scan) -> int
    decreases to - from,
{
    if !(0 <= from && from < to && to <= s.len()) {
        to
    } else if scan_hit(k, s[from]) {
        from
    } else {
        scan_idx(s, from + 1, to, k)
    }
}

pub proof fn lemma_scan_idx(s: Seq<char>, from: int, to: int, k: Scan)
    requires
        0 <= from <= to <= s.len(),
    ensures
        from <= scan_idx(s, from, to, k) <= to,
        forall|i: int| from <= i < scan_idx(s, from, to, k) ==> !scan_hit(k, #[trigger] s[i]),
        scan_idx(s, from, to, k) < to ==> scan_hit(k, s[scan_idx(s, from, to, k)]),
    decreases to - from,
{
    if from < to && !scan_hit(k, s[from]) {
        lemma_scan_idx(s, from + 1, to, k);
    }
}

/// The end of `[lo, hi)` after discarding trailing white space: the largest
/// `e` such that `e == lo` or the character just before `e` is not white space.
pub open spec fn rtrim_idx(s: Seq<char>, lo: int, hi: int) -> int
    decreases hi - lo,
{
    if !(0 <= lo && lo < hi && hi <= s.len()) {
        hi
    } else if is_ws(s[hi - 1]) {
        rtrim_idx(s, lo, hi - 1)
    } else {
        hi
    }
}

fn ws_char(c: char) -> (b: bool)
    ensures
        b == is_ws(c),
{
    c == ' ' || c == '\t' || c == '\n' || c == '\u{b}' || c == '\u{c}' || c == '\r'
        || c == '\u{85}' || c == '\u{a0}' || c == '\u{1680}' || c == '\u{2000}'
        || c == '\u{2001}' || c == '\u{2002}' || c == '\u{2003}' || c == '\u{2004}'
        || c == '\u{2005}' || c == '\u{2006}' || c == '\u{2007}' || c == '\u{2008}'
        || c == '\u{2009}' || c == '\u{200a}' || c == '\u{2028}' || c == '\u{2029}'
        || c == '\u{202f}' || c == '\u{205f}' || c == '\u{3000}'
}

pub fn letter_char(c: char) -> (b: bool)
    ensures
        b == is_letter(c),
{
    ((c as u32) >= ('A' as u32) && (c as u32) <= ('Z' as u32)) || ((c as u32) >= ('a' as u32)
        && (c as u32) <= ('z' as u32))
}

fn word_char(c: char) -> (b: bool)
    ensures
        b == is_word(c),
{
    let u: u32 = c as u32;
    word_rows_a_exec(u) || word_rows_b_exec(u) || word_rows_c_exec(u) || word_rows_d_exec(u)
}

fn hit(k: Scan, c: char) -> (b: bool)
    ensures
        b == scan_hit(k, c),
{
    match k {
        Scan::NonWs => !ws_char(c),
        Scan::Ws => ws_char(c),
        Scan::NonBlank => !(c == ' ' || c == '\t'),
        Scan::NonDash => c != '-',
        Scan::Colon => c == ':',
        Scan::Nl => c == '\n',
        Scan::Cr => c == '\r',
        Scan::NonName => !(word_char(c) || c == '-'),
    }
}

/// Executable counterpart of `scan_idx`.
pub fn scan(s: &str, from: usize, to: usize, k: Scan) -> (r: usize)
    requires
        from <= to <= s@.len(),
    ensures
        r == scan_idx(s@, from as int, to as int, k),
        from <= r <= to,
{
    let mut i: usize = from;
    while i < to
        invariant
            from <= i <= to <= s@.len(),
            scan_idx(s@, from as int, to as int, k) == scan_idx(s@, i as int, to as int, k),
        decreases to - i,
    {
        let c = s.get_char(i);
        if hit(k, c) {
            return i;
        }
        i = i + 1;
    }
    i
}

/// Executable counterpart of `rtrim_idx`.
pub fn rtrim(s: &str, lo: usize, hi: usize) -> (r: usize)
    requires
        lo <= hi <= s@.len(),
    ensures
        r == rtrim_idx(s@, lo as int, hi as int),
        lo <= r <= hi,
{
    let mut e: usize = hi;
    while e > lo
        invariant
            lo <= e <= hi <= s@.len(),
            rtrim_idx(s@, lo as int, hi as int) == rtrim_idx(s@, lo as int, e as int),
        decreases e,
    {
        let c = s.get_char(e - 1);
        if ws_char(c) {
            e = e - 1;
        } else {
            return e;
        }
    }
    e
}

} // verus!
