use crate::scan::{
    is_letter, is_word, is_ws, lemma_scan_idx, lemma_word_not_ws, letter_char, rtrim, rtrim_idx,
    scan, scan_hit, scan_idx, Scan,
};
use vstd::prelude::*;

verus! {

// ---------------------------------------------------------------------------
// The line model of the input
// ---------------------------------------------------------------------------
/// Content ranges of the input's lines from position `from` on: each pair
/// `(lo, hi)` delimits the text of one line, excluding its `'\n'` terminator.
/// The line is terminated exactly when `hi < s.len()`; the final segment
/// (after the last `'\n'`, possibly empty) is unterminated.
pub open spec fn line_ranges_from(s: Seq<char>, from: int) -> Seq<(int, int)>
    decreases s.len() - from,
    via line_ranges_from_dec
{
    if !(0 <= from <= s.len()) {
        seq![]
    } else {
        let e = scan_idx(s, from, s.len() as int, Scan::Nl);
        if e == s.len() {
            seq![(from, e)]
        } else {
            seq![(from, e)] + line_ranges_from(s, e + 1)
        }
    }
}

#[via_fn]
proof fn line_ranges_from_dec(s: Seq<char>, from: int) {
    if 0 <= from <= s.len() {
        lemma_scan_idx(s, from, s.len() as int, Scan::Nl);
    }
}

/// The lines of the whole input.
pub open spec fn lines_of(s: Seq<char>) -> Seq<(int, int)> {
    line_ranges_from(s, 0)
}

pub proof fn lemma_line_ranges_wf(s: Seq<char>, from: int)
    requires
        0 <= from <= s.len(),
    ensures
        line_ranges_from(s, from).len() >= 1,
        forall|i: int|
            0 <= i < line_ranges_from(s, from).len() ==> from <= (
            #[trigger] line_ranges_from(s, from)[i]).0 <= line_ranges_from(s, from)[i].1
                <= s.len(),
        forall|i: int|
            0 <= i < line_ranges_from(s, from).len() && (#[trigger] line_ranges_from(s, from)[i]).1
                < s.len() ==> s[line_ranges_from(s, from)[i].1] == '\n',
    decreases s.len() - from,
{
    lemma_scan_idx(s, from, s.len() as int, Scan::Nl);
    let e = scan_idx(s, from, s.len() as int, Scan::Nl);
    if e < s.len() {
        lemma_line_ranges_wf(s, e + 1);
    }
}

// ---------------------------------------------------------------------------
// Line classification
// ---------------------------------------------------------------------------
/// The end of the line's content once a single trailing `'\r'` (from a CRLF
/// terminator) is discarded.
pub open spec fn content_end(s: Seq<char>, lo: int, hi: int) -> int {
    if lo < hi && s[hi - 1] == '\r' {
        hi - 1
    } else {
        hi
    }
}

/// Where the command name would start on this line: one past the `'/'`,
/// which itself stands just after the leading white space.
pub open spec fn name_start(s: Seq<char>, lo: int, hi: int) -> int {
    scan_idx(s, lo, content_end(s, lo, hi), Scan::NonWs) + 1
}

/// Where the command name ends: the first character after the opening letter
/// that is neither a word character nor a hyphen.
pub open spec fn name_end(s: Seq<char>, lo: int, hi: int) -> int {
    scan_idx(s, name_start(s, lo, hi) + 1, content_end(s, lo, hi), Scan::NonName)
}

/// The line opens a command: it is terminated, after optional leading white
/// space comes a `'/'` and then a letter opening the name, and the short-args
/// segment that follows the name is free of stray `'\r'` characters.
pub open spec fn cmd_line_at(s: Seq<char>, lo: int, hi: int, terminated: bool) -> bool {
    let h = content_end(s, lo, hi);
    let w = scan_idx(s, lo, h, Scan::NonWs);
    terminated && w < h && s[w] == '/' && w + 1 < h && is_letter(s[w + 1]) && scan_idx(
        s,
        name_end(s, lo, hi),
        h,
        Scan::Cr,
    ) == h
}

/// The line belongs to a body block: its first character other than a space
/// or a tab is a `'-'`.
pub open spec fn body_line_at(s: Seq<char>, lo: int, hi: int) -> bool {
    let b = scan_idx(s, lo, hi, Scan::NonBlank);
    b < hi && s[b] == '-'
}

/// Whether the line at index `i` of `rs` opens a command.
pub open spec fn is_cmd_at(s: Seq<char>, rs: Seq<(int, int)>, i: int) -> bool {
    cmd_line_at(s, rs[i].0, rs[i].1, rs[i].1 < s.len())
}

/// How many of the first `upto` lines open a command.
pub open spec fn count_cmds(s: Seq<char>, rs: Seq<(int, int)>, upto: int) -> nat
    decreases upto,
{
    if upto <= 0 {
        0
    } else {
        count_cmds(s, rs, upto - 1) + (if 0 <= upto - 1 < rs.len() && is_cmd_at(s, rs, upto - 1) {
            1nat
        } else {
            0nat
        })
    }
}

/// The first line index at or after `from` that opens a command, or
/// `rs.len()` if there is none.
pub open spec fn find_cmd(s: Seq<char>, rs: Seq<(int, int)>, from: int) -> int
    decreases rs.len() - from,
{
    if !(0 <= from < rs.len()) {
        rs.len() as int
    } else if is_cmd_at(s, rs, from) {
        from
    } else {
        find_cmd(s, rs, from + 1)
    }
}

/// The end of the body block that starts at line `from`: the first line index
/// at or after `from` that is not a body line.
pub open spec fn body_end(s: Seq<char>, rs: Seq<(int, int)>, from: int) -> int
    decreases rs.len() - from,
{
    if !(0 <= from < rs.len()) {
        rs.len() as int
    } else if body_line_at(s, rs[from].0, rs[from].1) {
        body_end(s, rs, from + 1)
    } else {
        from
    }
}

// ---------------------------------------------------------------------------
// Key-value reading of body lines
// ---------------------------------------------------------------------------
/// The `key: value` reading of one body line, if it has one: trim the line,
/// strip the leading run of `'-'` and the white space after it, split at the
/// first `':'`, trim both sides, and reject an empty key.
pub open spec fn line_kv(s: Seq<char>, lo: int, hi: int) -> Option<(Seq<char>, Seq<char>)> {
    let a = scan_idx(s, lo, hi, Scan::NonWs);
    let b = rtrim_idx(s, a, hi);
    if a >= b {
        None
    } else {
        let d = scan_idx(s, a, b, Scan::NonDash);
        let u = scan_idx(s, d, b, Scan::NonWs);
        let j = scan_idx(s, u, b, Scan::Colon);
        if j >= b {
            None
        } else {
            let kb = rtrim_idx(s, u, j);
            if u >= kb {
                None
            } else {
                let va = scan_idx(s, j + 1, b, Scan::NonWs);
                let vb = rtrim_idx(s, va, b);
                Some((s.subrange(u, kb), s.subrange(va, vb)))
            }
        }
    }
}

/// The key-value map read off the body lines `[from, to)`, later lines
/// overwriting earlier ones.
pub open spec fn kv_upto(s: Seq<char>, rs: Seq<(int, int)>, from: int, to: int) -> Map<
    Seq<char>,
    Seq<char>,
>
    decreases to - from,
{
    if from >= to {
        Map::empty()
    } else {
        let m = kv_upto(s, rs, from, to - 1);
        if 0 <= to - 1 < rs.len() {
            match line_kv(s, rs[to - 1].0, rs[to - 1].1) {
                Some(p) => m.insert(p.0, p.1),
                None => m,
            }
        } else {
            m
        }
    }
}

// ---------------------------------------------------------------------------
// Short-args splitting
// ---------------------------------------------------------------------------
/// The maximal runs of non-white-space characters in `[from, to)`, in order.
pub open spec fn split_ws_range(s: Seq<char>, from: int, to: int) -> Seq<Seq<char>>
    decreases to - from,
    via split_ws_range_dec
{
    if !(0 <= from <= to <= s.len()) {
        seq![]
    } else {
        let a = scan_idx(s, from, to, Scan::NonWs);
        if a >= to {
            seq![]
        } else {
            let b = scan_idx(s, a, to, Scan::Ws);
            seq![s.subrange(a, b)] + split_ws_range(s, b, to)
        }
    }
}

#[via_fn]
proof fn split_ws_range_dec(s: Seq<char>, from: int, to: int) {
    if 0 <= from <= to <= s.len() {
        lemma_scan_idx(s, from, to, Scan::NonWs);
        let a = scan_idx(s, from, to, Scan::NonWs);
        if a < to {
            lemma_scan_idx(s, a, to, Scan::Ws);
            lemma_scan_idx(s, a + 1, to, Scan::Ws);
        }
    }
}

// ---------------------------------------------------------------------------
// The parsed command
// ---------------------------------------------------------------------------
/// A parsed command: its name, its positional short args in order, and its
/// key-value body read as an association list whose keys are unique.
#[derive(Debug, Clone)]
pub struct Command {
    pub name: String,
    pub short_args: Vec<String>,
    pub kv: Vec<(String, String)>,
}

/// No two entries share a key.
pub open spec fn distinct_keys(ps: Seq<(String, String)>) -> bool {
    forall|i: int, j: int| 0 <= i < j < ps.len() ==> (#[trigger] ps[i]).0@ != (#[trigger] ps[j]).0@
}

/// The association list read as a map, later entries overwriting earlier
/// ones.
pub open spec fn pairs_map(ps: Seq<(String, String)>) -> Map<Seq<char>, Seq<char>>
    decreases ps.len(),
{
    if ps.len() == 0 {
        Map::empty()
    } else {
        pairs_map(ps.drop_last()).insert(ps.last().0@, ps.last().1@)
    }
}

impl Command {
    /// The short args as character sequences.
    pub open spec fn args_view(self) -> Seq<Seq<char>> {
        Seq::new(self.short_args@.len(), |i: int| self.short_args@[i]@)
    }

    /// The key-value body as a map.
    pub open spec fn kv_view(self) -> Map<Seq<char>, Seq<char>> {
        pairs_map(self.kv@)
    }

    /// The command equals the given model.
    pub open spec fn agrees_with(self, m: CommandModel) -> bool {
        self.name@ == m.name && self.args_view() == m.short_args && self.kv_view() == m.kv
    }

    /// The shape every parsed command has: a non-empty name free of white
    /// space, short args that are non-empty and free of white space, and a
    /// body whose keys are unique and non-empty.
    pub open spec fn wf(self) -> bool {
        self.name@.len() > 0 && (forall|i: int|
            0 <= i < self.name@.len() ==> !is_ws(#[trigger] self.name@[i])) && (forall|i: int|
            0 <= i < self.short_args@.len() ==> (#[trigger] self.short_args@[i])@.len() > 0)
            && (forall|i: int, j: int|
            0 <= i < self.short_args@.len() && 0 <= j < self.short_args@[i]@.len() ==> !is_ws(
                #[trigger] self.short_args@[i]@[j],
            )) && distinct_keys(self.kv@) && (forall|i: int|
            0 <= i < self.kv@.len() ==> (#[trigger] self.kv@[i]).0@.len() > 0)
    }
}

// ---------------------------------------------------------------------------
// The parse model
// ---------------------------------------------------------------------------
/// The mathematical reading of a parsed command.
pub ghost struct CommandModel {
    pub name: Seq<char>,
    pub short_args: Seq<Seq<char>>,
    pub kv: Map<Seq<char>, Seq<char>>,
}

/// What `parse_command` returns, stated over the input's characters alone:
/// the input yields a command exactly when exactly one of its lines opens
/// one; that line gives the name and the short args, and the contiguous run
/// of body lines after it gives the key-value map.
pub open spec fn spec_parse(s: Seq<char>) -> Option<CommandModel> {
    let rs = lines_of(s);
    if count_cmds(s, rs, rs.len() as int) == 1 {
        let i = find_cmd(s, rs, 0);
        let lo = rs[i].0;
        let hi = rs[i].1;
        let h = content_end(s, lo, hi);
        Some(
            CommandModel {
                name: s.subrange(name_start(s, lo, hi), name_end(s, lo, hi)),
                short_args: split_ws_range(s, name_end(s, lo, hi), h),
                kv: kv_upto(s, rs, i + 1, body_end(s, rs, i + 1)),
            },
        )
    } else {
        None
    }
}

// ---------------------------------------------------------------------------
// Lemmas on the model
// ---------------------------------------------------------------------------
/// Where a scan kind first stops is exactly the first index it stops on.
pub proof fn lemma_scan_exact(s: Seq<char>, from: int, to: int, k: Scan, m: int)
    requires
        0 <= from <= m < to <= s.len(),
        forall|i: int| from <= i < m ==> !scan_hit(k, #[trigger] s[i]),
        scan_hit(k, s[m]),
    ensures
        scan_idx(s, from, to, k) == m,
    decreases m - from,
{
    if from < m {
        lemma_scan_exact(s, from + 1, to, k, m);
    }
}

/// A scan kind that stops nowhere in the range runs to its end.
pub proof fn lemma_scan_none(s: Seq<char>, from: int, to: int, k: Scan)
    requires
        0 <= from <= to <= s.len(),
        forall|i: int| from <= i < to ==> !scan_hit(k, #[trigger] s[i]),
    ensures
        scan_idx(s, from, to, k) == to,
    decreases to - from,
{
    if from < to {
        lemma_scan_none(s, from + 1, to, k);
    }
}

/// Every token that white-space splitting yields is non-empty and free of
/// white space.
pub proof fn lemma_split_ws_tokens(s: Seq<char>, from: int, to: int)
    requires
        0 <= from <= to <= s.len(),
    ensures
        forall|i: int|
            0 <= i < split_ws_range(s, from, to).len() ==> (#[trigger] split_ws_range(
                s,
                from,
                to,
            )[i]).len() > 0,
        forall|i: int, j: int|
            0 <= i < split_ws_range(s, from, to).len() && 0 <= j < split_ws_range(
                s,
                from,
                to,
            )[i].len() ==> !is_ws(#[trigger] split_ws_range(s, from, to)[i][j]),
    decreases to - from,
{
    lemma_scan_idx(s, from, to, Scan::NonWs);
    let a = scan_idx(s, from, to, Scan::NonWs);
    if a < to {
        lemma_scan_idx(s, a, to, Scan::Ws);
        assert(scan_idx(s, a, to, Scan::Ws) == scan_idx(s, a + 1, to, Scan::Ws));
        lemma_scan_idx(s, a + 1, to, Scan::Ws);
        let b = scan_idx(s, a, to, Scan::Ws);
        lemma_split_ws_tokens(s, b, to);
        assert forall|i: int|
            0 <= i < split_ws_range(s, from, to).len() implies (#[trigger] split_ws_range(
            s,
            from,
            to,
        )[i]).len() > 0 by {
            if i == 0 {
                assert(split_ws_range(s, from, to)[0] =~= s.subrange(a, b));
            } else {
                assert(split_ws_range(s, from, to)[i] == split_ws_range(s, b, to)[i - 1]);
            }
        }
        assert forall|i: int, j: int|
            0 <= i < split_ws_range(s, from, to).len() && 0 <= j < split_ws_range(
                s,
                from,
                to,
            )[i].len() implies !is_ws(#[trigger] split_ws_range(s, from, to)[i][j]) by {
            if i == 0 {
                assert(split_ws_range(s, from, to)[0] =~= s.subrange(a, b));
                assert(!is_ws(s[a + j]));
            } else {
                assert(split_ws_range(s, from, to)[i] == split_ws_range(s, b, to)[i - 1]);
            }
        }
    }
}

pub proof fn lemma_count_cmds_mono(s: Seq<char>, rs: Seq<(int, int)>, a: int, b: int)
    requires
        a <= b,
    ensures
        count_cmds(s, rs, a) <= count_cmds(s, rs, b),
    decreases b - a,
{
    if a < b {
        lemma_count_cmds_mono(s, rs, a, b - 1);
    }
}

pub proof fn lemma_find_cmd_from(s: Seq<char>, rs: Seq<(int, int)>, from: int, ci: int)
    requires
        0 <= from <= ci < rs.len(),
        is_cmd_at(s, rs, ci),
        forall|j: int| from <= j < ci ==> !is_cmd_at(s, rs, j),
    ensures
        find_cmd(s, rs, from) == ci,
    decreases ci - from,
{
    if from < ci {
        lemma_find_cmd_from(s, rs, from + 1, ci);
    }
}

proof fn lemma_count_cmds_zero(s: Seq<char>, rs: Seq<(int, int)>, upto: int)
    requires
        forall|i: int| 0 <= i < rs.len() ==> !is_cmd_at(s, rs, i),
    ensures
        count_cmds(s, rs, upto) == 0,
    decreases upto,
{
    if upto > 0 {
        lemma_count_cmds_zero(s, rs, upto - 1);
    }
}

proof fn lemma_count_cmds_one(s: Seq<char>, rs: Seq<(int, int)>, i: int, upto: int)
    requires
        0 <= i < upto,
        i < rs.len(),
        is_cmd_at(s, rs, i),
    ensures
        count_cmds(s, rs, upto) >= 1,
    decreases upto,
{
    if upto - 1 > i {
        lemma_count_cmds_one(s, rs, i, upto - 1);
    }
}

proof fn lemma_count_cmds_two(s: Seq<char>, rs: Seq<(int, int)>, i: int, j: int, upto: int)
    requires
        0 <= i < j < upto,
        j < rs.len(),
        is_cmd_at(s, rs, i),
        is_cmd_at(s, rs, j),
    ensures
        count_cmds(s, rs, upto) >= 2,
    decreases upto,
{
    if upto - 1 == j {
        lemma_count_cmds_one(s, rs, i, upto - 1);
    } else {
        lemma_count_cmds_two(s, rs, i, j, upto - 1);
    }
}

// ---------------------------------------------------------------------------
// Laws
// ---------------------------------------------------------------------------
/// Absence: an input none of whose lines opens a command parses to nothing.
pub proof fn lemma_absent_is_none(s: Seq<char>)
    requires
        forall|i: int| 0 <= i < lines_of(s).len() ==> !is_cmd_at(s, lines_of(s), i),
    ensures
        spec_parse(s) is None,
{
    lemma_count_cmds_zero(s, lines_of(s), lines_of(s).len() as int);
}

/// Ambiguity: an input in which two different lines open a command parses to
/// nothing, however well-formed each occurrence is on its own.
pub proof fn lemma_ambiguous_is_none(s: Seq<char>, i: int, j: int)
    requires
        0 <= i < j < lines_of(s).len(),
        is_cmd_at(s, lines_of(s), i),
        is_cmd_at(s, lines_of(s), j),
    ensures
        spec_parse(s) is None,
{
    lemma_count_cmds_two(s, lines_of(s), i, j, lines_of(s).len() as int);
}

/// Purity: parsing reads the input's characters alone, so equal inputs parse
/// to equal results, however often the parse is re-run.
pub proof fn lemma_parse_deterministic(s1: Seq<char>, s2: Seq<char>)
    requires
        s1 == s2,
    ensures
        spec_parse(s1) == spec_parse(s2),
{
}

/// Last write wins: when body line `i` of the block `[from, to)` reads as
/// key `k` with value `v` and no later line of the block reads as `k` again,
/// the block's map holds `v` at `k`.
pub proof fn lemma_kv_last_write_wins(
    s: Seq<char>,
    rs: Seq<(int, int)>,
    from: int,
    to: int,
    i: int,
    k: Seq<char>,
    v: Seq<char>,
)
    requires
        from <= i < to,
        0 <= i < rs.len(),
        line_kv(s, rs[i].0, rs[i].1) == Some((k, v)),
        forall|j: int|
            i < j < to && 0 <= j < rs.len() ==> match line_kv(s, (#[trigger] rs[j]).0, rs[j].1) {
                Some(p) => p.0 != k,
                None => true,
            },
    ensures
        kv_upto(s, rs, from, to).contains_key(k),
        kv_upto(s, rs, from, to)[k] == v,
    decreases to - i,
{
    if to - 1 > i {
        lemma_kv_last_write_wins(s, rs, from, to - 1, i, k, v);
    }
}

/// Last write wins, seen at the whole-message level: when body line `i` of
/// the parsed command's block reads as key `k` with value `v` and no later
/// line of the block reads as `k` again, the parsed command holds `v` at
/// `k`.
pub proof fn lemma_parse_last_write_wins(s: Seq<char>, i: int, k: Seq<char>, v: Seq<char>)
    requires
        spec_parse(s) is Some,
        ({
            let rs = lines_of(s);
            let c = find_cmd(s, rs, 0);
            &&& c < i < body_end(s, rs, c + 1)
            &&& i < rs.len()
            &&& line_kv(s, rs[i].0, rs[i].1) == Some((k, v))
            &&& forall|j: int|
                i < j < body_end(s, rs, c + 1) && 0 <= j < rs.len() ==> match line_kv(
                    s,
                    (#[trigger] rs[j]).0,
                    rs[j].1,
                ) {
                    Some(p) => p.0 != k,
                    None => true,
                }
        }),
    ensures
        spec_parse(s)->Some_0.kv.contains_key(k),
        spec_parse(s)->Some_0.kv[k] == v,
{
    let rs = lines_of(s);
    let c = find_cmd(s, rs, 0);
    lemma_find_cmd_ge(s, rs, 0);
    lemma_kv_last_write_wins(s, rs, c + 1, body_end(s, rs, c + 1), i, k, v);
}

proof fn lemma_find_cmd_ge(s: Seq<char>, rs: Seq<(int, int)>, from: int)
    requires
        0 <= from,
    ensures
        find_cmd(s, rs, from) >= 0,
    decreases rs.len() - from,
{
    if 0 <= from < rs.len() && !is_cmd_at(s, rs, from) {
        lemma_find_cmd_ge(s, rs, from + 1);
    }
}

/// The tokens joined with single spaces between them.
pub open spec fn join_tokens(ts: Seq<Seq<char>>) -> Seq<char>
    decreases ts.len(),
{
    if ts.len() == 0 {
        seq![]
    } else if ts.len() == 1 {
        ts[0]
    } else {
        ts[0] + seq![' '] + join_tokens(ts.drop_first())
    }
}

proof fn lemma_scan_shift(a: Seq<char>, b: Seq<char>, from: int, to: int, k: Scan)
    requires
        0 <= from <= to <= b.len(),
    ensures
        scan_idx(a + b, a.len() + from, a.len() + to, k) == a.len() + scan_idx(b, from, to, k),
    decreases to - from,
{
    if from < to {
        assert((a + b)[a.len() + from] == b[from]);
        if !scan_hit(k, b[from]) {
            lemma_scan_shift(a, b, from + 1, to, k);
        }
    }
}

proof fn lemma_split_shift(a: Seq<char>, b: Seq<char>, from: int, to: int)
    requires
        0 <= from <= to <= b.len(),
    ensures
        split_ws_range(a + b, a.len() + from, a.len() + to) == split_ws_range(b, from, to),
    decreases to - from,
{
    let s = a + b;
    lemma_scan_shift(a, b, from, to, Scan::NonWs);
    lemma_scan_idx(b, from, to, Scan::NonWs);
    let p = scan_idx(b, from, to, Scan::NonWs);
    if p < to {
        lemma_scan_shift(a, b, p, to, Scan::Ws);
        lemma_scan_idx(b, p, to, Scan::Ws);
        assert(scan_idx(b, p, to, Scan::Ws) == scan_idx(b, p + 1, to, Scan::Ws));
        lemma_scan_idx(b, p + 1, to, Scan::Ws);
        let q = scan_idx(b, p, to, Scan::Ws);
        assert(s.subrange(a.len() + p, a.len() + q) =~= b.subrange(p, q));
        lemma_split_shift(a, b, q, to);
        assert(split_ws_range(s, a.len() + from, a.len() + to) =~= split_ws_range(b, from, to));
    } else {
        assert(split_ws_range(s, a.len() + from, a.len() + to) =~= split_ws_range(b, from, to));
    }
}

/// Round trip of the short-args layout: tokens that are non-empty and free
/// of white space, joined with single spaces, split back to exactly
/// themselves.
pub proof fn lemma_split_args_round_trip(ts: Seq<Seq<char>>)
    requires
        forall|i: int| 0 <= i < ts.len() ==> (#[trigger] ts[i]).len() > 0,
        forall|i: int, j: int|
            0 <= i < ts.len() && 0 <= j < ts[i].len() ==> !is_ws(#[trigger] ts[i][j]),
    ensures
        split_ws_range(join_tokens(ts), 0, join_tokens(ts).len() as int) == ts,
    decreases ts.len(),
{
    let s = join_tokens(ts);
    let len = s.len() as int;
    if ts.len() == 0 {
        assert(split_ws_range(s, 0, 0) =~= ts);
    } else if ts.len() == 1 {
        lemma_scan_exact(s, 0, len, Scan::NonWs, 0);
        lemma_scan_none(s, 0, len, Scan::Ws);
        assert(s.subrange(0, len) =~= ts[0]);
        assert(split_ws_range(s, len, len) =~= Seq::<Seq<char>>::empty());
        assert(split_ws_range(s, 0, len) =~= ts);
    } else {
        let h = ts[0];
        let rest = join_tokens(ts.drop_first());
        let hl = h.len() as int;
        assert(s == h + seq![' '] + rest);
        assert(rest == join_tokens(ts.drop_first()));
        assert(ts.drop_first().len() > 0);
        assert(ts.drop_first()[0] == ts[1]);
        assert(rest.len() > 0 && rest[0] == ts[1][0]) by {
            if ts.drop_first().len() == 1 {
                assert(rest == ts.drop_first()[0]);
            } else {
                assert(rest == ts.drop_first()[0] + seq![' '] + join_tokens(
                    ts.drop_first().drop_first(),
                ));
            }
        }
        // the first token and the space after it
        assert(forall|i: int| 0 <= i < hl ==> s[i] == h[i]);
        assert(s[hl] == ' ');
        assert(s[hl + 1] == rest[0]);
        lemma_scan_exact(s, 0, len, Scan::NonWs, 0);
        lemma_scan_exact(s, 0, len, Scan::Ws, hl);
        assert(s.subrange(0, hl) =~= h);
        // the remainder after the space holds the remaining tokens
        lemma_scan_exact(s, hl, len, Scan::NonWs, hl + 1);
        lemma_scan_exact(s, hl + 1, len, Scan::NonWs, hl + 1);
        assert(split_ws_range(s, hl, len) == split_ws_range(s, hl + 1, len)) by {
            assert(scan_idx(s, hl, len, Scan::NonWs) == scan_idx(s, hl + 1, len, Scan::NonWs));
        }
        assert((h + seq![' ']).len() == hl + 1);
        assert(s == (h + seq![' ']) + rest) by {
            assert(s =~= (h + seq![' ']) + rest);
        }
        lemma_split_shift(h + seq![' '], rest, 0, rest.len() as int);
        assert(split_ws_range(s, hl + 1, hl + 1 + rest.len()) == split_ws_range(
            rest,
            0,
            rest.len() as int,
        ));
        assert(len == hl + 1 + rest.len());
        lemma_split_args_round_trip(ts.drop_first());
        assert(split_ws_range(s, 0, len) =~= seq![h] + split_ws_range(s, hl, len));
        assert(seq![h] + ts.drop_first() =~= ts);
    }
}

proof fn lemma_scan_subrange(s: Seq<char>, from: int, to: int, a: int, k: Scan)
    requires
        0 <= from <= a <= to <= s.len(),
    ensures
        scan_idx(s, a, to, k) - from == scan_idx(s.subrange(from, to), a - from, to - from, k),
    decreases to - a,
{
    if a < to {
        assert(s.subrange(from, to)[a - from] == s[a]);
        if !scan_hit(k, s[a]) {
            lemma_scan_subrange(s, from, to, a + 1, k);
        }
    }
}

proof fn lemma_split_ws_subrange(s: Seq<char>, from: int, to: int, a: int)
    requires
        0 <= from <= a <= to <= s.len(),
    ensures
        split_ws_range(s, a, to) == split_ws_range(s.subrange(from, to), a - from, to - from),
    decreases to - a,
{
    let sub = s.subrange(from, to);
    lemma_scan_subrange(s, from, to, a, Scan::NonWs);
    lemma_scan_idx(s, a, to, Scan::NonWs);
    let p = scan_idx(s, a, to, Scan::NonWs);
    if p < to {
        lemma_scan_subrange(s, from, to, p, Scan::Ws);
        lemma_scan_idx(s, p, to, Scan::Ws);
        assert(scan_idx(s, p, to, Scan::Ws) == scan_idx(s, p + 1, to, Scan::Ws));
        lemma_scan_idx(s, p + 1, to, Scan::Ws);
        let q = scan_idx(s, p, to, Scan::Ws);
        assert(sub.subrange(p - from, q - from) =~= s.subrange(p, q));
        lemma_split_ws_subrange(s, from, to, q);
        assert(split_ws_range(s, a, to) =~= split_ws_range(sub, a - from, to - from));
    } else {
        assert(split_ws_range(s, a, to) =~= split_ws_range(sub, a - from, to - from));
    }
}

proof fn lemma_join_chars(ts: Seq<Seq<char>>)
    requires
        forall|i: int| 0 <= i < ts.len() ==> (#[trigger] ts[i]).len() > 0,
        forall|i: int, j: int|
            0 <= i < ts.len() && 0 <= j < ts[i].len() ==> !is_ws(#[trigger] ts[i][j]),
    ensures
        forall|i: int|
            0 <= i < join_tokens(ts).len() ==> #[trigger] join_tokens(ts)[i] == ' ' || !is_ws(
                join_tokens(ts)[i],
            ),
        ts.len() > 0 ==> join_tokens(ts).len() > 0 && !is_ws(join_tokens(ts)[0]) && !is_ws(
            join_tokens(ts).last(),
        ),
    decreases ts.len(),
{
    if ts.len() > 1 {
        lemma_join_chars(ts.drop_first());
        assert(forall|j: int|
            0 <= j < ts.drop_first().len() && 0 <= ts.drop_first()[j].len() ==> (
            #[trigger] ts.drop_first()[j]).len() > 0);
        let s = join_tokens(ts);
        let rest = join_tokens(ts.drop_first());
        assert(s == ts[0] + seq![' '] + rest);
        assert(forall|i: int| 0 <= i < ts[0].len() ==> s[i] == ts[0][i]);
        assert(forall|i: int|
            0 <= i < rest.len() ==> s[ts[0].len() + 1 + i] == #[trigger] rest[i]);
        assert(s.last() == rest.last());
    }
}

/// Round trip of the whole command line: a message of the single line
/// `/name tok1 ... tokN` (single spaces between the tokens) parses to
/// exactly that name and those tokens, with an empty body.
pub proof fn lemma_parse_round_trip(name: Seq<char>, ts: Seq<Seq<char>>)
    requires
        name.len() > 0,
        is_letter(name[0]),
        forall|i: int| 1 <= i < name.len() ==> is_word(#[trigger] name[i]) || name[i] == '-',
        ts.len() > 0,
        forall|i: int| 0 <= i < ts.len() ==> (#[trigger] ts[i]).len() > 0,
        forall|i: int, j: int|
            0 <= i < ts.len() && 0 <= j < ts[i].len() ==> !is_ws(#[trigger] ts[i][j]),
    ensures
        ({
            let s = seq!['/'] + name + seq![' '] + join_tokens(ts) + seq!['\n'];
            &&& spec_parse(s) matches Some(m)
            &&& spec_parse(s)->Some_0.name == name
            &&& spec_parse(s)->Some_0.short_args == ts
            &&& spec_parse(s)->Some_0.kv == Map::<Seq<char>, Seq<char>>::empty()
        }),
{
    let jn = join_tokens(ts);
    let s = seq!['/'] + name + seq![' '] + jn + seq!['\n'];
    let nl = name.len() as int;
    let ln = s.len() as int;
    let h = ln - 1;
    lemma_join_chars(ts);
    assert(s[0] == '/');
    assert(forall|i: int| 0 <= i < nl ==> s[1 + i] == #[trigger] name[i]);
    assert(s[1 + nl] == ' ');
    assert(forall|i: int| 0 <= i < jn.len() ==> s[2 + nl + i] == #[trigger] jn[i]);
    assert(s[ln - 1] == '\n');
    assert(h == 2 + nl + jn.len());
    // every character before the terminator is on the one line
    assert forall|i: int| 0 <= i < h implies #[trigger] s[i] != '\n' by {
        lemma_word_not_ws(s[i]);
    }
    // the input cuts into the command line and the empty tail
    lemma_scan_exact(s, 0, ln, Scan::Nl, h);
    assert(lines_of(s) =~= seq![(0int, h), (ln, ln)]) by {
        assert(line_ranges_from(s, ln) =~= seq![(ln, ln)]);
    }
    let rs = lines_of(s);
    // the first line opens a command ...
    assert(!is_ws(s[h - 1]));
    assert(content_end(s, 0, h) == h);
    lemma_scan_exact(s, 0, h, Scan::NonWs, 0);
    assert(is_letter(s[1]));
    lemma_word_not_ws(' ');
    lemma_scan_exact(s, 2, h, Scan::NonName, 1 + nl);
    assert(name_start(s, 0, h) == 1);
    assert(name_end(s, 0, h) == 1 + nl);
    lemma_scan_none(s, 1 + nl, h, Scan::Cr);
    assert(is_cmd_at(s, rs, 0));
    // ... and the empty tail neither opens one nor belongs to a body
    assert(!is_cmd_at(s, rs, 1));
    assert(!body_line_at(s, ln, ln));
    assert(count_cmds(s, rs, 1) == 1) by {
        assert(count_cmds(s, rs, 0) == 0);
    }
    assert(count_cmds(s, rs, 2) == 1);
    assert(find_cmd(s, rs, 0) == 0);
    assert(body_end(s, rs, 1) == 1);
    let m = spec_parse(s)->Some_0;
    assert(m.name =~= name);
    assert(m.kv =~= Map::<Seq<char>, Seq<char>>::empty());
    // the short-args segment is the single space and the joined tokens
    let sub = s.subrange(1 + nl, h);
    lemma_split_ws_subrange(s, 1 + nl, h, 1 + nl);
    assert(sub =~= seq![' '] + jn);
    lemma_split_shift(seq![' '], jn, 0, jn.len() as int);
    lemma_split_args_round_trip(ts);
    assert(split_ws_range(sub, 0, sub.len() as int) == split_ws_range(sub, 1, sub.len() as int))
        by {
        assert(is_ws(sub[0]));
        assert(scan_idx(sub, 0, sub.len() as int, Scan::NonWs) == scan_idx(
            sub,
            1,
            sub.len() as int,
            Scan::NonWs,
        ));
    }
    assert(m.short_args == ts);
}

proof fn lemma_pairs_map_update(ps: Seq<(String, String)>, i: int, p: (String, String))
    requires
        0 <= i < ps.len(),
        distinct_keys(ps),
        ps[i].0@ == p.0@,
    ensures
        pairs_map(ps.update(i, p)) == pairs_map(ps).insert(p.0@, p.1@),
        distinct_keys(ps.update(i, p)),
    decreases ps.len(),
{
    let q = ps.update(i, p);
    if i == ps.len() - 1 {
        assert(q.drop_last() =~= ps.drop_last());
        assert(pairs_map(ps.drop_last()).insert(ps.last().0@, ps.last().1@).insert(p.0@, p.1@)
            =~= pairs_map(ps.drop_last()).insert(p.0@, p.1@));
    } else {
        assert(distinct_keys(ps.drop_last()));
        lemma_pairs_map_update(ps.drop_last(), i, p);
        assert(q.drop_last() =~= ps.drop_last().update(i, p));
        assert(q.last() == ps.last());
        assert(p.0@ != ps.last().0@);
        assert(pairs_map(ps.drop_last()).insert(p.0@, p.1@).insert(ps.last().0@, ps.last().1@)
            =~= pairs_map(ps.drop_last()).insert(ps.last().0@, ps.last().1@).insert(p.0@, p.1@));
    }
}

// ---------------------------------------------------------------------------
// The executable parser
// ---------------------------------------------------------------------------
/// The ranges of `v` as mathematical integer pairs.
pub open spec fn rs_view(v: Seq<(usize, usize)>) -> Seq<(int, int)> {
    Seq::new(v.len(), |i: int| (v[i].0 as int, v[i].1 as int))
}

/// The strings of `v` as character sequences.
pub open spec fn views_of(v: Seq<String>) -> Seq<Seq<char>> {
    Seq::new(v.len(), |i: int| v[i]@)
}

/// Cuts the input into its lines.
#[verifier::loop_isolation(false)]
fn line_ranges(input: &str, n: usize) -> (rs: Vec<(usize, usize)>)
    requires
        n == input@.len(),
    ensures
        rs_view(rs@) == lines_of(input@),
{
    let ghost s = input@;
    let mut rs: Vec<(usize, usize)> = Vec::new();
    let mut from: usize = 0;
    proof {
        assert(rs_view(rs@) =~= Seq::<(int, int)>::empty());
        assert(lines_of(s) =~= rs_view(rs@) + line_ranges_from(s, 0));
    }
    loop
        invariant
            from <= n,
            lines_of(s) == rs_view(rs@) + line_ranges_from(s, from as int),
        decreases n - from,
    {
        let e = scan(input, from, n, Scan::Nl);
        let ghost rs0 = rs@;
        rs.push((from, e));
        proof {
            assert(rs_view(rs@) =~= rs_view(rs0) + seq![(from as int, e as int)]);
        }
        if e == n {
            proof {
                assert(line_ranges_from(s, from as int) =~= seq![(from as int, e as int)]);
                assert(lines_of(s) =~= rs_view(rs@));
            }
            break;
        }
        proof {
            assert(line_ranges_from(s, from as int) =~= seq![(from as int, e as int)]
                + line_ranges_from(s, e + 1));
            assert(lines_of(s) =~= rs_view(rs@) + line_ranges_from(s, e + 1));
        }
        from = e + 1;
    }
    rs
}

/// Classifies one line as a command line, returning the bounds of its name
/// and its content end, or `None` where the line opens no command.
fn cmd_info(input: &str, lo: usize, hi: usize, n: usize) -> (r: Option<(usize, usize, usize)>)
    requires
        lo <= hi <= n,
        n == input@.len(),
    ensures
        ({
            let s = input@;
            match r {
                Some(t) => cmd_line_at(s, lo as int, hi as int, hi < s.len()) && t.0
                    == name_start(s, lo as int, hi as int) && t.1 == name_end(
                    s,
                    lo as int,
                    hi as int,
                ) && t.2 == content_end(s, lo as int, hi as int) && lo < t.0 && t.0 < t.1 && t.1
                    <= t.2 && t.2 <= hi,
                None => !cmd_line_at(s, lo as int, hi as int, hi < s.len()),
            }
        }),
{
    let ghost s = input@;
    if hi >= n {
        return None;
    }
    let h = if hi > lo && s_char_is(input, hi - 1, '\r') {
        hi - 1
    } else {
        hi
    };
    proof {
        assert(h == content_end(s, lo as int, hi as int));
    }
    let w = scan(input, lo, h, Scan::NonWs);
    if w >= h {
        return None;
    }
    if !s_char_is(input, w, '/') {
        return None;
    }
    if w + 1 >= h {
        return None;
    }
    if !letter_char(input.get_char(w + 1)) {
        return None;
    }
    let ne = scan(input, w + 2, h, Scan::NonName);
    let cr = scan(input, ne, h, Scan::Cr);
    if cr != h {
        return None;
    }
    Some((w + 1, ne, h))
}

/// Whether the character at `i` is `c`.
fn s_char_is(input: &str, i: usize, c: char) -> (b: bool)
    requires
        i < input@.len(),
    ensures
        b == (input@[i as int] == c),
{
    input.get_char(i) == c
}

/// Whether the line belongs to a body block.
fn body_check(input: &str, lo: usize, hi: usize) -> (b: bool)
    requires
        lo <= hi <= input@.len(),
    ensures
        b == body_line_at(input@, lo as int, hi as int),
{
    let p = scan(input, lo, hi, Scan::NonBlank);
    if p >= hi {
        false
    } else {
        s_char_is(input, p, '-')
    }
}

/// Reads one body line as a key and a value, given as index ranges into the
/// input, or `None` where the line is blank, has no colon, or an empty key.
fn line_kv_exec(input: &str, lo: usize, hi: usize) -> (r: Option<(usize, usize, usize, usize)>)
    requires
        lo <= hi <= input@.len(),
    ensures
        ({
            let s = input@;
            match r {
                Some(t) => line_kv(s, lo as int, hi as int) == Some(
                    (
                        s.subrange(t.0 as int, t.1 as int),
                        s.subrange(t.2 as int, t.3 as int),
                    ),
                ) && t.0 < t.1 && t.1 <= s.len() && t.2 <= t.3 && t.3 <= s.len(),
                None => line_kv(s, lo as int, hi as int) is None,
            }
        }),
{
    let a = scan(input, lo, hi, Scan::NonWs);
    let b = rtrim(input, a, hi);
    if a >= b {
        return None;
    }
    let d = scan(input, a, b, Scan::NonDash);
    let u = scan(input, d, b, Scan::NonWs);
    let j = scan(input, u, b, Scan::Colon);
    if j >= b {
        return None;
    }
    let kb = rtrim(input, u, j);
    if u >= kb {
        return None;
    }
    let va = scan(input, j + 1, b, Scan::NonWs);
    let vb = rtrim(input, va, b);
    Some((u, kb, va, vb))
}

/// Splits `[from, to)` of the input on runs of white space.
#[verifier::loop_isolation(false)]
fn split_args(input: &str, from: usize, to: usize) -> (r: Vec<String>)
    requires
        from <= to <= input@.len(),
    ensures
        views_of(r@) == split_ws_range(input@, from as int, to as int),
{
    let ghost s = input@;
    let mut r: Vec<String> = Vec::new();
    let mut i: usize = from;
    proof {
        assert(views_of(r@) =~= Seq::<Seq<char>>::empty());
        assert(split_ws_range(s, from as int, to as int) =~= views_of(r@) + split_ws_range(
            s,
            from as int,
            to as int,
        ));
    }
    loop
        invariant
            from <= i <= to,
            split_ws_range(s, from as int, to as int) == views_of(r@) + split_ws_range(
                s,
                i as int,
                to as int,
            ),
        decreases to - i,
    {
        let a = scan(input, i, to, Scan::NonWs);
        if a >= to {
            proof {
                assert(split_ws_range(s, i as int, to as int) =~= Seq::<Seq<char>>::empty());
                assert(views_of(r@) =~= views_of(r@) + split_ws_range(s, i as int, to as int));
            }
            break;
        }
        let b = scan(input, a, to, Scan::Ws);
        proof {
            lemma_scan_idx(s, i as int, to as int, Scan::NonWs);
            assert(!is_ws(s[a as int]));
            assert(scan_idx(s, a as int, to as int, Scan::Ws) == scan_idx(
                s,
                a as int + 1,
                to as int,
                Scan::Ws,
            ));
            lemma_scan_idx(s, a as int + 1, to as int, Scan::Ws);
            assert(b > a);
        }
        let t = input.substring_char(a, b).to_owned();
        let ghost r0 = r@;
        r.push(t);
        proof {
            assert(views_of(r@) =~= views_of(r0) + seq![s.subrange(a as int, b as int)]);
            assert(split_ws_range(s, i as int, to as int) =~= seq![s.subrange(a as int, b as int)]
                + split_ws_range(s, b as int, to as int));
            assert(split_ws_range(s, from as int, to as int) =~= views_of(r@) + split_ws_range(
                s,
                b as int,
                to as int,
            ));
        }
        i = b;
    }
    r
}

/// Inserts a pair into the association list, overwriting the entry with the
/// same key if there is one.
#[verifier::loop_isolation(false)]
fn kv_insert(kv: &mut Vec<(String, String)>, key: String, val: String)
    requires
        distinct_keys(old(kv)@),
        key@.len() > 0,
        forall|q: int| 0 <= q < old(kv)@.len() ==> (#[trigger] old(kv)@[q]).0@.len() > 0,
    ensures
        distinct_keys(final(kv)@),
        pairs_map(final(kv)@) == pairs_map(old(kv)@).insert(key@, val@),
        forall|q: int| 0 <= q < final(kv)@.len() ==> (#[trigger] final(kv)@[q]).0@.len() > 0,
{
    let mut m: usize = 0;
    while m < kv.len()
        invariant
            m <= kv@.len(),
            kv@ == old(kv)@,
            forall|q: int| 0 <= q < m ==> (#[trigger] kv@[q]).0@ != key@,
        decreases kv@.len() - m,
    {
        if kv[m].0 == key {
            proof {
                lemma_pairs_map_update(old(kv)@, m as int, (key, val));
            }
            kv[m] = (key, val);
            return ;
        }
        m += 1;
    }
    let ghost kv0 = kv@;
    kv.push((key, val));
    proof {
        assert(kv@.drop_last() =~= kv0);
        assert(distinct_keys(kv@));
    }
}

proof fn lemma_pairs_map_lookup(ps: Seq<(String, String)>, i: int)
    requires
        distinct_keys(ps),
        0 <= i < ps.len(),
    ensures
        pairs_map(ps).contains_key(ps[i].0@),
        pairs_map(ps)[ps[i].0@] == ps[i].1@,
    decreases ps.len(),
{
    if i < ps.len() - 1 {
        assert(distinct_keys(ps.drop_last()));
        lemma_pairs_map_lookup(ps.drop_last(), i);
        assert(ps.drop_last()[i] == ps[i]);
        assert(ps.last().0@ != ps[i].0@);
    }
}

proof fn lemma_pairs_map_no_key(ps: Seq<(String, String)>, k: Seq<char>)
    requires
        forall|i: int| 0 <= i < ps.len() ==> (#[trigger] ps[i]).0@ != k,
    ensures
        !pairs_map(ps).contains_key(k),
    decreases ps.len(),
{
    if ps.len() > 0 {
        lemma_pairs_map_no_key(ps.drop_last(), k);
    }
}

impl Command {
    /// Looks a key up in the body map.
    #[verifier::loop_isolation(false)]
    pub fn kv_get(&self, key: &String) -> (r: Option<&String>)
        requires
            distinct_keys(self.kv@),
        ensures
            match r {
                Some(v) => self.kv_view().contains_key(key@) && v@ == self.kv_view()[key@],
                None => !self.kv_view().contains_key(key@),
            },
    {
        let mut i: usize = 0;
        while i < self.kv.len()
            invariant
                i <= self.kv@.len(),
                forall|q: int| 0 <= q < i ==> (#[trigger] self.kv@[q]).0@ != key@,
            decreases self.kv@.len() - i,
        {
            if self.kv[i].0 == *key {
                proof {
                    lemma_pairs_map_lookup(self.kv@, i as int);
                }
                return Some(&self.kv[i].1);
            }
            i += 1;
        }
        proof {
            lemma_pairs_map_no_key(self.kv@, key@);
        }
        None
    }
}

/// Extracts the one command from a chat message, if the message holds
/// exactly one: its name, its positional short args, and the key-value pairs
/// of the `-`-prefixed body lines right after the command line. An input
/// with no command line, or with more than one, yields `None`.
#[verifier::loop_isolation(false)]
pub fn parse_command(input: &str) -> (r: Option<Command>)
    ensures
        match r {
            Some(c) => spec_parse(input@) matches Some(m) && c.agrees_with(m) && c.wf(),
            None => spec_parse(input@) is None,
        },
{
    let ghost s = input@;
    let n = input.unicode_len();
    let rs = line_ranges(input, n);
    let ghost grs = lines_of(s);
    proof {
        lemma_line_ranges_wf(s, 0);
        assert(forall|i2: int|
            0 <= i2 < grs.len() ==> 0 <= (#[trigger] grs[i2]).0 <= grs[i2].1 <= s.len());
        assert(forall|i2: int|
            0 <= i2 < rs@.len() ==> (#[trigger] rs@[i2]).0 == grs[i2].0 && rs@[i2].1
                == grs[i2].1);
    }
    let mut count: usize = 0;
    let mut ci: usize = 0;
    let mut idx: usize = 0;
    while idx < rs.len()
        invariant
            idx <= rs@.len(),
            count == count_cmds(s, grs, idx as int),
            count <= 1,
            count == 1 ==> ci < idx && is_cmd_at(s, grs, ci as int) && find_cmd(s, grs, 0)
                == ci as int,
            count == 0 ==> forall|j: int| 0 <= j < idx ==> !is_cmd_at(s, grs, j),
        decreases rs@.len() - idx,
    {
        let lohi = rs[idx];
        match cmd_info(input, lohi.0, lohi.1, n) {
            Some(_) => {
                if count == 1 {
                    proof {
                        assert(count_cmds(s, grs, idx + 1) == 2);
                        lemma_count_cmds_mono(s, grs, idx + 1, grs.len() as int);
                    }
                    return None;
                }
                count = 1;
                ci = idx;
                proof {
                    lemma_find_cmd_from(s, grs, 0, ci as int);
                }
            },
            None => {},
        }
        idx += 1;
    }
    if count != 1 {
        return None;
    }
    let lohi = rs[ci];
    let (na, nb, h) = match cmd_info(input, lohi.0, lohi.1, n) {
        Some(t) => t,
        // never taken: line `ci` was seen to open a command above
        None => {
            return None;
        },
    };
    let name = input.substring_char(na, nb).to_owned();
    let short_args = split_args(input, nb, h);
    // the body block: the run of body lines right after the command line
    let mut j: usize = ci + 1;
    loop
        invariant
            ci + 1 <= j <= rs@.len(),
            body_end(s, grs, ci + 1) == body_end(s, grs, j as int),
        decreases rs@.len() - j,
    {
        if j >= rs.len() {
            break;
        }
        let lh = rs[j];
        if !body_check(input, lh.0, lh.1) {
            break;
        }
        j += 1;
    }
    proof {
        assert(body_end(s, grs, ci + 1) == j as int);
    }
    let mut kv: Vec<(String, String)> = Vec::new();
    let mut t: usize = ci + 1;
    while t < j
        invariant
            ci + 1 <= t <= j,
            distinct_keys(kv@),
            pairs_map(kv@) == kv_upto(s, grs, ci + 1, t as int),
            forall|q: int| 0 <= q < kv@.len() ==> (#[trigger] kv@[q]).0@.len() > 0,
        decreases j - t,
    {
        let lh = rs[t];
        match line_kv_exec(input, lh.0, lh.1) {
            Some(kr) => {
                let key = input.substring_char(kr.0, kr.1).to_owned();
                let val = input.substring_char(kr.2, kr.3).to_owned();
                kv_insert(&mut kv, key, val);
            },
            None => {},
        }
        t += 1;
    }
    let c = Command { name, short_args, kv };
    proof {
        let m = spec_parse(s)->Some_0;
        assert(c.args_view() =~= m.short_args);
        // the name opens with a letter and goes on with word characters or
        // hyphens, none of which is white space
        lemma_scan_idx(s, na as int + 1, h as int, Scan::NonName);
        assert(is_letter(s[na as int]));
        assert(forall|i2: int|
            0 <= i2 < c.name@.len() ==> c.name@[i2] == s[na as int + i2]);
        assert(forall|i2: int|
            na as int + 1 <= i2 < nb as int ==> is_word(#[trigger] s[i2]) || s[i2] == '-');
        assert forall|i2: int| 0 <= i2 < c.name@.len() implies !is_ws(
            #[trigger] c.name@[i2],
        ) by {
            lemma_word_not_ws(c.name@[i2]);
        }
        // the short args are maximal non-white-space runs
        lemma_split_ws_tokens(s, nb as int, h as int);
        assert(forall|i2: int|
            0 <= i2 < c.short_args@.len() ==> (#[trigger] c.short_args@[i2])@
                == m.short_args[i2]);
        assert(c.wf());
    }
    Some(c)
}

} // verus!
