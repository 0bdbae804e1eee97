//! The grammar of `arduino-cli` output that the reports are built from: the lines that
//! state the flash and RAM sizes of a sketch, GCC's warning lines, and the version line.
//!
//! Each pattern is stated as a spec function on the characters of the output, following
//! leftmost-first matching: the first position where the pattern matches wins, `.*` takes
//! as much of the current line as it can, and `.` never crosses a newline.
use vstd::prelude::*;

use crate::text::{
    all_digits, chars_of, digit_run_end, digit_run_end_exec, digits_value, find_char,
    find_char_from, is_digit, lemma_digit_run_end, lemma_find_char_from, occurs_at,
    occurs_at_exec, parse_digits,
};

verus! {

// ---------------------------------------------------------------------------------------
// Literals of the patterns
// ---------------------------------------------------------------------------------------

/// Start of the line stating the flash size.
pub open spec fn flash_lead() -> Seq<char> {
    "Sketch uses "@
}

/// Text after the flash size, before the maximum.
pub open spec fn flash_anchor() -> Seq<char> {
    "of program storage space"@
}

/// Start of the line stating the RAM size.
pub open spec fn ram_lead() -> Seq<char> {
    "Global variables use "@
}

/// Text after the RAM size, before the maximum.
pub open spec fn ram_anchor() -> Seq<char> {
    "of dynamic memory"@
}

/// Text between a size and the rest of its line.
pub open spec fn bytes_sep() -> Seq<char> {
    " bytes "@
}

/// Start of the statement of a maximum size.
pub open spec fn max_lead() -> Seq<char> {
    " Maximum is "@
}

/// End of the statement of a maximum size.
pub open spec fn max_tail() -> Seq<char> {
    " bytes."@
}

/// Text after the line and column of a GCC warning.
pub open spec fn warning_tail() -> Seq<char> {
    ": warning:"@
}

/// Text before the version number in `arduino-cli version` output.
pub open spec fn version_label() -> Seq<char> {
    "Version:"@
}

// ---------------------------------------------------------------------------------------
// Shared pieces
// ---------------------------------------------------------------------------------------

/// Index of the newline that ends the line containing `i` (or the end of `s`).
pub open spec fn line_end(s: Seq<char>, i: int) -> int {
    find_char_from(s, i, '\n')
}

/// The largest `e` in `[from, to]` at which `lit` occurs.
pub open spec fn last_occurrence(s: Seq<char>, lit: Seq<char>, from: int, to: int) -> Option<int>
    decreases to - from + 1,
{
    if to < from {
        None
    } else if occurs_at(s, to, lit) {
        Some(to)
    } else {
        last_occurrence(s, lit, from, to - 1)
    }
}

proof fn lemma_last_occurrence(s: Seq<char>, lit: Seq<char>, from: int, to: int)
    ensures
        last_occurrence(s, lit, from, to) matches Some(e) ==> from <= e <= to && occurs_at(
            s,
            e,
            lit,
        ),
    decreases to - from + 1,
{
    if to >= from && !occurs_at(s, to, lit) {
        lemma_last_occurrence(s, lit, from, to - 1);
    }
}

/// The largest `e` in `[from, to]` at which `lit` occurs.
fn last_occurrence_exec(s: &Vec<char>, lit: &Vec<char>, from: usize, to: usize) -> (r: Option<
    usize,
>)
    ensures
        match r {
            Some(e) => last_occurrence(s@, lit@, from as int, to as int) == Some(e as int),
            None => last_occurrence(s@, lit@, from as int, to as int) is None,
        },
{
    if to < from {
        return None;
    }
    let mut e = to;
    loop
        invariant
            from <= e <= to,
            last_occurrence(s@, lit@, from as int, to as int) == last_occurrence(
                s@,
                lit@,
                from as int,
                e as int,
            ),
        decreases e,
    {
        if occurs_at_exec(s, e, lit) {
            return Some(e);
        }
        if e == from {
            assert(last_occurrence(s@, lit@, from as int, e - 1) is None);
            return None;
        }
        e = e - 1;
    }
}

/// The optional " Maximum is N bytes." statement at `q`: the range of its digits.
pub open spec fn max_group_at(s: Seq<char>, q: int) -> Option<(int, int)> {
    let ds = q + max_lead().len();
    let de = digit_run_end(s, ds);
    if occurs_at(s, q, max_lead()) && de > ds && occurs_at(s, de, max_tail()) {
        Some((ds, de))
    } else {
        None
    }
}

proof fn lemma_max_group_at(s: Seq<char>, q: int)
    ensures
        max_group_at(s, q) matches Some((a, b)) ==> 0 <= a < b <= s.len() && all_digits(
            s.subrange(a, b),
        ),
{
    let ds = q + max_lead().len();
    if occurs_at(s, q, max_lead()) {
        lemma_digit_run_end(s, ds);
    }
}

fn max_group_at_exec(s: &Vec<char>, q: usize, lead: &Vec<char>, tail: &Vec<char>) -> (r: Option<
    (usize, usize),
>)
    requires
        lead@ == max_lead(),
        tail@ == max_tail(),
        q <= s.len(),
    ensures
        match r {
            Some((a, b)) => max_group_at(s@, q as int) == Some((a as int, b as int)),
            None => max_group_at(s@, q as int) is None,
        },
{
    if !occurs_at_exec(s, q, lead) {
        return None;
    }
    let ds = q + lead.len();
    let de = digit_run_end_exec(s, ds);
    if de > ds && occurs_at_exec(s, de, tail) {
        Some((ds, de))
    } else {
        None
    }
}

/// The start of a size line at `i`: `lead`, a run of digits, " bytes ", then (later on the
/// same line) the last occurrence of `anchor`. Gives the range of the digits and the
/// index just after that occurrence of `anchor`.
pub open spec fn size_line_at(s: Seq<char>, i: int, lead: Seq<char>, anchor: Seq<char>) -> Option<
    (int, int, int),
> {
    let ds = i + lead.len();
    let de = digit_run_end(s, ds);
    let q0 = de + bytes_sep().len();
    if occurs_at(s, i, lead) && de > ds && occurs_at(s, de, bytes_sep()) {
        match last_occurrence(s, anchor, q0, line_end(s, q0)) {
            Some(e) => Some((ds, de, e + anchor.len())),
            None => None,
        }
    } else {
        None
    }
}

/// The leftmost size line at or after `i`.
pub open spec fn first_size_line(s: Seq<char>, i: int, lead: Seq<char>, anchor: Seq<char>) -> Option<
    (int, int, int),
>
    decreases s.len() - i,
{
    if i < 0 || i > s.len() {
        None
    } else {
        match size_line_at(s, i, lead, anchor) {
            Some(m) => Some(m),
            None => if i == s.len() {
                None
            } else {
                first_size_line(s, i + 1, lead, anchor)
            },
        }
    }
}

proof fn lemma_size_line_at(s: Seq<char>, i: int, lead: Seq<char>, anchor: Seq<char>)
    requires
        0 <= i <= s.len(),
    ensures
        size_line_at(s, i, lead, anchor) matches Some((a, b, p)) ==> 0 <= a < b <= s.len()
            && all_digits(s.subrange(a, b)) && b <= p <= s.len(),
{
    let ds = i + lead.len();
    if occurs_at(s, i, lead) {
        lemma_digit_run_end(s, ds);
        let de = digit_run_end(s, ds);
        let q0 = de + bytes_sep().len();
        if de > ds && occurs_at(s, de, bytes_sep()) {
            lemma_find_char_from(s, q0, '\n');
            lemma_last_occurrence(s, anchor, q0, line_end(s, q0));
        }
    }
}

proof fn lemma_first_size_line(s: Seq<char>, i: int, lead: Seq<char>, anchor: Seq<char>)
    requires
        0 <= i <= s.len(),
    ensures
        first_size_line(s, i, lead, anchor) matches Some((a, b, p)) ==> 0 <= a < b <= s.len()
            && all_digits(s.subrange(a, b)) && b <= p <= s.len(),
    decreases s.len() - i,
{
    lemma_size_line_at(s, i, lead, anchor);
    if size_line_at(s, i, lead, anchor) is None && i < s.len() {
        lemma_first_size_line(s, i + 1, lead, anchor);
    }
}

fn size_line_at_exec(
    s: &Vec<char>,
    i: usize,
    lead: &Vec<char>,
    anchor: &Vec<char>,
    sep: &Vec<char>,
) -> (r: Option<(usize, usize, usize)>)
    requires
        i <= s.len(),
        sep@ == bytes_sep(),
    ensures
        match r {
            Some((a, b, p)) => size_line_at(s@, i as int, lead@, anchor@) == Some(
                (a as int, b as int, p as int),
            ),
            None => size_line_at(s@, i as int, lead@, anchor@) is None,
        },
{
    if !occurs_at_exec(s, i, lead) {
        return None;
    }
    let ds = i + lead.len();
    let de = digit_run_end_exec(s, ds);
    proof {
        lemma_digit_run_end(s@, ds as int);
    }
    if de == ds || !occurs_at_exec(s, de, sep) {
        return None;
    }
    let q0 = de + sep.len();
    let le = find_char(s, q0, '\n');
    proof {
        lemma_find_char_from(s@, q0 as int, '\n');
    }
    match last_occurrence_exec(s, anchor, q0, le) {
        Some(e) => {
            proof {
                lemma_last_occurrence(s@, anchor@, q0 as int, le as int);
            }
            Some((ds, de, e + anchor.len()))
        },
        None => None,
    }
}

fn first_size_line_exec(s: &Vec<char>, lead: &Vec<char>, anchor: &Vec<char>, sep: &Vec<char>) -> (r:
    Option<(usize, usize, usize)>)
    requires
        sep@ == bytes_sep(),
    ensures
        match r {
            Some((a, b, p)) => first_size_line(s@, 0, lead@, anchor@) == Some(
                (a as int, b as int, p as int),
            ),
            None => first_size_line(s@, 0, lead@, anchor@) is None,
        },
{
    let mut i: usize = 0;
    loop
        invariant
            i <= s.len(),
            sep@ == bytes_sep(),
            first_size_line(s@, 0, lead@, anchor@) == first_size_line(s@, i as int, lead@, anchor@),
        decreases s.len() - i,
    {
        match size_line_at_exec(s, i, lead, anchor, sep) {
            Some(m) => {
                return Some(m);
            },
            None => {
                if i == s.len() {
                    return None;
                }
                i = i + 1;
            },
        }
    }
}

// ---------------------------------------------------------------------------------------
// Flash and RAM sizes
// ---------------------------------------------------------------------------------------

/// The maximum flash size stated right after "of program storage space" (after an
/// optional period).
pub open spec fn flash_max_group(s: Seq<char>, p: int) -> Option<(int, int)> {
    if 0 <= p < s.len() && s[p] == '.' {
        max_group_at(s, p + 1)
    } else {
        max_group_at(s, p)
    }
}

/// The last index `q` in `[from, to]` where a maximum statement starts.
pub open spec fn last_max_group(s: Seq<char>, from: int, to: int) -> Option<int>
    decreases to - from + 1,
{
    if to < from {
        None
    } else if max_group_at(s, to) is Some {
        Some(to)
    } else {
        last_max_group(s, from, to - 1)
    }
}

/// The maximum RAM size: the last maximum statement on the rest of the line after
/// "of dynamic memory".
pub open spec fn ram_max_group(s: Seq<char>, p: int) -> Option<(int, int)> {
    match last_max_group(s, p, line_end(s, p)) {
        Some(q) => max_group_at(s, q),
        None => None,
    }
}

/// The value of the digits `s[a..b]` as a capture parsed into an integer type whose largest
/// value is `limit`: `None` when the value does not fit.
pub open spec fn parsed_capture(s: Seq<char>, range: Option<(int, int)>, limit: int) -> Option<int> {
    match range {
        Some((a, b)) => if digits_value(s.subrange(a, b)) <= limit {
            Some(digits_value(s.subrange(a, b)) as int)
        } else {
            None
        },
        None => None,
    }
}

/// The absolute and maximum flash sizes stated in compiler output (each `None` when not
/// found or when it does not fit its integer type).
pub open spec fn flash_captures(s: Seq<char>) -> (Option<int>, Option<int>) {
    match first_size_line(s, 0, flash_lead(), flash_anchor()) {
        Some((a, b, p)) => (
            parsed_capture(s, Some((a, b)), i64::MAX as int),
            parsed_capture(s, flash_max_group(s, p), u64::MAX as int),
        ),
        None => (None, None),
    }
}

/// The absolute and maximum RAM sizes stated in compiler output.
pub open spec fn ram_captures(s: Seq<char>) -> (Option<int>, Option<int>) {
    match first_size_line(s, 0, ram_lead(), ram_anchor()) {
        Some((a, b, p)) => (
            parsed_capture(s, Some((a, b)), i64::MAX as int),
            parsed_capture(s, ram_max_group(s, p), u64::MAX as int),
        ),
        None => (None, None),
    }
}

fn parse_capture(s: &Vec<char>, range: Option<(usize, usize)>, limit: u64) -> (r: Option<u64>)
    requires
        range matches Some((a, b)) ==> a <= b <= s.len() && all_digits(
            s@.subrange(a as int, b as int),
        ),
    ensures
        match r {
            Some(v) => parsed_capture(
                s@,
                match range { Some((a, b)) => Some((a as int, b as int)), None => None },
                limit as int,
            ) == Some(v as int),
            None => parsed_capture(
                s@,
                match range { Some((a, b)) => Some((a as int, b as int)), None => None },
                limit as int,
            ) is None,
        },
{
    match range {
        Some((a, b)) => parse_digits(s, a, b, limit),
        None => None,
    }
}

fn opt_range_view(r: Option<(usize, usize)>) -> (v: Option<(usize, usize)>)
    ensures
        v == r,
{
    r
}

/// The absolute and maximum flash sizes stated in compiler output.
pub fn flash_sizes(output: &str) -> (r: (Option<i64>, Option<u64>))
    ensures
        flash_captures(output@) == (
            match r.0 { Some(v) => Some(v as int), None => None },
            match r.1 { Some(v) => Some(v as int), None => None },
        ),
{
    let s = chars_of(output);
    let lead = chars_of("Sketch uses ");
    let anchor = chars_of("of program storage space");
    let sep = chars_of(" bytes ");
    let mlead = chars_of(" Maximum is ");
    let mtail = chars_of(" bytes.");
    match first_size_line_exec(&s, &lead, &anchor, &sep) {
        Some((a, b, p)) => {
            proof {
                lemma_first_size_line(s@, 0, lead@, anchor@);
            }
            let abs = parse_capture(&s, Some((a, b)), 9223372036854775807u64);
            let group = if p < s.len() && s[p] == '.' {
                max_group_at_exec(&s, p + 1, &mlead, &mtail)
            } else {
                max_group_at_exec(&s, p, &mlead, &mtail)
            };
            proof {
                lemma_max_group_at(s@, p as int);
                lemma_max_group_at(s@, p + 1);
            }
            let max = parse_capture(&s, opt_range_view(group), u64::MAX);
            let abs_i: Option<i64> = match abs {
                Some(v) => Some(v as i64),
                None => None,
            };
            (abs_i, max)
        },
        None => (None, None),
    }
}

fn last_max_group_exec(s: &Vec<char>, from: usize, to: usize, lead: &Vec<char>, tail: &Vec<char>) -> (r:
    Option<usize>)
    requires
        lead@ == max_lead(),
        tail@ == max_tail(),
        to <= s.len(),
    ensures
        match r {
            Some(q) => from <= q <= to && last_max_group(s@, from as int, to as int) == Some(
                q as int,
            ),
            None => last_max_group(s@, from as int, to as int) is None,
        },
{
    if to < from {
        return None;
    }
    let mut q = to;
    loop
        invariant
            from <= q <= to <= s.len(),
            lead@ == max_lead(),
            tail@ == max_tail(),
            last_max_group(s@, from as int, to as int) == last_max_group(
                s@,
                from as int,
                q as int,
            ),
        decreases q,
    {
        if max_group_at_exec(s, q, lead, tail).is_some() {
            return Some(q);
        }
        if q == from {
            assert(last_max_group(s@, from as int, q - 1) is None);
            return None;
        }
        q = q - 1;
    }
}

/// The absolute and maximum RAM sizes stated in compiler output.
pub fn ram_sizes(output: &str) -> (r: (Option<i64>, Option<u64>))
    ensures
        ram_captures(output@) == (
            match r.0 { Some(v) => Some(v as int), None => None },
            match r.1 { Some(v) => Some(v as int), None => None },
        ),
{
    let s = chars_of(output);
    let lead = chars_of("Global variables use ");
    let anchor = chars_of("of dynamic memory");
    let sep = chars_of(" bytes ");
    let mlead = chars_of(" Maximum is ");
    let mtail = chars_of(" bytes.");
    match first_size_line_exec(&s, &lead, &anchor, &sep) {
        Some((a, b, p)) => {
            proof {
                lemma_first_size_line(s@, 0, lead@, anchor@);
                lemma_find_char_from(s@, p as int, '\n');
            }
            let abs = parse_capture(&s, Some((a, b)), 9223372036854775807u64);
            let le = find_char(&s, p, '\n');
            let group = match last_max_group_exec(&s, p, le, &mlead, &mtail) {
                Some(q) => {
                    proof {
                        lemma_max_group_at(s@, q as int);
                    }
                    max_group_at_exec(&s, q, &mlead, &mtail)
                },
                None => None,
            };
            let max = parse_capture(&s, opt_range_view(group), u64::MAX);
            let abs_i: Option<i64> = match abs {
                Some(v) => Some(v as i64),
                None => None,
            };
            (abs_i, max)
        },
        None => (None, None),
    }
}


// ---------------------------------------------------------------------------------------
// Sizes come from the first lines that state them
// ---------------------------------------------------------------------------------------

/// `lit` holds no line break.
pub open spec fn no_newline(lit: Seq<char>) -> bool {
    forall|m: int| 0 <= m < lit.len() ==> lit[m] != '\n'
}

/// `t` is `a` followed by a line break (and possibly more).
pub open spec fn extends_with_newline(a: Seq<char>, t: Seq<char>) -> bool {
    &&& a.len() < t.len()
    &&& forall|j: int| 0 <= j < a.len() ==> t[j] == a[j]
    &&& t[a.len() as int] == '\n'
}

proof fn lemma_literals_have_no_newline()
    ensures
        no_newline(flash_lead()),
        no_newline(flash_anchor()),
        no_newline(ram_lead()),
        no_newline(ram_anchor()),
        no_newline(bytes_sep()),
        no_newline(max_lead()),
        no_newline(max_tail()),
{
    reveal_strlit("Sketch uses ");
    reveal_strlit("of program storage space");
    reveal_strlit("Global variables use ");
    reveal_strlit("of dynamic memory");
    reveal_strlit(" bytes ");
    reveal_strlit(" Maximum is ");
    reveal_strlit(" bytes.");
}

proof fn lemma_occurs_at_prefix(a: Seq<char>, t: Seq<char>, i: int, lit: Seq<char>)
    requires
        extends_with_newline(a, t),
        0 <= i <= a.len(),
        no_newline(lit),
    ensures
        occurs_at(t, i, lit) == occurs_at(a, i, lit),
{
    if i + lit.len() <= a.len() {
        assert(t.subrange(i, i + lit.len()) =~= a.subrange(i, i + lit.len()));
    } else if i + lit.len() <= t.len() {
        assert(t.subrange(i, i + lit.len())[a.len() - i] == t[a.len() as int]);
        assert(lit[a.len() - i] != '\n');
    }
}

proof fn lemma_line_end_prefix(a: Seq<char>, t: Seq<char>, from: int)
    requires
        extends_with_newline(a, t),
        0 <= from <= a.len(),
    ensures
        find_char_from(t, from, '\n') == find_char_from(a, from, '\n'),
    decreases a.len() - from,
{
    if from < a.len() {
        assert(t[from] == a[from]);
        lemma_line_end_prefix(a, t, from + 1);
    }
}

proof fn lemma_last_occurrence_prefix(a: Seq<char>, t: Seq<char>, lit: Seq<char>, from: int, to: int)
    requires
        extends_with_newline(a, t),
        0 <= from,
        to <= a.len(),
        no_newline(lit),
    ensures
        last_occurrence(t, lit, from, to) == last_occurrence(a, lit, from, to),
    decreases to - from + 1,
{
    if to >= from {
        lemma_occurs_at_prefix(a, t, to, lit);
        lemma_last_occurrence_prefix(a, t, lit, from, to - 1);
    }
}

proof fn lemma_size_line_at_prefix(a: Seq<char>, t: Seq<char>, i: int, lead: Seq<char>, anchor: Seq<char>)
    requires
        extends_with_newline(a, t),
        0 <= i <= a.len(),
        no_newline(lead),
        no_newline(anchor),
    ensures
        size_line_at(t, i, lead, anchor) == size_line_at(a, i, lead, anchor),
{
    lemma_literals_have_no_newline();
    lemma_occurs_at_prefix(a, t, i, lead);
    let ds = i + lead.len();
    if occurs_at(a, i, lead) {
        lemma_digit_run_end_prefix(a, t, ds);
        lemma_digit_run_end(a, ds);
        let de = digit_run_end(a, ds);
        lemma_occurs_at_prefix(a, t, de, bytes_sep());
        if occurs_at(a, de, bytes_sep()) {
            let q0 = de + bytes_sep().len();
            lemma_line_end_prefix(a, t, q0);
            lemma_find_char_from(a, q0, '\n');
            lemma_last_occurrence_prefix(a, t, anchor, q0, line_end(a, q0));
        }
    }
}

proof fn lemma_first_size_line_prefix(a: Seq<char>, t: Seq<char>, i: int, lead: Seq<char>, anchor: Seq<char>)
    requires
        extends_with_newline(a, t),
        0 <= i <= a.len(),
        no_newline(lead),
        no_newline(anchor),
        first_size_line(a, i, lead, anchor) is Some,
    ensures
        first_size_line(t, i, lead, anchor) == first_size_line(a, i, lead, anchor),
    decreases a.len() - i,
{
    lemma_size_line_at_prefix(a, t, i, lead, anchor);
    if size_line_at(a, i, lead, anchor) is None {
        lemma_first_size_line_prefix(a, t, i + 1, lead, anchor);
    }
}

proof fn lemma_max_group_at_prefix(a: Seq<char>, t: Seq<char>, q: int)
    requires
        extends_with_newline(a, t),
        0 <= q <= a.len(),
    ensures
        max_group_at(t, q) == max_group_at(a, q),
        max_group_at(a, q) matches Some((x, y)) ==> 0 <= x <= y <= a.len(),
{
    lemma_literals_have_no_newline();
    lemma_occurs_at_prefix(a, t, q, max_lead());
    lemma_max_group_at(a, q);
    if occurs_at(a, q, max_lead()) {
        let ds = q + max_lead().len();
        lemma_digit_run_end_prefix(a, t, ds);
        lemma_digit_run_end(a, ds);
        lemma_occurs_at_prefix(a, t, digit_run_end(a, ds), max_tail());
    }
}

proof fn lemma_last_max_group_prefix(a: Seq<char>, t: Seq<char>, from: int, to: int)
    requires
        extends_with_newline(a, t),
        0 <= from,
        to <= a.len(),
    ensures
        last_max_group(t, from, to) == last_max_group(a, from, to),
        last_max_group(a, from, to) matches Some(q) ==> from <= q <= to,
    decreases to - from + 1,
{
    if to >= from {
        lemma_max_group_at_prefix(a, t, to);
        lemma_last_max_group_prefix(a, t, from, to - 1);
    }
}

proof fn lemma_captures_prefix(a: Seq<char>, t: Seq<char>, range: Option<(int, int)>, limit: int)
    requires
        extends_with_newline(a, t),
        range matches Some((x, y)) ==> 0 <= x <= y <= a.len(),
    ensures
        parsed_capture(t, range, limit) == parsed_capture(a, range, limit),
{
    if let Some((x, y)) = range {
        assert(t.subrange(x, y) =~= a.subrange(x, y));
    }
}

/// Sizes are read from the first lines that state them: lines that follow change nothing.
pub proof fn law_sizes_from_first_stating_lines(a: Seq<char>, b: Seq<char>)
    ensures
        first_size_line(a, 0, flash_lead(), flash_anchor()) is Some ==> flash_captures(
            a + seq!['\n'] + b,
        ) == flash_captures(a),
        first_size_line(a, 0, ram_lead(), ram_anchor()) is Some ==> ram_captures(a + seq!['\n'] + b)
            == ram_captures(a),
{
    let t = a + seq!['\n'] + b;
    assert(extends_with_newline(a, t)) by {
        assert forall|j: int| 0 <= j < a.len() implies t[j] == a[j] by {
            assert(t[j] == (a + seq!['\n'])[j]);
        }
        assert(t[a.len() as int] == (a + seq!['\n'])[a.len() as int]);
    }
    lemma_literals_have_no_newline();
    if first_size_line(a, 0, flash_lead(), flash_anchor()) is Some {
        lemma_first_size_line_prefix(a, t, 0, flash_lead(), flash_anchor());
        lemma_first_size_line(a, 0, flash_lead(), flash_anchor());
        let (x, y, p) = first_size_line(a, 0, flash_lead(), flash_anchor()).unwrap();
        lemma_captures_prefix(a, t, Some((x, y)), i64::MAX as int);
        if 0 <= p < a.len() && a[p] == '.' {
            assert(t[p] == a[p]);
            lemma_max_group_at_prefix(a, t, p + 1);
        } else {
            if p == a.len() {
                assert(t[p] == '\n');
            } else {
                assert(t[p] == a[p]);
            }
            lemma_max_group_at_prefix(a, t, p);
        }
        lemma_captures_prefix(a, t, flash_max_group(a, p), u64::MAX as int);
    }
    if first_size_line(a, 0, ram_lead(), ram_anchor()) is Some {
        lemma_first_size_line_prefix(a, t, 0, ram_lead(), ram_anchor());
        lemma_first_size_line(a, 0, ram_lead(), ram_anchor());
        let (x, y, p) = first_size_line(a, 0, ram_lead(), ram_anchor()).unwrap();
        lemma_captures_prefix(a, t, Some((x, y)), i64::MAX as int);
        lemma_line_end_prefix(a, t, p);
        lemma_find_char_from(a, p, '\n');
        lemma_last_max_group_prefix(a, t, p, line_end(a, p));
        if let Some(q) = last_max_group(a, p, line_end(a, p)) {
            lemma_max_group_at_prefix(a, t, q);
        }
        lemma_captures_prefix(a, t, ram_max_group(a, p), u64::MAX as int);
    }
}

// ---------------------------------------------------------------------------------------
// Warnings
// ---------------------------------------------------------------------------------------

/// A GCC warning marker `:LINE:COLUMN: warning:` at `i`: the index just after it.
pub open spec fn warning_at(s: Seq<char>, i: int) -> Option<int> {
    let d1 = digit_run_end(s, i + 1);
    let d2 = digit_run_end(s, d1 + 1);
    if 0 <= i < s.len() && s[i] == ':' && d1 > i + 1 && d1 < s.len() && s[d1] == ':' && d2 > d1
        + 1 && occurs_at(s, d2, warning_tail()) {
        Some(d2 + warning_tail().len())
    } else {
        None
    }
}

/// The number of non-overlapping warning markers in `s[i..]`, found left to right.
pub open spec fn warning_count_from(s: Seq<char>, i: int) -> nat
    decreases s.len() - i,
{
    if i < 0 || i >= s.len() {
        0
    } else {
        match warning_at(s, i) {
            Some(e) => if i < e <= s.len() {
                1 + warning_count_from(s, e)
            } else {
                0
            },
            None => warning_count_from(s, i + 1),
        }
    }
}

/// The number of warnings that GCC reported in compiler output.
pub open spec fn warning_count(s: Seq<char>) -> nat {
    warning_count_from(s, 0)
}

proof fn lemma_warning_at(s: Seq<char>, i: int)
    requires
        0 <= i < s.len(),
    ensures
        warning_at(s, i) matches Some(e) ==> i < e <= s.len(),
{
    lemma_digit_run_end(s, i + 1);
    let d1 = digit_run_end(s, i + 1);
    if d1 < s.len() {
        lemma_digit_run_end(s, d1 + 1);
    }
}

proof fn lemma_warning_count_bound(s: Seq<char>, i: int)
    requires
        0 <= i <= s.len(),
    ensures
        warning_count_from(s, i) <= s.len() - i,
    decreases s.len() - i,
{
    if i < s.len() {
        lemma_warning_at(s, i);
        match warning_at(s, i) {
            Some(e) => {
                lemma_warning_count_bound(s, e);
            },
            None => {
                lemma_warning_count_bound(s, i + 1);
            },
        }
    }
}

proof fn lemma_digit_run_end_shift(p: Seq<char>, b: Seq<char>, k: int)
    requires
        0 <= k,
    ensures
        digit_run_end(p + b, p.len() + k) == p.len() + digit_run_end(b, k),
    decreases b.len() - k,
{
    if k < b.len() {
        assert((p + b)[p.len() + k] == b[k]);
        if is_digit(b[k]) {
            lemma_digit_run_end_shift(p, b, k + 1);
        }
    }
}

proof fn lemma_digit_run_end_prefix(a: Seq<char>, t: Seq<char>, k: int)
    requires
        0 <= k <= a.len() < t.len(),
        forall|j: int| 0 <= j < a.len() ==> t[j] == a[j],
        t[a.len() as int] == '\n',
    ensures
        digit_run_end(t, k) == digit_run_end(a, k),
    decreases a.len() - k,
{
    if k < a.len() {
        assert(t[k] == a[k]);
        if is_digit(a[k]) {
            lemma_digit_run_end_prefix(a, t, k + 1);
        }
    }
}

proof fn lemma_warning_at_shift(p: Seq<char>, b: Seq<char>, k: int)
    requires
        0 <= k < b.len(),
    ensures
        warning_at(p + b, p.len() + k) == match warning_at(b, k) {
            Some(e) => Some(p.len() + e),
            None => None,
        },
{
    let t = p + b;
    let i = p.len() + k;
    assert(t[i] == b[k]);
    lemma_digit_run_end_shift(p, b, k + 1);
    lemma_digit_run_end(b, k + 1);
    let d1 = digit_run_end(b, k + 1);
    assert(digit_run_end(t, i + 1) == p.len() + d1);
    lemma_digit_run_end_shift(p, b, d1 + 1);
    let d2 = digit_run_end(b, d1 + 1);
    assert(digit_run_end(t, p.len() + d1 + 1) == p.len() + d2);
    if d1 < b.len() {
        assert(t[p.len() + d1] == b[d1]);
    }
    let tail = warning_tail();
    if d2 >= 0 && d2 + tail.len() <= b.len() {
        assert(t.subrange(p.len() + d2, p.len() + d2 + tail.len()) =~= b.subrange(d2, d2 + tail.len()));
    }
}

proof fn lemma_warning_count_shift(p: Seq<char>, b: Seq<char>, j: int)
    requires
        0 <= j <= b.len(),
    ensures
        warning_count_from(p + b, p.len() + j) == warning_count_from(b, j),
    decreases b.len() - j,
{
    if j < b.len() {
        lemma_warning_at_shift(p, b, j);
        lemma_warning_at(b, j);
        match warning_at(b, j) {
            Some(e) => {
                lemma_warning_count_shift(p, b, e);
            },
            None => {
                lemma_warning_count_shift(p, b, j + 1);
            },
        }
    }
}

proof fn lemma_warning_at_prefix(a: Seq<char>, t: Seq<char>, i: int)
    requires
        0 <= i < a.len() < t.len(),
        forall|j: int| 0 <= j < a.len() ==> t[j] == a[j],
        t[a.len() as int] == '\n',
    ensures
        warning_at(t, i) == warning_at(a, i),
{
    reveal_strlit(": warning:");
    let tail = warning_tail();
    assert(t[i] == a[i]);
    lemma_digit_run_end_prefix(a, t, i + 1);
    lemma_digit_run_end(a, i + 1);
    let d1 = digit_run_end(a, i + 1);
    if d1 < a.len() {
        assert(t[d1] == a[d1]);
        lemma_digit_run_end_prefix(a, t, d1 + 1);
        lemma_digit_run_end(a, d1 + 1);
        let d2 = digit_run_end(a, d1 + 1);
        if d2 + tail.len() <= a.len() {
            assert(t.subrange(d2, d2 + tail.len()) =~= a.subrange(d2, d2 + tail.len()));
        } else if d2 + tail.len() <= t.len() {
            assert(t.subrange(d2, d2 + tail.len())[a.len() - d2] == t[a.len() as int]);
            assert(tail[a.len() - d2] != '\n');
        }
    }
}

proof fn lemma_warning_count_prefix(a: Seq<char>, t: Seq<char>, i: int)
    requires
        0 <= i <= a.len() < t.len(),
        forall|j: int| 0 <= j < a.len() ==> t[j] == a[j],
        t[a.len() as int] == '\n',
    ensures
        warning_count_from(t, i) == warning_count_from(a, i) + warning_count_from(t, a.len() as int),
    decreases a.len() - i,
{
    if i < a.len() {
        lemma_warning_at_prefix(a, t, i);
        lemma_warning_at(a, i);
        match warning_at(a, i) {
            Some(e) => {
                lemma_warning_count_prefix(a, t, e);
            },
            None => {
                lemma_warning_count_prefix(a, t, i + 1);
            },
        }
    }
}

/// The warnings of an output are the warnings of its lines added up: no warning marker
/// spans a line break.
pub proof fn law_warnings_of_lines_add_up(a: Seq<char>, b: Seq<char>)
    ensures
        warning_count(a + seq!['\n'] + b) == warning_count(a) + warning_count(b),
{
    let p = a + seq!['\n'];
    let t = p + b;
    assert forall|j: int| 0 <= j < a.len() implies t[j] == a[j] by {
        assert(t[j] == p[j]);
    }
    assert(t[a.len() as int] == '\n');
    lemma_warning_count_prefix(a, t, 0);
    assert(warning_at(t, a.len() as int) is None);
    lemma_warning_count_shift(p, b, 0);
}

fn warning_at_exec(s: &Vec<char>, i: usize, tail: &Vec<char>) -> (r: Option<usize>)
    requires
        i < s.len(),
        tail@ == warning_tail(),
    ensures
        match r {
            Some(e) => warning_at(s@, i as int) == Some(e as int),
            None => warning_at(s@, i as int) is None,
        },
{
    if s[i] != ':' {
        return None;
    }
    let d1 = digit_run_end_exec(s, i + 1);
    proof {
        lemma_digit_run_end(s@, i + 1);
    }
    if d1 == i + 1 || d1 >= s.len() || s[d1] != ':' {
        return None;
    }
    let d2 = digit_run_end_exec(s, d1 + 1);
    proof {
        lemma_digit_run_end(s@, d1 + 1);
    }
    if d2 == d1 + 1 || !occurs_at_exec(s, d2, tail) {
        return None;
    }
    Some(d2 + tail.len())
}

/// The number of warnings that GCC reported in compiler output (non-overlapping
/// `:LINE:COLUMN: warning:` markers).
pub fn count_warnings(output: &str) -> (r: usize)
    ensures
        r == warning_count(output@),
{
    let s = chars_of(output);
    let tail = chars_of(": warning:");
    let mut count: usize = 0;
    let mut i: usize = 0;
    proof {
        lemma_warning_count_bound(s@, 0);
    }
    while i < s.len()
        invariant
            i <= s.len(),
            tail@ == warning_tail(),
            count + warning_count_from(s@, i as int) == warning_count(s@),
            warning_count(s@) <= s.len(),
        decreases s.len() - i,
    {
        proof {
            lemma_warning_at(s@, i as int);
        }
        match warning_at_exec(&s, i, &tail) {
            Some(e) => {
                proof {
                    lemma_warning_count_bound(s@, e as int);
                }
                count = count + 1;
                i = e;
            },
            None => {
                i = i + 1;
            },
        }
    }
    count
}

// ---------------------------------------------------------------------------------------
// Version of arduino-cli
// ---------------------------------------------------------------------------------------

/// A character of the class `[0-9-rc.]`.
pub open spec fn is_version_char(c: char) -> bool {
    is_digit(c) || c == '-' || c == 'r' || c == 'c' || c == '.'
}

/// End of the run of characters of `[0-9-rc.]` that starts at `i`.
pub open spec fn version_run_end(s: Seq<char>, i: int) -> int
    decreases s.len() - i,
{
    if i < 0 || i >= s.len() || !is_version_char(s[i]) {
        i
    } else {
        version_run_end(s, i + 1)
    }
}

/// Index of the first `v` or `V` at or after `i` (or the end of `s`).
pub open spec fn first_v(s: Seq<char>, i: int) -> int
    decreases s.len() - i,
{
    if i < 0 || i >= s.len() || s[i] == 'v' || s[i] == 'V' {
        i
    } else {
        first_v(s, i + 1)
    }
}

/// Index of the first ASCII digit at or after `i` (or the end of `s`).
pub open spec fn first_digit(s: Seq<char>, i: int) -> int
    decreases s.len() - i,
{
    if i < 0 || i >= s.len() || is_digit(s[i]) {
        i
    } else {
        first_digit(s, i + 1)
    }
}

/// A match of `i[^vV]*Version:[^0-9]*([0-9]+\.[0-9]+\.[0-9-rc.]+).*` starting at `i`:
/// the range of the captured version number.
pub open spec fn version_at(s: Seq<char>, i: int) -> Option<(int, int)> {
    let t = first_v(s, i + 1);
    let u = first_digit(s, t + version_label().len());
    let a = digit_run_end(s, u);
    let b = digit_run_end(s, a + 1);
    let c = version_run_end(s, b + 1);
    if 0 <= i < s.len() && s[i] == 'i' && occurs_at(s, t, version_label()) && u < s.len() && a
        < s.len() && s[a] == '.' && b > a + 1 && b < s.len() && s[b] == '.' && c > b + 1 {
        Some((u, c))
    } else {
        None
    }
}

/// The leftmost match of the version pattern at or after `i`.
pub open spec fn first_version(s: Seq<char>, i: int) -> Option<(int, int)>
    decreases s.len() - i,
{
    if i < 0 || i >= s.len() {
        None
    } else {
        match version_at(s, i) {
            Some(m) => Some(m),
            None => first_version(s, i + 1),
        }
    }
}

/// The version number stated in the output of `arduino-cli version`, if any.
pub open spec fn stated_version(s: Seq<char>) -> Option<Seq<char>> {
    match first_version(s, 0) {
        Some((a, b)) => Some(s.subrange(a, b)),
        None => None,
    }
}

proof fn lemma_scan_bounds(s: Seq<char>, i: int)
    requires
        0 <= i <= s.len(),
    ensures
        i <= first_v(s, i) <= s.len(),
        i <= first_digit(s, i) <= s.len(),
        i <= version_run_end(s, i) <= s.len(),
        i <= digit_run_end(s, i) <= s.len(),
    decreases s.len() - i,
{
    if i < s.len() {
        lemma_scan_bounds(s, i + 1);
    }
}

fn first_v_exec(s: &Vec<char>, i: usize) -> (r: usize)
    requires
        i <= s.len(),
    ensures
        r == first_v(s@, i as int),
{
    let mut j = i;
    while j < s.len() && s[j] != 'v' && s[j] != 'V'
        invariant
            i <= j <= s.len(),
            first_v(s@, i as int) == first_v(s@, j as int),
        decreases s.len() - j,
    {
        j = j + 1;
    }
    j
}

fn first_digit_exec(s: &Vec<char>, i: usize) -> (r: usize)
    requires
        i <= s.len(),
    ensures
        r == first_digit(s@, i as int),
{
    let mut j = i;
    while j < s.len() && !('0' <= s[j] && s[j] <= '9')
        invariant
            i <= j <= s.len(),
            first_digit(s@, i as int) == first_digit(s@, j as int),
        decreases s.len() - j,
    {
        j = j + 1;
    }
    j
}

fn version_run_end_exec(s: &Vec<char>, i: usize) -> (r: usize)
    requires
        i <= s.len(),
    ensures
        r == version_run_end(s@, i as int),
{
    let mut j = i;
    while j < s.len() && (('0' <= s[j] && s[j] <= '9') || s[j] == '-' || s[j] == 'r' || s[j] == 'c'
        || s[j] == '.')
        invariant
            i <= j <= s.len(),
            version_run_end(s@, i as int) == version_run_end(s@, j as int),
        decreases s.len() - j,
    {
        j = j + 1;
    }
    j
}

fn version_at_exec(s: &Vec<char>, i: usize, label: &Vec<char>) -> (r: Option<(usize, usize)>)
    requires
        i < s.len(),
        label@ == version_label(),
    ensures
        match r {
            Some((a, b)) => version_at(s@, i as int) == Some((a as int, b as int)) && a <= b
                <= s.len(),
            None => version_at(s@, i as int) is None,
        },
{
    if s[i] != 'i' {
        return None;
    }
    let t = first_v_exec(s, i + 1);
    proof {
        lemma_scan_bounds(s@, i + 1);
    }
    if !occurs_at_exec(s, t, label) {
        return None;
    }
    let u = first_digit_exec(s, t + label.len());
    proof {
        lemma_scan_bounds(s@, t + label.len());
    }
    if u >= s.len() {
        return None;
    }
    let a = digit_run_end_exec(s, u);
    proof {
        lemma_scan_bounds(s@, u as int);
    }
    if a >= s.len() || s[a] != '.' {
        return None;
    }
    let b = digit_run_end_exec(s, a + 1);
    proof {
        lemma_scan_bounds(s@, a + 1);
    }
    if b == a + 1 || b >= s.len() || s[b] != '.' {
        return None;
    }
    let c = version_run_end_exec(s, b + 1);
    proof {
        lemma_scan_bounds(s@, b + 1);
    }
    if c == b + 1 {
        return None;
    }
    Some((u, c))
}

/// The version number stated in the output of `arduino-cli version`, if any.
pub fn find_stated_version(output: &str) -> (r: Option<String>)
    ensures
        match r {
            Some(v) => stated_version(output@) == Some(v@),
            None => stated_version(output@) is None,
        },
{
    let s = chars_of(output);
    let label = chars_of("Version:");
    let mut i: usize = 0;
    while i < s.len()
        invariant
            i <= s.len(),
            s@ == output@,
            label@ == version_label(),
            first_version(s@, 0) == first_version(s@, i as int),
        decreases s.len() - i,
    {
        if let Some((a, b)) = version_at_exec(&s, i, &label) {
            assert(first_version(s@, 0) == Some((a as int, b as int)));
            let mut out: Vec<char> = Vec::new();
            let mut k = a;
            while k < b
                invariant
                    a <= k <= b <= s.len(),
                    s@ == output@,
                    first_version(s@, 0) == Some((a as int, b as int)),
                    out@ == s@.subrange(a as int, k as int),
                decreases b - k,
            {
                out.push(s[k]);
                k = k + 1;
                assert(out@ =~= s@.subrange(a as int, k as int));
            }
            return Some(crate::text::string_from_chars(&out));
        }
        i = i + 1;
    }
    None
}

} // verus!
