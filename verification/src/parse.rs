//! The document grammar and its parser.
//!
//! A document is line-oriented: `key = value` bindings, `[[name]]` block
//! headers, blank lines and `#` comments. Values are single- or
//! double-quoted strings (no escapes), signed decimal numbers of at most 19
//! digits, bracketed arrays, and braced inline tables; arrays and inline
//! tables may span lines and allow a trailing comma.
//!
//! The grammar is stated once, as spec functions over the byte sequence;
//! the executable parser is proved to return exactly what they say.

use vstd::prelude::*;
use crate::model::Number;
use crate::raw::{Pair, PairV, RawDoc, RawDocV, Section, SectionV, Value, ValueV, docview, pview, pview_seq, secview_seq, vview, vview_seq};

verus! {

pub open spec fn is_ws(b: u8) -> bool {
    b == 32 || b == 9 || b == 13
}

pub open spec fn is_nl(b: u8) -> bool {
    b == 10
}

pub open spec fn is_digit(b: u8) -> bool {
    48 <= b && b <= 57
}

pub open spec fn is_key_byte(b: u8) -> bool {
    is_digit(b) || (97 <= b && b <= 122) || (65 <= b && b <= 90) || b == 95 || b == 45
}

pub open spec fn is_quote(b: u8) -> bool {
    b == 39 || b == 34
}

/// End of the run of inline whitespace starting at `i`.
pub open spec fn sk_ws(s: Seq<u8>, i: int) -> int
    decreases s.len() - i,
{
    if 0 <= i && i < s.len() && is_ws(s[i]) {
        sk_ws(s, i + 1)
    } else {
        i
    }
}

/// First newline at or after `i`, or the end of the input.
pub open spec fn sk_to_nl(s: Seq<u8>, i: int) -> int
    decreases s.len() - i,
{
    if 0 <= i && i < s.len() && !is_nl(s[i]) {
        sk_to_nl(s, i + 1)
    } else {
        i
    }
}

/// End of the run of whitespace, newlines and comments starting at `i`;
/// `in_comment` tells whether `i` itself stands inside a comment.
pub open spec fn sk_filler(s: Seq<u8>, i: int, in_comment: bool) -> int
    decreases s.len() - i,
{
    if 0 <= i && i < s.len() {
        if in_comment {
            sk_filler(s, i + 1, !is_nl(s[i]))
        } else if is_ws(s[i]) || is_nl(s[i]) {
            sk_filler(s, i + 1, false)
        } else if s[i] == 35 {
            sk_filler(s, i + 1, true)
        } else {
            i
        }
    } else {
        i
    }
}

/// End of the run of decimal digits starting at `i`.
pub open spec fn sk_digits(s: Seq<u8>, i: int) -> int
    decreases s.len() - i,
{
    if 0 <= i && i < s.len() && is_digit(s[i]) {
        sk_digits(s, i + 1)
    } else {
        i
    }
}

/// End of the run of key bytes starting at `i`.
pub open spec fn sk_key(s: Seq<u8>, i: int) -> int
    decreases s.len() - i,
{
    if 0 <= i && i < s.len() && is_key_byte(s[i]) {
        sk_key(s, i + 1)
    } else {
        i
    }
}

/// End of a quoted string's body: the first closing quote, newline or end
/// of input at or after `i`.
pub open spec fn sk_str_body(s: Seq<u8>, i: int, q: u8) -> int
    decreases s.len() - i,
{
    if 0 <= i && i < s.len() && s[i] != q && !is_nl(s[i]) {
        sk_str_body(s, i + 1, q)
    } else {
        i
    }
}

/// The digits of `s[i..j)` folded onto `acc`, most significant first.
pub open spec fn digits_acc(s: Seq<u8>, i: int, j: int, acc: int) -> int
    decreases j - i,
{
    if 0 <= i && i < j {
        digits_acc(s, i + 1, j, acc * 10 + (s[i] as int - 48))
    } else {
        acc
    }
}

pub open spec fn pow10(n: nat) -> int
    decreases n,
{
    if n == 0 {
        1
    } else {
        10 * pow10((n - 1) as nat)
    }
}

pub proof fn lemma_pow10_mono(a: nat, b: nat)
    requires
        a <= b,
    ensures
        1 <= pow10(a) <= pow10(b),
    decreases b,
{
    if b == 0 {
    } else if a == b {
        lemma_pow10_mono((a - 1) as nat, (b - 1) as nat);
    } else {
        lemma_pow10_mono(a, (b - 1) as nat);
    }
}

/// A signed decimal literal at `i`: optional sign, digits, and an optional
/// dot with more digits; at most 19 digits in all.
pub open spec fn sp_number(s: Seq<u8>, i: int) -> Option<(Number, int)> {
    let neg = 0 <= i && i < s.len() && s[i] == 45;
    let signed = neg || (0 <= i && i < s.len() && s[i] == 43);
    let i1 = if signed {
        i + 1
    } else {
        i
    };
    let d1 = sk_digits(s, i1);
    if d1 == i1 {
        None
    } else if d1 < s.len() && s[d1] == 46 {
        let d2 = sk_digits(s, d1 + 1);
        if d2 == d1 + 1 {
            None
        } else if (d1 - i1) + (d2 - d1 - 1) > 19 {
            None
        } else {
            let m = digits_acc(s, d1 + 1, d2, digits_acc(s, i1, d1, 0));
            Some(
                (
                    Number {
                        neg: neg && m != 0,
                        mantissa: m as u64,
                        scale: (d2 - d1 - 1) as u32,
                    },
                    d2,
                ),
            )
        }
    } else if d1 - i1 > 19 {
        None
    } else {
        let m = digits_acc(s, i1, d1, 0);
        Some((Number { neg: neg && m != 0, mantissa: m as u64, scale: 0u32 }, d1))
    }
}

/// A quoted string at `i`: its raw bytes, which may not hold the quote
/// itself or a newline.
pub open spec fn sp_string(s: Seq<u8>, i: int) -> Option<(Seq<u8>, int)> {
    if 0 <= i && i < s.len() && is_quote(s[i]) {
        let q = s[i];
        let e = sk_str_body(s, i + 1, q);
        if e < s.len() && s[e] == q {
            Some((s.subrange(i + 1, e), e + 1))
        } else {
            None
        }
    } else {
        None
    }
}

/// A non-empty bare key at `i`.
pub open spec fn sp_key(s: Seq<u8>, i: int) -> Option<(Seq<u8>, int)> {
    let j = sk_key(s, i);
    if 0 <= i && i < j {
        Some((s.subrange(i, j), j))
    } else {
        None
    }
}

fn at(s: &[u8], i: usize) -> (b: u8)
    requires
        i < s@.len(),
    ensures
        b == s@[i as int],
{
    *vstd::slice::slice_index_get(s, i)
}

pub(crate) fn ws_end(s: &[u8], i: usize) -> (r: usize)
    requires
        i <= s@.len(),
    ensures
        i <= r <= s@.len(),
        r == sk_ws(s@, i as int),
{
    let mut j: usize = i;
    while j < s.len() && (at(s, j) == 32 || at(s, j) == 9 || at(s, j) == 13)
        invariant
            i <= j <= s@.len(),
            sk_ws(s@, i as int) == sk_ws(s@, j as int),
        decreases s@.len() - j,
    {
        j = j + 1;
    }
    j
}

pub(crate) fn to_nl_end(s: &[u8], i: usize) -> (r: usize)
    requires
        i <= s@.len(),
    ensures
        i <= r <= s@.len(),
        r == sk_to_nl(s@, i as int),
{
    let mut j: usize = i;
    while j < s.len() && at(s, j) != 10
        invariant
            i <= j <= s@.len(),
            sk_to_nl(s@, i as int) == sk_to_nl(s@, j as int),
        decreases s@.len() - j,
    {
        j = j + 1;
    }
    j
}

pub(crate) fn filler_end(s: &[u8], i: usize) -> (r: usize)
    requires
        i <= s@.len(),
    ensures
        i <= r <= s@.len(),
        r == sk_filler(s@, i as int, false),
{
    let mut j: usize = i;
    let mut in_comment: bool = false;
    loop
        invariant
            i <= j <= s@.len(),
            sk_filler(s@, i as int, false) == sk_filler(s@, j as int, in_comment),
        decreases s@.len() - j, if in_comment { 1int } else { 0int },
    {
        if j >= s.len() {
            return j;
        }
        let b = at(s, j);
        if in_comment {
            in_comment = b != 10;
            j = j + 1;
        } else if b == 32 || b == 9 || b == 13 || b == 10 {
            j = j + 1;
        } else if b == 35 {
            in_comment = true;
            j = j + 1;
        } else {
            return j;
        }
    }
}

pub(crate) fn digits_end(s: &[u8], i: usize) -> (r: usize)
    requires
        i <= s@.len(),
    ensures
        i <= r <= s@.len(),
        r == sk_digits(s@, i as int),
        forall|k: int| i <= k < r ==> is_digit(s@[k]),
{
    let mut j: usize = i;
    while j < s.len() && at(s, j) >= 48 && at(s, j) <= 57
        invariant
            i <= j <= s@.len(),
            sk_digits(s@, i as int) == sk_digits(s@, j as int),
            forall|k: int| i <= k < j ==> is_digit(s@[k]),
        decreases s@.len() - j,
    {
        j = j + 1;
    }
    j
}

fn key_byte(b: u8) -> (r: bool)
    ensures
        r == is_key_byte(b),
{
    (48 <= b && b <= 57) || (97 <= b && b <= 122) || (65 <= b && b <= 90) || b == 95 || b == 45
}

pub(crate) fn key_end(s: &[u8], i: usize) -> (r: usize)
    requires
        i <= s@.len(),
    ensures
        i <= r <= s@.len(),
        r == sk_key(s@, i as int),
{
    let mut j: usize = i;
    while j < s.len() && key_byte(at(s, j))
        invariant
            i <= j <= s@.len(),
            sk_key(s@, i as int) == sk_key(s@, j as int),
        decreases s@.len() - j,
    {
        j = j + 1;
    }
    j
}

pub(crate) fn str_body_end(s: &[u8], i: usize, q: u8) -> (r: usize)
    requires
        i <= s@.len(),
    ensures
        i <= r <= s@.len(),
        r == sk_str_body(s@, i as int, q),
{
    let mut j: usize = i;
    while j < s.len() && at(s, j) != q && at(s, j) != 10
        invariant
            i <= j <= s@.len(),
            sk_str_body(s@, i as int, q) == sk_str_body(s@, j as int, q),
        decreases s@.len() - j,
    {
        j = j + 1;
    }
    j
}

/// Fold the digit run `s[from..to)` onto `start`, keeping the running value
/// below `pow10` of the digits seen.
fn acc_digits(s: &[u8], from: usize, to: usize, start: u64, Ghost(c0): Ghost<nat>) -> (r: u64)
    requires
        from <= to <= s@.len(),
        forall|k: int| from <= k < to ==> is_digit(s@[k]),
        (start as int) < pow10(c0),
        c0 + (to - from) <= 19,
    ensures
        r as int == digits_acc(s@, from as int, to as int, start as int),
        (r as int) < pow10((c0 + (to - from)) as nat),
{
    proof {
        assert(pow10(19nat) == 10000000000000000000) by {
            reveal_with_fuel(pow10, 21);
        }
    }
    let mut acc: u64 = start;
    let mut k: usize = from;
    while k < to
        invariant
            from <= k <= to <= s@.len(),
            forall|kk: int| from <= kk < to ==> is_digit(s@[kk]),
            digits_acc(s@, from as int, to as int, start as int) == digits_acc(
                s@,
                k as int,
                to as int,
                acc as int,
            ),
            (acc as int) < pow10((c0 + (k - from)) as nat),
            c0 + (to - from) <= 19,
            pow10(19nat) == 10000000000000000000,
        decreases to - k,
    {
        let d = at(s, k);
        proof {
            lemma_pow10_mono((c0 + (k - from)) as nat, 18nat);
        }
        acc = acc * 10 + ((d - 48) as u64);
        k = k + 1;
    }
    acc
}

/// Parse a number literal, exactly as [`sp_number`] reads it.
pub(crate) fn p_number(s: &[u8], i: usize) -> (r: Option<(Number, usize)>)
    requires
        i <= s@.len(),
    ensures
        match r {
            Some((n, j)) => sp_number(s@, i as int) == Some((n, j as int)) && i < j <= s@.len(),
            None => sp_number(s@, i as int) is None,
        },
{
    let mut neg: bool = false;
    let mut i1: usize = i;
    if i < s.len() {
        let b = at(s, i);
        if b == 45 {
            neg = true;
            i1 = i + 1;
        } else if b == 43 {
            i1 = i + 1;
        }
    }
    let d1 = digits_end(s, i1);
    if d1 == i1 {
        return None;
    }
    if d1 < s.len() && at(s, d1) == 46 {
        let d2 = digits_end(s, d1 + 1);
        if d2 == d1 + 1 {
            return None;
        }
        let n1 = d1 - i1;
        let n2 = d2 - (d1 + 1);
        if n1 + n2 > 19 {
            return None;
        }
        let whole = acc_digits(s, i1, d1, 0, Ghost(0nat));
        let m = acc_digits(s, d1 + 1, d2, whole, Ghost(n1 as nat));
        Some((Number { neg: neg && m != 0, mantissa: m, scale: n2 as u32 }, d2))
    } else {
        if d1 - i1 > 19 {
            return None;
        }
        let m = acc_digits(s, i1, d1, 0, Ghost(0nat));
        Some((Number { neg: neg && m != 0, mantissa: m, scale: 0 }, d1))
    }
}

/// Parse a quoted string, exactly as [`sp_string`] reads it.
pub(crate) fn p_string(s: &[u8], i: usize) -> (r: Option<(Vec<u8>, usize)>)
    requires
        i <= s@.len(),
    ensures
        match r {
            Some((v, j)) => sp_string(s@, i as int) == Some((v@, j as int)) && i < j <= s@.len(),
            None => sp_string(s@, i as int) is None,
        },
{
    if i >= s.len() {
        return None;
    }
    let q = at(s, i);
    if !(q == 39 || q == 34) {
        return None;
    }
    let e = str_body_end(s, i + 1, q);
    if e < s.len() && at(s, e) == q {
        let content = vstd::slice::slice_to_vec(vstd::slice::slice_subrange(s, i + 1, e));
        Some((content, e + 1))
    } else {
        None
    }
}

/// Parse a bare key, exactly as [`sp_key`] reads it.
pub(crate) fn p_key(s: &[u8], i: usize) -> (r: Option<(Vec<u8>, usize)>)
    requires
        i <= s@.len(),
    ensures
        match r {
            Some((v, j)) => sp_key(s@, i as int) == Some((v@, j as int)) && i < j <= s@.len(),
            None => sp_key(s@, i as int) is None,
        },
{
    let j = key_end(s, i);
    if j > i {
        let content = vstd::slice::slice_to_vec(vstd::slice::slice_subrange(s, i, j));
        Some((content, j))
    } else {
        None
    }
}

/// A value at `i`: a string, a number, an array or an inline table. The
/// fuel bounds the grammar's nesting and is plentiful at `s.len()`.
pub open spec fn sp_value(s: Seq<u8>, i: int, fuel: nat) -> Option<(ValueV, int)>
    decreases fuel,
{
    if i < 0 || i >= s.len() {
        None
    } else if fuel == 0 {
        None
    } else {
        let b = s[i];
        if is_quote(b) {
            match sp_string(s, i) {
                None => None,
                Some((c, j)) => Some((ValueV::Str(c), j)),
            }
        } else if b == 45 || b == 43 || is_digit(b) {
            match sp_number(s, i) {
                None => None,
                Some((n, j)) => Some((ValueV::Num(n), j)),
            }
        } else if b == 91 {
            match sp_items(s, sk_filler(s, i + 1, false), (fuel - 1) as nat) {
                None => None,
                Some((xs, j)) => Some((ValueV::Arr(xs), j)),
            }
        } else if b == 123 {
            match sp_pairs(s, sk_filler(s, i + 1, false), (fuel - 1) as nat) {
                None => None,
                Some((ps, j)) => Some((ValueV::Tab(ps), j)),
            }
        } else {
            None
        }
    }
}

/// The elements of an array from `i` (first non-filler position after the
/// opening bracket) up to and past the closing bracket.
pub open spec fn sp_items(s: Seq<u8>, i: int, fuel: nat) -> Option<(Seq<ValueV>, int)>
    decreases fuel,
{
    if i < 0 || i >= s.len() {
        None
    } else if fuel == 0 {
        None
    } else if s[i] == 93 {
        Some((Seq::empty(), i + 1))
    } else {
        match sp_value(s, i, (fuel - 1) as nat) {
            None => None,
            Some((v, j)) => {
                let k = sk_filler(s, j, false);
                if k < s.len() && s[k] == 44 {
                    let k2 = sk_filler(s, k + 1, false);
                    if k2 < s.len() && s[k2] == 93 {
                        Some((seq![v], k2 + 1))
                    } else {
                        match sp_items(s, k2, (fuel - 1) as nat) {
                            None => None,
                            Some((rest, m)) => Some((rest.insert(0, v), m)),
                        }
                    }
                } else if k < s.len() && s[k] == 93 {
                    Some((seq![v], k + 1))
                } else {
                    None
                }
            },
        }
    }
}

/// The pairs of an inline table from `i` (first non-filler position after
/// the opening brace) up to and past the closing brace.
pub open spec fn sp_pairs(s: Seq<u8>, i: int, fuel: nat) -> Option<(Seq<PairV>, int)>
    decreases fuel,
{
    if i < 0 || i >= s.len() {
        None
    } else if fuel == 0 {
        None
    } else if s[i] == 125 {
        Some((Seq::empty(), i + 1))
    } else {
        match sp_entry(s, i, (fuel - 1) as nat) {
            None => None,
            Some((p, j)) => {
                let k = sk_filler(s, j, false);
                if k < s.len() && s[k] == 44 {
                    let k2 = sk_filler(s, k + 1, false);
                    if k2 < s.len() && s[k2] == 125 {
                        Some((seq![p], k2 + 1))
                    } else {
                        match sp_pairs(s, k2, (fuel - 1) as nat) {
                            None => None,
                            Some((rest, m)) => Some((rest.insert(0, p), m)),
                        }
                    }
                } else if k < s.len() && s[k] == 125 {
                    Some((seq![p], k + 1))
                } else {
                    None
                }
            },
        }
    }
}

/// One `key = value` binding at `i`.
pub open spec fn sp_entry(s: Seq<u8>, i: int, fuel: nat) -> Option<(PairV, int)>
    decreases fuel,
{
    if fuel == 0 {
        None
    } else {
        match sp_key(s, i) {
            None => None,
            Some((key, j)) => {
                let k = sk_ws(s, j);
                if k < s.len() && s[k] == 61 {
                    match sp_value(s, sk_ws(s, k + 1), (fuel - 1) as nat) {
                        None => None,
                        Some((v, e)) => Some((PairV { key, val: v }, e)),
                    }
                } else {
                    None
                }
            },
        }
    }
}

/// A `[[name]]` block header at `i`.
pub open spec fn sp_header(s: Seq<u8>, i: int) -> Option<(Seq<u8>, int)> {
    if 0 <= i && i + 1 < s.len() && s[i] == 91 && s[i + 1] == 91 {
        match sp_key(s, sk_ws(s, i + 2)) {
            None => None,
            Some((name, m)) => {
                let w = sk_ws(s, m);
                if w + 1 < s.len() && s[w] == 93 && s[w + 1] == 93 {
                    Some((name, w + 2))
                } else {
                    None
                }
            },
        }
    } else {
        None
    }
}

/// After an entry or header: optional whitespace and comment, then a
/// newline or the end of the input. Yields the next line's start.
pub open spec fn sp_line_end(s: Seq<u8>, i: int) -> Option<int> {
    let j = sk_ws(s, i);
    if j >= s.len() {
        Some(s.len() as int)
    } else if s[j] == 35 {
        let k = sk_to_nl(s, j + 1);
        if k >= s.len() {
            Some(s.len() as int)
        } else {
            Some(k + 1)
        }
    } else if is_nl(s[j]) {
        Some(j + 1)
    } else {
        None
    }
}

/// The lines from `i` on: the bindings before the first block header, and
/// the blocks; every binding after a header belongs to the latest block.
pub open spec fn sp_lines(s: Seq<u8>, i: int, fuel: nat) -> Option<(Seq<PairV>, Seq<SectionV>)>
    decreases fuel,
{
    let j = sk_ws(s, i);
    if j >= s.len() {
        Some((Seq::empty(), Seq::empty()))
    } else if fuel == 0 {
        None
    } else if is_nl(s[j]) {
        sp_lines(s, j + 1, (fuel - 1) as nat)
    } else if s[j] == 35 {
        let k = sk_to_nl(s, j + 1);
        if k >= s.len() {
            Some((Seq::empty(), Seq::empty()))
        } else {
            sp_lines(s, k + 1, (fuel - 1) as nat)
        }
    } else if s[j] == 91 {
        match sp_header(s, j) {
            None => None,
            Some((name, m)) => match sp_line_end(s, m) {
                None => None,
                Some(m2) => match sp_lines(s, m2, (fuel - 1) as nat) {
                    None => None,
                    Some((ps, secs)) => Some(
                        (Seq::empty(), secs.insert(0, SectionV { name, pairs: ps })),
                    ),
                },
            },
        }
    } else {
        match sp_entry(s, j, fuel) {
            None => None,
            Some((p, e)) => match sp_line_end(s, e) {
                None => None,
                Some(e2) => match sp_lines(s, e2, (fuel - 1) as nat) {
                    None => None,
                    Some((ps, secs)) => Some((ps.insert(0, p), secs)),
                },
            },
        }
    }
}

/// The whole grammar: what a byte sequence parses to, if it is well-formed
/// table text.
pub open spec fn sp_parse(s: Seq<u8>) -> Option<RawDocV> {
    match sp_lines(s, 0, s.len()) {
        None => None,
        Some((top, secs)) => Some(RawDocV { top, sections: secs }),
    }
}

/// Parse a value, exactly as [`sp_value`] reads it.
pub(crate) fn p_value(s: &[u8], i: usize, fuel: usize) -> (r: Option<(Value, usize)>)
    requires
        i <= s@.len(),
    ensures
        match r {
            Some((v, j)) => sp_value(s@, i as int, fuel as nat) == Some((vview(v), j as int)) && i
                < j <= s@.len(),
            None => sp_value(s@, i as int, fuel as nat) is None,
        },
    decreases fuel,
{
    if i >= s.len() {
        return None;
    }
    if fuel == 0 {
        return None;
    }
    let b = at(s, i);
    if b == 39 || b == 34 {
        match p_string(s, i) {
            None => None,
            Some((c, j)) => Some((Value::Str(c), j)),
        }
    } else if b == 45 || b == 43 || (48 <= b && b <= 57) {
        match p_number(s, i) {
            None => None,
            Some((n, j)) => Some((Value::Num(n), j)),
        }
    } else if b == 91 {
        let i2 = filler_end(s, i + 1);
        match p_items(s, i2, fuel - 1) {
            None => None,
            Some((xs, j)) => Some((Value::Arr(xs), j)),
        }
    } else if b == 123 {
        let i2 = filler_end(s, i + 1);
        match p_pairs(s, i2, fuel - 1) {
            None => None,
            Some((ps, j)) => Some((Value::Tab(ps), j)),
        }
    } else {
        None
    }
}

/// Parse array elements, exactly as [`sp_items`] reads them.
pub(crate) fn p_items(s: &[u8], i: usize, fuel: usize) -> (r: Option<(Vec<Value>, usize)>)
    requires
        i <= s@.len(),
    ensures
        match r {
            Some((vs, j)) => sp_items(s@, i as int, fuel as nat) == Some(
                (vview_seq(vs@), j as int),
            ) && i < j <= s@.len(),
            None => sp_items(s@, i as int, fuel as nat) is None,
        },
    decreases fuel,
{
    if i >= s.len() {
        return None;
    }
    if fuel == 0 {
        return None;
    }
    if at(s, i) == 93 {
        let xs: Vec<Value> = Vec::new();
        proof {
            assert(vview_seq(xs@) =~= Seq::<ValueV>::empty());
        }
        return Some((xs, i + 1));
    }
    match p_value(s, i, fuel - 1) {
        None => None,
        Some((v, j)) => {
            let k = filler_end(s, j);
            if k < s.len() && at(s, k) == 44 {
                let k2 = filler_end(s, k + 1);
                if k2 < s.len() && at(s, k2) == 93 {
                    let ghost gv = vview(v);
                    let mut xs: Vec<Value> = Vec::new();
                    xs.push(v);
                    proof {
                        assert(vview_seq(xs@) =~= seq![gv]);
                    }
                    Some((xs, k2 + 1))
                } else {
                    match p_items(s, k2, fuel - 1) {
                        None => None,
                        Some((rest, m)) => {
                            let ghost grest = rest@;
                            let mut out = rest;
                            out.insert(0, v);
                            proof {
                                crate::raw::lemma_vview_seq_insert0(grest, v);
                            }
                            Some((out, m))
                        },
                    }
                }
            } else if k < s.len() && at(s, k) == 93 {
                let ghost gv = vview(v);
                let mut xs: Vec<Value> = Vec::new();
                xs.push(v);
                proof {
                    assert(vview_seq(xs@) =~= seq![gv]);
                }
                Some((xs, k + 1))
            } else {
                None
            }
        },
    }
}

/// Parse inline-table pairs, exactly as [`sp_pairs`] reads them.
pub(crate) fn p_pairs(s: &[u8], i: usize, fuel: usize) -> (r: Option<(Vec<Pair>, usize)>)
    requires
        i <= s@.len(),
    ensures
        match r {
            Some((ps, j)) => sp_pairs(s@, i as int, fuel as nat) == Some(
                (pview_seq(ps@), j as int),
            ) && i < j <= s@.len(),
            None => sp_pairs(s@, i as int, fuel as nat) is None,
        },
    decreases fuel,
{
    if i >= s.len() {
        return None;
    }
    if fuel == 0 {
        return None;
    }
    if at(s, i) == 125 {
        let ps: Vec<Pair> = Vec::new();
        proof {
            assert(pview_seq(ps@) =~= Seq::<PairV>::empty());
        }
        return Some((ps, i + 1));
    }
    match p_entry(s, i, fuel - 1) {
        None => None,
        Some((p, j)) => {
            let k = filler_end(s, j);
            if k < s.len() && at(s, k) == 44 {
                let k2 = filler_end(s, k + 1);
                if k2 < s.len() && at(s, k2) == 125 {
                    let ghost gp = pview(p);
                    let mut ps: Vec<Pair> = Vec::new();
                    ps.push(p);
                    proof {
                        assert(pview_seq(ps@) =~= seq![gp]);
                    }
                    Some((ps, k2 + 1))
                } else {
                    match p_pairs(s, k2, fuel - 1) {
                        None => None,
                        Some((rest, m)) => {
                            let ghost grest = rest@;
                            let mut out = rest;
                            out.insert(0, p);
                            proof {
                                crate::raw::lemma_pview_seq_insert0(grest, p);
                            }
                            Some((out, m))
                        },
                    }
                }
            } else if k < s.len() && at(s, k) == 125 {
                let ghost gp = pview(p);
                let mut ps: Vec<Pair> = Vec::new();
                ps.push(p);
                proof {
                    assert(pview_seq(ps@) =~= seq![gp]);
                }
                Some((ps, k + 1))
            } else {
                None
            }
        },
    }
}

/// Parse one binding, exactly as [`sp_entry`] reads it.
pub(crate) fn p_entry(s: &[u8], i: usize, fuel: usize) -> (r: Option<(Pair, usize)>)
    requires
        i <= s@.len(),
    ensures
        match r {
            Some((p, e)) => sp_entry(s@, i as int, fuel as nat) == Some((pview(p), e as int)) && i
                < e <= s@.len(),
            None => sp_entry(s@, i as int, fuel as nat) is None,
        },
    decreases fuel,
{
    if fuel == 0 {
        return None;
    }
    match p_key(s, i) {
        None => None,
        Some((key, j)) => {
            let k = ws_end(s, j);
            if k < s.len() && at(s, k) == 61 {
                let v0 = ws_end(s, k + 1);
                match p_value(s, v0, fuel - 1) {
                    None => None,
                    Some((v, e)) => Some((Pair { key, val: v }, e)),
                }
            } else {
                None
            }
        },
    }
}

/// Parse a block header, exactly as [`sp_header`] reads it.
pub(crate) fn p_header(s: &[u8], i: usize) -> (r: Option<(Vec<u8>, usize)>)
    requires
        i <= s@.len(),
    ensures
        match r {
            Some((name, m)) => sp_header(s@, i as int) == Some((name@, m as int)) && i < m
                <= s@.len(),
            None => sp_header(s@, i as int) is None,
        },
{
    if !(i < s.len() && i + 1 < s.len() && at(s, i) == 91 && at(s, i + 1) == 91) {
        return None;
    }
    let n0 = ws_end(s, i + 2);
    match p_key(s, n0) {
        None => None,
        Some((name, m)) => {
            let w = ws_end(s, m);
            if w < s.len() && w + 1 < s.len() && at(s, w) == 93 && at(s, w + 1) == 93 {
                Some((name, w + 2))
            } else {
                None
            }
        },
    }
}

/// Finish a line, exactly as [`sp_line_end`] reads it.
pub(crate) fn p_line_end(s: &[u8], i: usize) -> (r: Option<usize>)
    requires
        i <= s@.len(),
    ensures
        match r {
            Some(j) => sp_line_end(s@, i as int) == Some(j as int) && i <= j <= s@.len(),
            None => sp_line_end(s@, i as int) is None,
        },
{
    let j = ws_end(s, i);
    if j >= s.len() {
        Some(s.len())
    } else if at(s, j) == 35 {
        let k = to_nl_end(s, j + 1);
        if k >= s.len() {
            Some(s.len())
        } else {
            Some(k + 1)
        }
    } else if at(s, j) == 10 {
        Some(j + 1)
    } else {
        None
    }
}

/// Parse the lines from `i` on, exactly as [`sp_lines`] reads them.
pub(crate) fn p_lines(s: &[u8], i: usize, fuel: usize) -> (r: Option<(Vec<Pair>, Vec<Section>)>)
    requires
        i <= s@.len(),
    ensures
        match r {
            Some((tp, secs)) => sp_lines(s@, i as int, fuel as nat) == Some(
                (pview_seq(tp@), secview_seq(secs@)),
            ),
            None => sp_lines(s@, i as int, fuel as nat) is None,
        },
    decreases fuel,
{
    let j = ws_end(s, i);
    if j >= s.len() {
        let tp: Vec<Pair> = Vec::new();
        let secs: Vec<Section> = Vec::new();
        proof {
            assert(pview_seq(tp@) =~= Seq::<PairV>::empty());
            assert(secview_seq(secs@) =~= Seq::<SectionV>::empty());
        }
        return Some((tp, secs));
    }
    if fuel == 0 {
        return None;
    }
    let b = at(s, j);
    if b == 10 {
        p_lines(s, j + 1, fuel - 1)
    } else if b == 35 {
        let k = to_nl_end(s, j + 1);
        if k >= s.len() {
            let tp: Vec<Pair> = Vec::new();
            let secs: Vec<Section> = Vec::new();
            proof {
                assert(pview_seq(tp@) =~= Seq::<PairV>::empty());
                assert(secview_seq(secs@) =~= Seq::<SectionV>::empty());
            }
            Some((tp, secs))
        } else {
            p_lines(s, k + 1, fuel - 1)
        }
    } else if b == 91 {
        match p_header(s, j) {
            None => None,
            Some((name, m)) => match p_line_end(s, m) {
                None => None,
                Some(m2) => match p_lines(s, m2, fuel - 1) {
                    None => None,
                    Some((ps, secs)) => {
                        let ghost gsecs = secs@;
                        let sec = Section { name, pairs: ps };
                        let mut out_secs = secs;
                        out_secs.insert(0, sec);
                        let tp: Vec<Pair> = Vec::new();
                        proof {
                            crate::raw::lemma_secview_seq_insert0(gsecs, sec);
                            assert(pview_seq(tp@) =~= Seq::<PairV>::empty());
                        }
                        Some((tp, out_secs))
                    },
                },
            },
        }
    } else {
        match p_entry(s, j, fuel) {
            None => None,
            Some((p, e)) => match p_line_end(s, e) {
                None => None,
                Some(e2) => match p_lines(s, e2, fuel - 1) {
                    None => None,
                    Some((tp, secs)) => {
                        let ghost gtp = tp@;
                        let mut out_tp = tp;
                        out_tp.insert(0, p);
                        proof {
                            crate::raw::lemma_pview_seq_insert0(gtp, p);
                        }
                        Some((out_tp, secs))
                    },
                },
            },
        }
    }
}

/// Parse a whole document into its structural tree, exactly as
/// [`sp_parse`] reads it.
pub fn parse_document(s: &[u8]) -> (r: Option<RawDoc>)
    ensures
        match r {
            Some(d) => sp_parse(s@) == Some(docview(d)),
            None => sp_parse(s@) is None,
        },
{
    match p_lines(s, 0, s.len()) {
        None => None,
        Some((top, sections)) => Some(RawDoc { top, sections }),
    }
}

} // verus!
