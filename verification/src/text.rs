//! Character-level building blocks shared by the SQL and HTTP helpers:
//! decimal formatting, decimal parsing with the standard library's rules,
//! splitting, trimming and joining, all specified over `Seq<char>`.
use vstd::prelude::*;

verus! {

/// The ASCII digit for `d`, where `d < 10`.
pub open spec fn digit_char(d: nat) -> char {
    (48 + d) as char
}

/// Decimal representation of `n`, without leading zeros.
pub open spec fn decimal(n: nat) -> Seq<char>
    decreases n,
{
    if n < 10 {
        seq![digit_char(n)]
    } else {
        decimal(n / 10).push(digit_char(n % 10))
    }
}

fn digit_str(d: u64) -> (s: &'static str)
    requires
        d < 10,
    ensures
        s@ == seq![digit_char(d as nat)],
{
    if d == 0 {
        proof { reveal_strlit("0"); }
        "0"
    } else if d == 1 {
        proof { reveal_strlit("1"); }
        "1"
    } else if d == 2 {
        proof { reveal_strlit("2"); }
        "2"
    } else if d == 3 {
        proof { reveal_strlit("3"); }
        "3"
    } else if d == 4 {
        proof { reveal_strlit("4"); }
        "4"
    } else if d == 5 {
        proof { reveal_strlit("5"); }
        "5"
    } else if d == 6 {
        proof { reveal_strlit("6"); }
        "6"
    } else if d == 7 {
        proof { reveal_strlit("7"); }
        "7"
    } else if d == 8 {
        proof { reveal_strlit("8"); }
        "8"
    } else {
        proof { reveal_strlit("9"); }
        "9"
    }
}

/// Formats `n` in decimal, as `format!("{}", n)` does.
pub fn decimal_string(n: u64) -> (s: String)
    ensures
        s@ == decimal(n as nat),
    decreases n,
{
    if n < 10 {
        String::from_str(digit_str(n))
    } else {
        let mut s = decimal_string(n / 10);
        s.append(digit_str(n % 10));
        s
    }
}


/// Formats a signed value in decimal, with a leading `-` for negative values.
pub open spec fn signed_decimal(v: int) -> Seq<char> {
    if v < 0 {
        seq!['-'] + decimal((-v) as nat)
    } else {
        decimal(v as nat)
    }
}

/// Formats `v` in decimal, as `format!("{}", v)` does.
pub fn signed_decimal_string(v: i32) -> (s: String)
    ensures
        s@ == signed_decimal(v as int),
{
    if v < 0 {
        let magnitude: i64 = -(v as i64);
        let digits = decimal_string(magnitude as u64);
        let mut s = String::from_str("-");
        proof { reveal_strlit("-"); }
        s.append(digits.as_str());
        s
    } else {
        decimal_string(v as u64)
    }
}

/// The characters of `s`, in order.
pub fn chars_of(s: &str) -> (v: Vec<char>)
    ensures
        v@ == s@,
{
    let mut v: Vec<char> = Vec::new();
    for c in it: s.chars()
        invariant
            v@ == it.seq().take(it.index() as int),
    {
        v.push(c);
    }
    proof {
        broadcast use vstd::string::axiom_spec_iter;
    }
    v
}

/// Whether two strings hold the same characters.
pub fn same_text(a: &str, b: &str) -> (r: bool)
    ensures
        r == (a@ == b@),
{
    let x = String::from_str(a);
    let y = String::from_str(b);
    x == y
}

// ---------------------------------------------------------------------------
// Decimal parsing
// ---------------------------------------------------------------------------

/// Why a decimal integer could not be parsed; the variants and their messages
/// are those of the standard library's `ParseIntError`.
#[derive(Debug, Clone, Copy, PartialEq, Eq, Structural)]
pub enum IntErrorKind {
    Empty,
    InvalidDigit,
    PosOverflow,
}

pub open spec fn int_error_text(kind: IntErrorKind) -> Seq<char> {
    match kind {
        IntErrorKind::Empty => "cannot parse integer from empty string"@,
        IntErrorKind::InvalidDigit => "invalid digit found in string"@,
        IntErrorKind::PosOverflow => "number too large to fit in target type"@,
    }
}

impl IntErrorKind {
    /// The message that the standard library prints for this error.
    pub fn description(&self) -> (s: &'static str)
        ensures
            s@ == int_error_text(*self),
    {
        match self {
            IntErrorKind::Empty => "cannot parse integer from empty string",
            IntErrorKind::InvalidDigit => "invalid digit found in string",
            IntErrorKind::PosOverflow => "number too large to fit in target type",
        }
    }
}

pub open spec fn is_ascii_digit(c: char) -> bool {
    '0' <= c <= '9'
}

pub open spec fn digit_value(c: char) -> int {
    c as int - 48
}

/// Reads the digits of `d` from the left onto the accumulated value `acc`;
/// the first character that is not a digit, or the first digit that takes
/// the value past `u32::MAX`, decides the error.
pub open spec fn scan_digits(d: Seq<char>, acc: nat) -> Result<u32, IntErrorKind>
    decreases d.len(),
{
    if d.len() == 0 {
        if acc <= u32::MAX {
            Ok(acc as u32)
        } else {
            Err(IntErrorKind::PosOverflow)
        }
    } else if !is_ascii_digit(d[0]) {
        Err(IntErrorKind::InvalidDigit)
    } else if acc * 10 + digit_value(d[0]) > u32::MAX {
        Err(IntErrorKind::PosOverflow)
    } else {
        scan_digits(d.drop_first(), (acc * 10 + digit_value(d[0])) as nat)
    }
}

/// `u32::from_str`: an optional `+`, then one or more decimal digits.
pub open spec fn parse_u32_spec(s: Seq<char>) -> Result<u32, IntErrorKind> {
    if s.len() == 0 {
        Err(IntErrorKind::Empty)
    } else if s.len() == 1 && (s[0] == '+' || s[0] == '-') {
        Err(IntErrorKind::InvalidDigit)
    } else if s[0] == '+' {
        scan_digits(s.drop_first(), 0)
    } else {
        scan_digits(s, 0)
    }
}

/// Parses `s` as a `u32` with the rules of `str::parse::<u32>`.
pub fn parse_u32(s: &str) -> (r: Result<u32, IntErrorKind>)
    ensures
        r == parse_u32_spec(s@),
{
    let cs = chars_of(s);
    let n = cs.len();
    if n == 0 {
        return Err(IntErrorKind::Empty);
    }
    if n == 1 && (cs[0] == '+' || cs[0] == '-') {
        return Err(IntErrorKind::InvalidDigit);
    }
    let start: usize = if cs[0] == '+' { 1 } else { 0 };
    proof {
        if start == 1 {
            assert(cs@.drop_first() =~= cs@.subrange(1, n as int));
        } else {
            assert(cs@ =~= cs@.subrange(0, n as int));
        }
    }
    let mut acc: u64 = 0;
    let mut i: usize = start;
    while i < n
        invariant
            start <= i <= n,
            n == cs.len(),
            acc <= u32::MAX,
            parse_u32_spec(s@) == scan_digits(cs@.subrange(i as int, n as int), acc as nat),
            cs@ == s@,
            n > 0,
            start == (if cs@[0] == '+' { 1int } else { 0int }),
            !(n == 1 && (cs@[0] == '+' || cs@[0] == '-')),
        decreases n - i,
    {
        let c = cs[i];
        assert(cs@.subrange(i as int, n as int)[0] == c);
        if !('0' <= c && c <= '9') {
            return Err(IntErrorKind::InvalidDigit);
        }
        let d: u64 = (c as u32 - 48) as u64;
        let next: u64 = acc * 10 + d;
        if next > 4294967295 {
            return Err(IntErrorKind::PosOverflow);
        }
        assert(cs@.subrange(i as int, n as int).drop_first() =~= cs@.subrange(i + 1, n as int));
        acc = next;
        i = i + 1;
    }
    assert(cs@.subrange(i as int, n as int).len() == 0);
    Ok(acc as u32)
}

/// `bool::from_str`: exactly `true` or `false`.
pub open spec fn parse_bool_spec(s: Seq<char>) -> Option<bool> {
    if s == "true"@ {
        Some(true)
    } else if s == "false"@ {
        Some(false)
    } else {
        None
    }
}

/// Parses `s` as a `bool` with the rules of `str::parse::<bool>`.
pub fn parse_bool(s: &str) -> (r: Option<bool>)
    ensures
        r == parse_bool_spec(s@),
{
    if same_text(s, "true") {
        Some(true)
    } else if same_text(s, "false") {
        Some(false)
    } else {
        None
    }
}

pub proof fn lemma_scan_digits_append(a: Seq<char>, b: Seq<char>, acc: nat, v: u32)
    requires
        scan_digits(a, acc) == Ok::<u32, IntErrorKind>(v),
    ensures
        scan_digits(a + b, acc) == scan_digits(b, v as nat),
    decreases a.len(),
{
    if a.len() == 0 {
        assert(a + b =~= b);
    } else {
        let next = (acc * 10 + digit_value(a[0])) as nat;
        assert((a + b)[0] == a[0]);
        assert((a + b).drop_first() =~= a.drop_first() + b);
        lemma_scan_digits_append(a.drop_first(), b, next, v);
    }
}

pub proof fn lemma_digit_char(d: nat)
    requires
        d < 10,
    ensures
        is_ascii_digit(digit_char(d)),
        digit_value(digit_char(d)) == d,
        digit_char(d) != '.',
        digit_char(d) != '+',
        digit_char(d) != '-',
{
}

/// Every character of a decimal representation is a digit.
pub proof fn lemma_decimal_digits(n: nat)
    ensures
        forall|i: int| 0 <= i < decimal(n).len() ==> #[trigger] is_ascii_digit(decimal(n)[i]),
        decimal(n).len() >= 1,
        decimal(n)[0] != '+',
        decimal(n)[0] != '-',
    decreases n,
{
    lemma_digit_char(n % 10);
    if n >= 10 {
        lemma_decimal_digits(n / 10);
    }
}

/// Parsing gives back what decimal formatting wrote.
pub proof fn lemma_parse_decimal(n: nat)
    requires
        n <= u32::MAX,
    ensures
        scan_digits(decimal(n), 0) == Ok::<u32, IntErrorKind>(n as u32),
        parse_u32_spec(decimal(n)) == Ok::<u32, IntErrorKind>(n as u32),
    decreases n,
{
    lemma_digit_char(n % 10);
    lemma_decimal_digits(n);
    let last = seq![digit_char(n % 10)];
    assert(last.drop_first() =~= Seq::<char>::empty());
    assert(scan_digits(Seq::<char>::empty(), n) == Ok::<u32, IntErrorKind>(n as u32));
    if n < 10 {
        assert(decimal(n) == last);
        assert(scan_digits(last, 0) == scan_digits(last.drop_first(), n));
    } else {
        lemma_parse_decimal(n / 10);
        assert((n / 10) * 10 + n % 10 == n);
        assert(decimal(n) =~= decimal(n / 10) + last);
        lemma_scan_digits_append(decimal(n / 10), last, 0, (n / 10) as u32);
        assert(scan_digits(last, n / 10) == scan_digits(last.drop_first(), n));
    }
}


// ---------------------------------------------------------------------------
// Trimming
// ---------------------------------------------------------------------------

/// `char::is_whitespace`: the characters with the Unicode `White_Space` property.
pub open spec fn is_unicode_whitespace(c: char) -> bool {
    ||| '\u{9}' <= c <= '\u{d}'
    ||| c == ' '
    ||| c == '\u{85}'
    ||| c == '\u{a0}'
    ||| c == '\u{1680}'
    ||| '\u{2000}' <= c <= '\u{200a}'
    ||| c == '\u{2028}'
    ||| c == '\u{2029}'
    ||| c == '\u{202f}'
    ||| c == '\u{205f}'
    ||| c == '\u{3000}'
}

/// What a trim removes: one given character, or whitespace.
#[derive(Debug, Clone, Copy, PartialEq, Eq, Structural)]
pub enum TrimPattern {
    Char(char),
    Whitespace,
}

pub open spec fn pattern_matches(p: TrimPattern, c: char) -> bool {
    match p {
        TrimPattern::Char(x) => c == x,
        TrimPattern::Whitespace => is_unicode_whitespace(c),
    }
}

fn matches_pattern(p: TrimPattern, c: char) -> (b: bool)
    ensures
        b == pattern_matches(p, c),
{
    match p {
        TrimPattern::Char(x) => c == x,
        TrimPattern::Whitespace => {
            ('\u{9}' <= c && c <= '\u{d}') || c == ' ' || c == '\u{85}' || c == '\u{a0}' || c
                == '\u{1680}' || ('\u{2000}' <= c && c <= '\u{200a}') || c == '\u{2028}' || c
                == '\u{2029}' || c == '\u{202f}' || c == '\u{205f}' || c == '\u{3000}'
        },
    }
}

/// `s` without its leading characters that match `p`.
pub open spec fn trim_start(s: Seq<char>, p: TrimPattern) -> Seq<char>
    decreases s.len(),
{
    if s.len() > 0 && pattern_matches(p, s[0]) {
        trim_start(s.drop_first(), p)
    } else {
        s
    }
}

/// `s` without its trailing characters that match `p`.
pub open spec fn trim_end(s: Seq<char>, p: TrimPattern) -> Seq<char>
    decreases s.len(),
{
    if s.len() > 0 && pattern_matches(p, s.last()) {
        trim_end(s.drop_last(), p)
    } else {
        s
    }
}

/// `s` without its leading and trailing characters that match `p`.
pub open spec fn trim_both(s: Seq<char>, p: TrimPattern) -> Seq<char> {
    trim_end(trim_start(s, p), p)
}

/// The first index in `lo..hi` from which `cs[..hi]` no longer starts with `p`.
pub fn skip_start(cs: &Vec<char>, lo: usize, hi: usize, p: TrimPattern) -> (r: usize)
    requires
        lo <= hi <= cs.len(),
    ensures
        lo <= r <= hi,
        cs@.subrange(r as int, hi as int) == trim_start(cs@.subrange(lo as int, hi as int), p),
{
    let mut i = lo;
    while i < hi && matches_pattern(p, cs[i])
        invariant
            lo <= i <= hi <= cs.len(),
            trim_start(cs@.subrange(i as int, hi as int), p) == trim_start(
                cs@.subrange(lo as int, hi as int),
                p,
            ),
        decreases hi - i,
    {
        assert(cs@.subrange(i as int, hi as int).drop_first() =~= cs@.subrange(
            i + 1,
            hi as int,
        ));
        i = i + 1;
    }
    i
}

/// The last index in `lo..=hi` before which `cs[lo..]` no longer ends with `p`.
pub fn skip_end(cs: &Vec<char>, lo: usize, hi: usize, p: TrimPattern) -> (r: usize)
    requires
        lo <= hi <= cs.len(),
    ensures
        lo <= r <= hi,
        cs@.subrange(lo as int, r as int) == trim_end(cs@.subrange(lo as int, hi as int), p),
{
    let mut j = hi;
    while j > lo && matches_pattern(p, cs[j - 1])
        invariant
            lo <= j <= hi <= cs.len(),
            trim_end(cs@.subrange(lo as int, j as int), p) == trim_end(
                cs@.subrange(lo as int, hi as int),
                p,
            ),
        decreases j - lo,
    {
        assert(cs@.subrange(lo as int, j as int).drop_last() =~= cs@.subrange(
            lo as int,
            j - 1,
        ));
        j = j - 1;
    }
    j
}

/// The bounds of `cs[lo..hi]` trimmed of `p` on both sides.
pub fn trim_range(cs: &Vec<char>, lo: usize, hi: usize, p: TrimPattern) -> (r: (usize, usize))
    requires
        lo <= hi <= cs.len(),
    ensures
        lo <= r.0 <= r.1 <= hi,
        cs@.subrange(r.0 as int, r.1 as int) == trim_both(cs@.subrange(lo as int, hi as int), p),
{
    let a = skip_start(cs, lo, hi, p);
    let b = skip_end(cs, a, hi, p);
    (a, b)
}

// ---------------------------------------------------------------------------
// Splitting and joining
// ---------------------------------------------------------------------------

/// `str::split` by one character: the pieces between the separators, in
/// order; there is always one piece more than there are separators.
pub open spec fn split(s: Seq<char>, sep: char) -> Seq<Seq<char>>
    decreases s.len(),
{
    if s.len() == 0 {
        seq![Seq::<char>::empty()]
    } else {
        let pre = split(s.drop_last(), sep);
        if s.last() == sep {
            pre.push(Seq::<char>::empty())
        } else {
            pre.update(pre.len() - 1, pre.last().push(s.last()))
        }
    }
}

/// The pieces of `parts` with `sep` between each two.
pub open spec fn join(parts: Seq<Seq<char>>, sep: Seq<char>) -> Seq<char>
    decreases parts.len(),
{
    if parts.len() == 0 {
        Seq::<char>::empty()
    } else if parts.len() == 1 {
        parts[0]
    } else {
        join(parts.drop_last(), sep) + sep + parts.last()
    }
}

pub proof fn lemma_split_len(s: Seq<char>, sep: char)
    ensures
        split(s, sep).len() >= 1,
    decreases s.len(),
{
    if s.len() > 0 {
        lemma_split_len(s.drop_last(), sep);
    }
}

/// The ranges of the pieces of `cs[lo..hi]` split at `sep`.
pub fn split_ranges(cs: &Vec<char>, lo: usize, hi: usize, sep: char) -> (r: Vec<(usize, usize)>)
    requires
        lo <= hi <= cs.len(),
    ensures
        r.len() == split(cs@.subrange(lo as int, hi as int), sep).len(),
        forall|k: int|
            0 <= k < r.len() ==> lo <= (#[trigger] r[k]).0 <= r[k].1 <= hi && cs@.subrange(
                r[k].0 as int,
                r[k].1 as int,
            ) == split(cs@.subrange(lo as int, hi as int), sep)[k],
{
    let mut ranges: Vec<(usize, usize)> = Vec::new();
    let mut st = lo;
    let mut i = lo;
    proof {
        assert(cs@.subrange(lo as int, lo as int) =~= Seq::<char>::empty());
    }
    while i < hi
        invariant
            lo <= st <= i <= hi <= cs.len(),
            split(cs@.subrange(lo as int, i as int), sep).len() == ranges.len() + 1,
            forall|k: int|
                0 <= k < ranges.len() ==> lo <= (#[trigger] ranges[k]).0 <= ranges[k].1 <= hi
                    && cs@.subrange(ranges[k].0 as int, ranges[k].1 as int) == split(
                    cs@.subrange(lo as int, i as int),
                    sep,
                )[k],
            split(cs@.subrange(lo as int, i as int), sep)[ranges.len() as int] == cs@.subrange(
                st as int,
                i as int,
            ),
        decreases hi - i,
    {
        let ghost pre = split(cs@.subrange(lo as int, i as int), sep);
        let ghost old_ranges = ranges@;
        let c = cs[i];
        assert(cs@.subrange(lo as int, i + 1).drop_last() =~= cs@.subrange(lo as int, i as int));
        assert(cs@.subrange(lo as int, i + 1).last() == c);
        if c == sep {
            ranges.push((st, i));
            st = i + 1;
            assert(cs@.subrange(st as int, i + 1) =~= Seq::<char>::empty());
        } else {
            assert(cs@.subrange(st as int, i + 1) =~= cs@.subrange(st as int, i as int).push(c));
        }
        i = i + 1;
        assert forall|k: int| 0 <= k < ranges.len() implies lo <= (#[trigger] ranges[k]).0
            <= ranges[k].1 <= hi && cs@.subrange(ranges[k].0 as int, ranges[k].1 as int) == split(
            cs@.subrange(lo as int, i as int),
            sep,
        )[k] by {
            if k < old_ranges.len() {
                assert(ranges[k] == old_ranges[k]);
            }
        }
    }
    ranges.push((st, hi));
    assert(cs@.subrange(lo as int, i as int) == cs@.subrange(lo as int, hi as int));
    assert forall|k: int| 0 <= k < ranges.len() implies lo <= (#[trigger] ranges[k]).0
        <= ranges[k].1 <= hi && cs@.subrange(ranges[k].0 as int, ranges[k].1 as int) == split(
        cs@.subrange(lo as int, hi as int),
        sep,
    )[k] by {}
    ranges
}

/// Joins `parts` with `sep` between each two, as `[String]::join` does.
pub fn join_strings(parts: &Vec<String>, sep: &str) -> (r: String)
    ensures
        r@ == join(parts@.map_values(|p: String| p@), sep@),
{
    let ghost views = parts@.map_values(|p: String| p@);
    let mut r = String::new();
    let mut i: usize = 0;
    while i < parts.len()
        invariant
            0 <= i <= parts.len(),
            views == parts@.map_values(|p: String| p@),
            r@ == join(views.take(i as int), sep@),
        decreases parts.len() - i,
    {
        assert(views.take(i + 1).drop_last() =~= views.take(i as int));
        if i == 0 {
            r.append(parts[i].as_str());
        } else {
            r.append(sep);
            r.append(parts[i].as_str());
        }
        i = i + 1;
    }
    assert(views.take(i as int) =~= views);
    r
}

/// Joining the pieces of a split with the separator gives back the text.
pub proof fn lemma_join_split(s: Seq<char>, sep: char)
    ensures
        join(split(s, sep), seq![sep]) == s,
    decreases s.len(),
{
    if s.len() == 0 {
    } else {
        let pre = split(s.drop_last(), sep);
        lemma_join_split(s.drop_last(), sep);
        lemma_split_len(s.drop_last(), sep);
        if s.last() == sep {
            let q = pre.push(Seq::<char>::empty());
            assert(q.drop_last() =~= pre);
            assert(join(q, seq![sep]) =~= s);
        } else {
            let q = pre.update(pre.len() - 1, pre.last().push(s.last()));
            if pre.len() == 1 {
                assert(join(q, seq![sep]) =~= s);
            } else {
                assert(q.drop_last() =~= pre.drop_last());
                assert(q.last() == pre.last().push(s.last()));
                assert(join(pre, seq![sep]) == join(pre.drop_last(), seq![sep]) + seq![sep]
                    + pre.last());
                assert(join(q, seq![sep]) == join(pre.drop_last(), seq![sep]) + seq![sep]
                    + pre.last().push(s.last()));
                assert(s =~= s.drop_last().push(s.last()));
                assert(join(q, seq![sep]) =~= s);
            }
        }
    }
}

/// Appending text without the separator extends the last piece.
pub proof fn lemma_split_append(x: Seq<char>, b: Seq<char>, sep: char)
    requires
        !b.contains(sep),
    ensures
        split(x + b, sep) == split(x, sep).update(
            split(x, sep).len() - 1,
            split(x, sep).last() + b,
        ),
    decreases b.len(),
{
    lemma_split_len(x, sep);
    if b.len() == 0 {
        assert(x + b =~= x);
        assert(split(x, sep).last() + b =~= split(x, sep).last());
        assert(split(x, sep).update(split(x, sep).len() - 1, split(x, sep).last())
            =~= split(x, sep));
    } else {
        let b0 = b.drop_last();
        assert(!b0.contains(sep)) by {
            if b0.contains(sep) {
                let k = choose|k: int| 0 <= k < b0.len() && b0[k] == sep;
                assert(b[k] == sep);
            }
        }
        assert(b.last() != sep) by {
            assert(b[b.len() - 1] == b.last());
        }
        lemma_split_append(x, b0, sep);
        assert((x + b).drop_last() =~= x + b0);
        assert((x + b).last() == b.last());
        assert(split(x, sep).last() + b =~= (split(x, sep).last() + b0).push(b.last()));
        assert(split(x + b, sep) =~= split(x, sep).update(
            split(x, sep).len() - 1,
            split(x, sep).last() + b,
        ));
    }
}

/// Text without the separator is a single piece.
pub proof fn lemma_split_single(a: Seq<char>, sep: char)
    requires
        !a.contains(sep),
    ensures
        split(a, sep) == seq![a],
{
    lemma_split_append(Seq::<char>::empty(), a, sep);
    assert(Seq::<char>::empty() + a =~= a);
    assert(split(Seq::<char>::empty(), sep).update(0, Seq::<char>::empty() + a) =~= seq![a]);
}

/// `a`, the separator and `b` split into exactly `a` and `b` when neither
/// holds the separator.
pub proof fn lemma_split_pair(a: Seq<char>, b: Seq<char>, sep: char)
    requires
        !a.contains(sep),
        !b.contains(sep),
    ensures
        split(a.push(sep) + b, sep) == seq![a, b],
{
    lemma_split_single(a, sep);
    assert(a.push(sep).drop_last() =~= a);
    assert(split(a.push(sep), sep) =~= seq![a, Seq::<char>::empty()]);
    lemma_split_append(a.push(sep), b, sep);
    assert(Seq::<char>::empty() + b =~= b);
    assert(seq![a, Seq::<char>::empty()].update(1, Seq::<char>::empty() + b) =~= seq![a, b]);
}


// ---------------------------------------------------------------------------
// Case mapping
// ---------------------------------------------------------------------------

/// What `str::to_uppercase` returns for a text: the Unicode uppercase mapping
/// of each character, which may change the length (`ß` becomes `SS`).
pub uninterp spec fn uppercase_of(s: Seq<char>) -> Seq<char>;

/// Calls `str::to_uppercase` from the standard library. The contract claims
/// only that the result is a function of the characters of `s`, named
/// `uppercase_of`; the Unicode case tables it applies are not restated.
#[verifier::external_body]
pub fn to_uppercase(s: &str) -> (r: String)
    ensures
        r@ == uppercase_of(s@),
{
    s.to_uppercase()
}

// ---------------------------------------------------------------------------
// Occurrence of a text in another
// ---------------------------------------------------------------------------

/// Whether `t` occurs in `s`.
pub open spec fn contains_text(s: Seq<char>, t: Seq<char>) -> bool {
    exists|a: Seq<char>, b: Seq<char>| #[trigger] (a + t + b) == s
}

/// Whether `s` ends with `t`.
pub open spec fn ends_with_text(s: Seq<char>, t: Seq<char>) -> bool {
    exists|a: Seq<char>| #[trigger] (a + t) == s
}

/// Whether `s` begins with `t`.
pub open spec fn starts_with_text(s: Seq<char>, t: Seq<char>) -> bool {
    exists|b: Seq<char>| #[trigger] (t + b) == s
}

/// The pieces of `parts` one after another.
pub open spec fn concat_all(parts: Seq<Seq<char>>) -> Seq<char>
    decreases parts.len(),
{
    if parts.len() == 0 {
        Seq::<char>::empty()
    } else {
        concat_all(parts.drop_last()) + parts.last()
    }
}

/// Each piece occurs in the concatenation of the pieces.
pub proof fn lemma_concat_all_contains(parts: Seq<Seq<char>>, i: int)
    requires
        0 <= i < parts.len(),
    ensures
        contains_text(concat_all(parts), parts[i]),
    decreases parts.len(),
{
    let pre = parts.drop_last();
    if i == parts.len() - 1 {
        let a = concat_all(pre);
        let e = Seq::<char>::empty();
        assert(a + parts[i] + e == concat_all(parts)) by {
            assert(a + parts[i] + e =~= a + parts.last());
        }
    } else {
        assert(pre[i] == parts[i]);
        lemma_concat_all_contains(pre, i);
        let (a, b) = choose|a: Seq<char>, b: Seq<char>| #[trigger] (a + pre[i] + b) == concat_all(pre);
        assert(a + parts[i] + (b + parts.last()) == concat_all(parts)) by {
            assert(a + parts[i] + (b + parts.last()) =~= (a + pre[i] + b) + parts.last());
        }
    }
}

/// Concatenating the pieces before `k` and those from `k` on gives the whole.
pub proof fn lemma_concat_all_split(parts: Seq<Seq<char>>, k: int)
    requires
        0 <= k <= parts.len(),
    ensures
        concat_all(parts) == concat_all(parts.subrange(0, k)) + concat_all(
            parts.subrange(k, parts.len() as int),
        ),
    decreases parts.len(),
{
    if k == parts.len() {
        assert(parts.subrange(0, k) =~= parts);
        assert(parts.subrange(k, parts.len() as int) =~= Seq::<Seq<char>>::empty());
        assert(concat_all(parts) + Seq::<char>::empty() =~= concat_all(parts));
    } else {
        let pre = parts.drop_last();
        lemma_concat_all_split(pre, k);
        assert(pre.subrange(0, k) =~= parts.subrange(0, k));
        let hi = parts.subrange(k, parts.len() as int);
        assert(hi.drop_last() =~= pre.subrange(k, pre.len() as int));
        assert(hi.last() == parts.last());
        assert(concat_all(parts) =~= concat_all(parts.subrange(0, k)) + concat_all(hi));
    }
}

/// Each piece occurs in the pieces joined with a separator.
pub proof fn lemma_join_contains(parts: Seq<Seq<char>>, sep: Seq<char>, k: int)
    requires
        0 <= k < parts.len(),
    ensures
        contains_text(join(parts, sep), parts[k]),
    decreases parts.len(),
{
    let e = Seq::<char>::empty();
    if parts.len() == 1 {
        assert(e + parts[k] + e == join(parts, sep)) by {
            assert(e + parts[k] + e =~= parts[0]);
        }
    } else {
        let pre = parts.drop_last();
        if k == parts.len() - 1 {
            let a = join(pre, sep) + sep;
            assert(a + parts[k] + e == join(parts, sep)) by {
                assert(a + parts[k] + e =~= join(pre, sep) + sep + parts.last());
            }
        } else {
            assert(pre[k] == parts[k]);
            lemma_join_contains(pre, sep, k);
            let (a, b) = choose|a: Seq<char>, b: Seq<char>| #[trigger] (a + pre[k] + b) == join(pre, sep);
            assert(a + parts[k] + (b + sep + parts.last()) == join(parts, sep)) by {
                assert(a + parts[k] + (b + sep + parts.last()) =~= (a + pre[k] + b) + sep
                    + parts.last());
            }
        }
    }
}

} // verus!
