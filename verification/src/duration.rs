//! Durations written as `XhYmZs`: reading them into seconds and writing
//! seconds back in that form.

use vstd::prelude::*;
use crate::text::{chars_of, string_from_chars};
use vstd::arithmetic::div_mod::{lemma_div_nonincreasing, lemma_fundamental_div_mod};

verus! {

/// Why a duration text could not be read.
#[derive(Debug, PartialEq, Eq, Structural)]
pub enum ParseError {
    Empty,
    InvalidFormat,
}

/// Whether a character beyond ASCII has Unicode general category `Nd`
/// (a decimal digit of some script).
pub uninterp spec fn is_non_ascii_decimal_digit(c: char) -> bool;

/// Whether `c` is in the `\d` class of the `regex` crate, Unicode `Nd`: among
/// ASCII characters exactly `0` to `9`, beyond ASCII the decimal digits of
/// other scripts.
pub open spec fn is_unicode_digit(c: char) -> bool {
    if (c as u32) < 128 {
        '0' <= c && c <= '9'
    } else {
        is_non_ascii_decimal_digit(c)
    }
}

/// The `regex` crate's `\d` class, tested on one character through
/// `Regex::is_match` with the pattern `^\d$`.
///
/// Claims: the `regex` docs define `\d` as `\p{Nd}`; within ASCII that is
/// exactly `0` to `9`, and beyond ASCII the result is named, not stated.
#[verifier::external_body]
fn regex_digit_class(c: char) -> (b: bool)
    ensures
        b == if (c as u32) < 128 {
            '0' <= c && c <= '9'
        } else {
            is_non_ascii_decimal_digit(c)
        },
{
    let mut buf = [0u8; 4];
    match regex::Regex::new(r"^\d$") {
        Ok(re) => re.is_match(c.encode_utf8(&mut buf)),
        Err(_) => false,
    }
}

/// The length of the run of `\d` characters that `s` begins with.
pub open spec fn digit_run(s: Seq<char>) -> nat
    decreases s.len(),
{
    if s.len() > 0 && is_unicode_digit(s[0]) {
        1 + digit_run(s.drop_first())
    } else {
        0
    }
}

/// Reading the optional group `(\d+)<unit>` at the front of `s`: the digits
/// and what follows the unit, or nothing and `s` itself.
pub open spec fn unit_group(s: Seq<char>, unit: char) -> (Option<Seq<char>>, Seq<char>) {
    let k = digit_run(s);
    if k > 0 && k < s.len() && s[k as int] == unit {
        (Some(s.take(k as int)), s.skip(k as int + 1))
    } else {
        (None, s)
    }
}

/// The digit groups of `^(?:(\d+)h)?(?:(\d+)m)?(?:(\d+)s)?$` in `s`, when it
/// matches the whole of `s`.
pub open spec fn duration_groups(s: Seq<char>) -> Option<
    (Option<Seq<char>>, Option<Seq<char>>, Option<Seq<char>>),
> {
    let g1 = unit_group(s, 'h');
    let g2 = unit_group(g1.1, 'm');
    let g3 = unit_group(g2.1, 's');
    if g3.1.len() == 0 {
        Some((g1.0, g2.0, g3.0))
    } else {
        None
    }
}

/// The value of a run of ASCII digits.
pub open spec fn decimal_value(t: Seq<char>) -> nat
    decreases t.len(),
{
    if t.len() == 0 {
        0
    } else {
        decimal_value(t.drop_last()) * 10 + ((t.last() as nat) - ('0' as nat)) as nat
    }
}

/// Whether every character of `t` is an ASCII digit.
pub open spec fn is_ascii_digits(t: Seq<char>) -> bool {
    forall|i: int| 0 <= i < t.len() ==> '0' <= #[trigger] t[i] && t[i] <= '9'
}

/// What a captured group counts for: its value when it reads as a `u64`
/// (ASCII digits, not above `u64::MAX`), zero when it does not or is absent.
pub open spec fn group_value(g: Option<Seq<char>>) -> nat {
    match g {
        Some(t) => if is_ascii_digits(t) && decimal_value(t) <= u64::MAX {
            decimal_value(t)
        } else {
            0
        },
        None => 0,
    }
}

/// The number of seconds that a duration text stands for, or why it stands
/// for none.
pub open spec fn parsed_duration(s: Seq<char>) -> Result<int, ParseError> {
    if s.len() == 0 {
        Err(ParseError::Empty)
    } else {
        match duration_groups(s) {
            None => Err(ParseError::InvalidFormat),
            Some(g) => if g.0 is None && g.1 is None && g.2 is None {
                Err(ParseError::InvalidFormat)
            } else {
                Ok((group_value(g.0) * 3600 + group_value(g.1) * 60 + group_value(g.2)) as int)
            },
        }
    }
}

/// Whether reading `s` stays within `u64`.
pub open spec fn duration_fits(s: Seq<char>) -> bool {
    parsed_duration(s) matches Ok(v) ==> v <= u64::MAX
}

proof fn lemma_digit_run_at(s: Seq<char>, k: int)
    requires
        0 <= k <= s.len(),
        forall|i: int| 0 <= i < k ==> is_unicode_digit(#[trigger] s[i]),
        k == s.len() || !is_unicode_digit(s[k]),
    ensures
        digit_run(s) == k,
    decreases k,
{
    if k > 0 {
        let t = s.drop_first();
        assert forall|i: int| 0 <= i < k - 1 implies is_unicode_digit(#[trigger] t[i]) by {
            assert(t[i] == s[i + 1]);
        }
        if k - 1 < t.len() {
            assert(t[k - 1] == s[k]);
        }
        lemma_digit_run_at(t, k - 1);
    }
}

/// Reads the group `(\d+)<unit>` of `s` at `pos`: the range of its digits if
/// it is there, and where reading goes on.
fn scan_group(s: &Vec<char>, pos: usize, unit: char) -> (r: (Option<(usize, usize)>, usize))
    requires
        pos <= s.len(),
        unit == 'h' || unit == 'm' || unit == 's',
    ensures
        r.1 <= s.len(),
        s@.skip(r.1 as int) == unit_group(s@.skip(pos as int), unit).1,
        match r.0 {
            Some((a, b)) => a == pos && a < b && b < s.len() && unit_group(
                s@.skip(pos as int),
                unit,
            ).0 == Some(s@.subrange(a as int, b as int)),
            None => unit_group(s@.skip(pos as int), unit).0 is None,
        },
{
    let ghost t = s@.skip(pos as int);
    let mut k: usize = pos;
    while k < s.len() && regex_digit_class(s[k])
        invariant
            pos <= k <= s.len(),
            t == s@.skip(pos as int),
            forall|i: int| 0 <= i < k - pos ==> is_unicode_digit(#[trigger] t[i]),
        decreases s.len() - k,
    {
        k += 1;
    }
    proof {
        if k < s.len() {
            assert(t[k - pos] == s@[k as int]);
        }
        lemma_digit_run_at(t, k - pos);
    }
    if k > pos && k < s.len() && s[k] == unit {
        proof {
            assert(t.take(k - pos) =~= s@.subrange(pos as int, k as int));
            assert(t.skip(k - pos + 1) =~= s@.skip(k + 1));
        }
        (Some((pos, k)), k + 1)
    } else {
        (None, pos)
    }
}

pub(crate) proof fn lemma_decimal_value_step(t: Seq<char>, k: int)
    requires
        0 <= k < t.len(),
    ensures
        decimal_value(t.take(k + 1)) == decimal_value(t.take(k)) * 10 + ((t[k] as nat) - ('0' as nat)) as nat,
{
    assert(t.take(k + 1).drop_last() =~= t.take(k));
}

pub(crate) proof fn lemma_decimal_value_monotone(t: Seq<char>, k: int)
    requires
        0 <= k <= t.len(),
        is_ascii_digits(t),
    ensures
        decimal_value(t.take(k)) <= decimal_value(t),
    decreases t.len() - k,
{
    if k < t.len() {
        lemma_decimal_value_step(t, k);
        lemma_decimal_value_monotone(t, k + 1);
    } else {
        assert(t.take(k) =~= t);
    }
}

/// The value of the group `s[from..to]` as a count is read from it: its
/// `u64` value, or zero when it is not one.
fn group_number(s: &Vec<char>, from: usize, to: usize) -> (v: u64)
    requires
        from <= to <= s.len(),
    ensures
        v == group_value(Some(s@.subrange(from as int, to as int))),
{
    let ghost t = s@.subrange(from as int, to as int);
    let mut i: usize = from;
    while i < to
        invariant
            from <= i <= to <= s.len(),
            t == s@.subrange(from as int, to as int),
            forall|j: int| 0 <= j < i - from ==> '0' <= #[trigger] t[j] && t[j] <= '9',
        decreases to - i,
    {
        if !('0' <= s[i] && s[i] <= '9') {
            assert(!('0' <= t[i - from] && t[i - from] <= '9'));
            return 0;
        }
        i += 1;
    }
    assert(is_ascii_digits(t));
    let mut value: u64 = 0;
    let mut i: usize = from;
    while i < to
        invariant
            from <= i <= to <= s.len(),
            t == s@.subrange(from as int, to as int),
            is_ascii_digits(t),
            value == decimal_value(t.take(i - from)),
        decreases to - i,
    {
        proof {
            assert(t[i - from] == s@[i as int]);
            assert('0' <= t[i - from] && t[i - from] <= '9');
            lemma_decimal_value_step(t, i - from);
        }
        let d = (s[i] as u32 - '0' as u32) as u64;
        match value.checked_mul(10) {
            Some(tens) => match tens.checked_add(d) {
                Some(next) => {
                    value = next;
                },
                None => {
                    proof {
                        lemma_decimal_value_monotone(t, i - from + 1);
                    }
                    return 0;
                },
            },
            None => {
                proof {
                    lemma_decimal_value_monotone(t, i - from + 1);
                }
                return 0;
            },
        }
        i += 1;
    }
    assert(t.take(to - from) =~= t);
    value
}

/// Reads a duration such as `2h30m` or `45s` into seconds.
pub fn parse_time_to_seconds(input: &str) -> (result: Result<u64, ParseError>)
    requires
        duration_fits(input@),
    ensures
        match parsed_duration(input@) {
            Ok(v) => result == Ok::<u64, ParseError>(v as u64),
            Err(e) => result == Err::<u64, ParseError>(e),
        },
{
    let s = chars_of(input);
    if s.len() == 0 {
        return Err(ParseError::Empty);
    }
    assert(s@.skip(0) =~= s@);
    let (hours_at, p1) = scan_group(&s, 0, 'h');
    let (minutes_at, p2) = scan_group(&s, p1, 'm');
    let (seconds_at, p3) = scan_group(&s, p2, 's');
    if p3 != s.len() {
        return Err(ParseError::InvalidFormat);
    }
    assert(s@.skip(p3 as int).len() == 0);
    let hours: u64 = match hours_at {
        Some((a, b)) => group_number(&s, a, b),
        None => 0,
    };
    let minutes: u64 = match minutes_at {
        Some((a, b)) => group_number(&s, a, b),
        None => 0,
    };
    let seconds: u64 = match seconds_at {
        Some((a, b)) => group_number(&s, a, b),
        None => 0,
    };
    let has_match = hours_at.is_some() || minutes_at.is_some() || seconds_at.is_some();
    if !has_match {
        return Err(ParseError::InvalidFormat);
    }
    Ok((hours * 3600) + (minutes * 60) + seconds)
}

/// Reads a duration like `parse_time_to_seconds`, or gives `None` where the
/// number of seconds would not fit in `u64`.
pub fn checked_parse_time_to_seconds(input: &str) -> (result: Option<Result<u64, ParseError>>)
    ensures
        duration_fits(input@) ==> result == Some(
            match parsed_duration(input@) {
                Ok(v) => Ok::<u64, ParseError>(v as u64),
                Err(e) => Err::<u64, ParseError>(e),
            },
        ),
        !duration_fits(input@) ==> result is None,
{
    let s = chars_of(input);
    if s.len() == 0 {
        return Some(parse_time_to_seconds(input));
    }
    assert(s@.skip(0) =~= s@);
    let (hours_at, p1) = scan_group(&s, 0, 'h');
    let (minutes_at, p2) = scan_group(&s, p1, 'm');
    let (seconds_at, p3) = scan_group(&s, p2, 's');
    if p3 != s.len() {
        return Some(parse_time_to_seconds(input));
    }
    assert(s@.skip(p3 as int).len() == 0);
    let hours: u64 = match hours_at {
        Some((a, b)) => group_number(&s, a, b),
        None => 0,
    };
    let minutes: u64 = match minutes_at {
        Some((a, b)) => group_number(&s, a, b),
        None => 0,
    };
    let seconds: u64 = match seconds_at {
        Some((a, b)) => group_number(&s, a, b),
        None => 0,
    };
    let fits = match hours.checked_mul(3600) {
        Some(h) => match minutes.checked_mul(60) {
            Some(m) => match h.checked_add(m) {
                Some(hm) => hm.checked_add(seconds).is_some(),
                None => false,
            },
            None => false,
        },
        None => false,
    };
    if fits {
        Some(parse_time_to_seconds(input))
    } else {
        None
    }
}

/// The ASCII digit for `d < 10`.
pub open spec fn digit_char(d: nat) -> char {
    if d == 0 { '0' }
    else if d == 1 { '1' }
    else if d == 2 { '2' }
    else if d == 3 { '3' }
    else if d == 4 { '4' }
    else if d == 5 { '5' }
    else if d == 6 { '6' }
    else if d == 7 { '7' }
    else if d == 8 { '8' }
    else { '9' }
}

/// `n` written in decimal, without leading zeros (`"0"` for zero).
pub open spec fn decimal_text(n: nat) -> Seq<char>
    decreases n,
{
    if n < 10 {
        seq![digit_char(n)]
    } else {
        decimal_text(n / 10).push(digit_char(n % 10))
    }
}

fn digit_of(d: u64) -> (c: char)
    requires
        d < 10,
    ensures
        c == digit_char(d as nat),
{
    if d == 0 { '0' }
    else if d == 1 { '1' }
    else if d == 2 { '2' }
    else if d == 3 { '3' }
    else if d == 4 { '4' }
    else if d == 5 { '5' }
    else if d == 6 { '6' }
    else if d == 7 { '7' }
    else if d == 8 { '8' }
    else { '9' }
}

/// Appends `n` in decimal to `out`.
pub fn push_decimal(out: &mut Vec<char>, n: u64)
    ensures
        final(out)@ == old(out)@ + decimal_text(n as nat),
    decreases n,
{
    if n < 10 {
        out.push(digit_of(n));
    } else {
        push_decimal(out, n / 10);
        out.push(digit_of(n % 10));
    }
}

/// The hours, minutes and seconds of a number of seconds, through
/// `time_hms::TimeHms::new` and its getters `h`, `m`, `s`.
///
/// Claims what the crate's source computes: minutes and seconds by dividing
/// by 60, then hours and minutes by dividing the minutes by 60.
#[verifier::external_body]
fn split_hms(seconds: u64) -> (parts: (u64, u64, u64))
    ensures
        parts.0 == seconds / 60 / 60,
        parts.1 == seconds / 60 % 60,
        parts.2 == seconds % 60,
{
    let t = time_hms::TimeHms::new(seconds);
    (t.h(), t.m(), t.s())
}

/// A part of a duration text: the count and its unit, or nothing for zero.
pub open spec fn unit_text(n: nat, unit: char) -> Seq<char> {
    if n > 0 {
        decimal_text(n).push(unit)
    } else {
        seq![]
    }
}

/// How `format_duration` writes `n` seconds: its nonzero hours, minutes and
/// seconds, each with its unit, or `0s`.
pub open spec fn duration_text(n: nat) -> Seq<char> {
    let t = unit_text(n / 60 / 60, 'h') + unit_text(n / 60 % 60, 'm') + unit_text(n % 60, 's');
    if t.len() == 0 {
        seq!['0', 's']
    } else {
        t
    }
}

fn push_unit(out: &mut Vec<char>, n: u64, unit: char)
    ensures
        final(out)@ == old(out)@ + unit_text(n as nat, unit),
{
    if n > 0 {
        push_decimal(out, n);
        out.push(unit);
    }
}

/// Writes a number of seconds as `XhYmZs`, leaving out zero parts.
pub fn format_duration(seconds: u64) -> (result: String)
    ensures
        result@ == duration_text(seconds as nat),
{
    let (h, m, s) = split_hms(seconds);
    let mut out: Vec<char> = Vec::new();
    push_unit(&mut out, h, 'h');
    push_unit(&mut out, m, 'm');
    push_unit(&mut out, s, 's');
    if out.len() == 0 {
        out.push('0');
        out.push('s');
    }
    string_from_chars(&out)
}

proof fn lemma_digit_char(d: nat)
    requires
        d < 10,
    ensures
        '0' <= digit_char(d) && digit_char(d) <= '9',
        (digit_char(d) as nat) - ('0' as nat) == d,
{
}

proof fn lemma_decimal_text_digits(n: nat)
    ensures
        decimal_text(n).len() > 0,
        is_ascii_digits(decimal_text(n)),
        decimal_value(decimal_text(n)) == n,
    decreases n,
{
    if n < 10 {
        lemma_digit_char(n);
        let t = decimal_text(n);
        assert(t.drop_last() =~= Seq::<char>::empty());
        assert(decimal_value(Seq::<char>::empty()) == 0);
    } else {
        lemma_digit_char(n % 10);
        lemma_decimal_text_digits(n / 10);
        let t = decimal_text(n);
        let p = decimal_text(n / 10);
        assert(t.drop_last() =~= p);
        assert forall|i: int| 0 <= i < t.len() implies '0' <= #[trigger] t[i] && t[i] <= '9' by {
            if i < p.len() {
                assert(t[i] == p[i]);
            }
        }
    }
}

proof fn lemma_digit_run_prefix(a: Seq<char>, b: Seq<char>)
    requires
        forall|i: int| 0 <= i < a.len() ==> is_unicode_digit(#[trigger] a[i]),
        b.len() > 0,
        !is_unicode_digit(b[0]),
    ensures
        digit_run(a + b) == a.len(),
{
    let s = a + b;
    assert forall|i: int| 0 <= i < a.len() implies is_unicode_digit(#[trigger] s[i]) by {
        assert(s[i] == a[i]);
    }
    assert(s[a.len() as int] == b[0]);
    lemma_digit_run_at(s, a.len() as int);
}

proof fn lemma_unit_group_on(v: nat, c: char, rest: Seq<char>, unit: char)
    requires
        c == 'h' || c == 'm' || c == 's',
    ensures
        unit_group(decimal_text(v).push(c) + rest, unit) == if c == unit {
            (Some(decimal_text(v)), rest)
        } else {
            (None, decimal_text(v).push(c) + rest)
        },
{
    let d = decimal_text(v);
    lemma_decimal_text_digits(v);
    let s = d.push(c) + rest;
    assert(s =~= d + (seq![c] + rest));
    assert forall|i: int| 0 <= i < d.len() implies is_unicode_digit(#[trigger] d[i]) by {
        assert('0' <= d[i] && d[i] <= '9');
    }
    assert((seq![c] + rest)[0] == c);
    lemma_digit_run_prefix(d, seq![c] + rest);
    assert(s[d.len() as int] == c);
    if c == unit {
        assert(s.take(d.len() as int) =~= d);
        assert(s.skip(d.len() as int + 1) =~= rest);
    }
}

proof fn lemma_unit_group_empty(unit: char)
    ensures
        unit_group(Seq::<char>::empty(), unit) == (None::<Seq<char>>, Seq::<char>::empty()),
{
}

proof fn lemma_group_value_text(v: nat)
    requires
        v <= u64::MAX,
    ensures
        group_value(Some(decimal_text(v))) == v,
{
    lemma_decimal_text_digits(v);
}

proof fn lemma_hms_total(n: nat)
    ensures
        (n / 60 / 60) * 3600 + (n / 60 % 60) * 60 + n % 60 == n,
        n / 60 / 60 <= n,
        n / 60 % 60 <= n,
        n % 60 <= n,
{
    let q = n / 60;
    lemma_fundamental_div_mod(n as int, 60);
    lemma_fundamental_div_mod(q as int, 60);
    lemma_div_nonincreasing(n as int, 60);
    lemma_div_nonincreasing(q as int, 60);
    assert((q / 60) * 3600 + (q % 60) * 60 == 60 * q) by (nonlinear_arith)
        requires
            q == 60 * (q / 60) + q % 60,
    ;
}

/// Reading back what `format_duration` writes gives the same number of
/// seconds.
pub proof fn lemma_parse_format_roundtrip(n: u64)
    ensures
        parsed_duration(duration_text(n as nat)) == Ok::<int, ParseError>(n as int),
{
    let n = n as nat;
    let h = n / 60 / 60;
    let m = n / 60 % 60;
    let x = n % 60;
    lemma_hms_total(n);
    let uh = unit_text(h, 'h');
    let um = unit_text(m, 'm');
    let ux = unit_text(x, 's');
    let t = duration_text(n);
    let empty = Seq::<char>::empty();
    let zero = seq!['0', 's'];
    assert(zero =~= decimal_text(0).push('s') + empty);
    // The part after the seconds group.
    let r3 = empty;
    // The part after the minutes group.
    let r2 = if uh.len() + um.len() + ux.len() == 0 { zero } else { ux };
    // The part after the hours group.
    let r1 = if uh.len() + um.len() + ux.len() == 0 { zero } else { um + ux };
    assert(t =~= uh + r1) by {
        if uh.len() + um.len() + ux.len() > 0 {
            assert(t =~= uh + (um + ux));
        }
    }
    assert(r1 =~= um + r2) by {
        if uh.len() + um.len() + ux.len() == 0 {
            assert(um =~= empty);
        }
    }
    if x > 0 {
        lemma_unit_group_on(x, 's', empty, 's');
        assert(ux =~= decimal_text(x).push('s') + empty);
        lemma_group_value_text(x);
    }
    if m > 0 {
        lemma_unit_group_on(m, 'm', r2, 'm');
        lemma_group_value_text(m);
    }
    if h > 0 {
        lemma_unit_group_on(h, 'h', r1, 'h');
        lemma_group_value_text(h);
    }
    // Groups that are absent leave the text as it is.
    if uh.len() + um.len() + ux.len() == 0 {
        lemma_unit_group_on(0, 's', empty, 'h');
        lemma_unit_group_on(0, 's', empty, 'm');
        lemma_unit_group_on(0, 's', empty, 's');
        lemma_group_value_text(0);
        assert(n == 0);
    } else {
        if h == 0 {
            if m > 0 {
                lemma_unit_group_on(m, 'm', r2, 'h');
            } else {
                lemma_unit_group_on(x, 's', empty, 'h');
            }
        }
        if m == 0 {
            if x > 0 {
                lemma_unit_group_on(x, 's', empty, 'm');
            } else {
                lemma_unit_group_empty('m');
            }
        }
        if x == 0 {
            lemma_unit_group_empty('s');
        }
        if h == 0 && m == 0 && x > 0 {
            lemma_unit_group_on(x, 's', empty, 'h');
        }
    }
    let g1 = unit_group(t, 'h');
    let g2 = unit_group(g1.1, 'm');
    let g3 = unit_group(g2.1, 's');
    assert(g1.1 == r1);
    assert(g2.1 == r2);
    assert(g3.1 == r3);
}

} // verus!
