//! Wire format of the command protocol.
//!
//! A command arrives as a JSON body: a unit command is a bare string
//! (`"Reset"`, `"ResetNvs"`), a command with fields is an object with one
//! tag key whose value is an object of the fields in declaration order
//! (`{"SetLedColor":{"r":0,"g":20,"b":0}}`). Strings accept the single-
//! character escapes `\" \\ \/ \b \f \n \r \t`; numeric escapes are not part
//! of this grammar, nor are numbers with signs or exponents. A duty cycle is
//! a decimal fraction of the period (`{"SetPwmDutyCycle":{"duty_cycle":
//! 0.25}}`) and is converted exactly to per-mille: at most three fractional
//! digits may be significant, any further digits must be zero.
//!
//! Decoding fails closed: a payload whose tag names no known command is
//! rejected as [`CommandError::UnknownCommand`], a known tag in the wrong
//! shape and every other deviation as [`CommandError::Malformed`]. The spec
//! functions here are the grammar; the decoder is proved to return exactly
//! what they say on every input.

use vstd::prelude::*;

use crate::api::Command;
use crate::api::CommandError;
use crate::api::CommandModel;
use crate::api::State;
use crate::api::WifiConnectionType;

verus! {

/// JSON whitespace.
pub open spec fn is_ws(c: char) -> bool {
    c == ' ' || c == '\n' || c == '\t' || c == '\r'
}

/// An ASCII decimal digit.
pub open spec fn is_digit(c: char) -> bool {
    48 <= c as u32 <= 57
}

/// Numeric value of a decimal digit.
pub open spec fn digit_val(c: char) -> int {
    c as u32 - 48
}

/// The character a single-character escape stands for, if the escape exists.
pub open spec fn spec_unescape(c: char) -> Option<char> {
    if c == '"' {
        Some('"')
    } else if c == '\\' {
        Some('\\')
    } else if c == '/' {
        Some('/')
    } else if c == 'n' {
        Some('\n')
    } else if c == 't' {
        Some('\t')
    } else if c == 'r' {
        Some('\r')
    } else if c == 'b' {
        Some('\u{0008}')
    } else if c == 'f' {
        Some('\u{000C}')
    } else {
        None
    }
}

/// First position at or after `i` that does not hold whitespace.
pub open spec fn spec_skip_ws(s: Seq<char>, i: int) -> int
    decreases s.len() - i
        when 0 <= i <= s.len()
{
    if i < s.len() && is_ws(s[i]) {
        spec_skip_ws(s, i + 1)
    } else {
        i
    }
}

fn skip_ws(s: &Vec<char>, i: usize) -> (j: usize)
    requires
        i <= s.len(),
    ensures
        j == spec_skip_ws(s@, i as int),
        i <= j <= s.len(),
{
    let mut cur = i;
    while cur < s.len() && (s[cur] == ' ' || s[cur] == '\n' || s[cur] == '\t' || s[cur] == '\r')
        invariant
            i <= cur <= s.len(),
            spec_skip_ws(s@, i as int) == spec_skip_ws(s@, cur as int),
        decreases s.len() - cur,
    {
        cur = cur + 1;
    }
    cur
}

/// The literal `lit` occurs in `s` at position `i`.
pub open spec fn matches_at(s: Seq<char>, i: int, lit: Seq<char>) -> bool {
    &&& 0 <= i
    &&& i + lit.len() <= s.len()
    &&& s.subrange(i, i + lit.len() as int) == lit
}

fn eat_lit(s: &Vec<char>, i: usize, lit: &str) -> (r: Option<usize>)
    requires
        i <= s.len(),
    ensures
        match r {
            Some(j) => matches_at(s@, i as int, lit@) && j == i + lit@.len() && j <= s.len(),
            None => !matches_at(s@, i as int, lit@),
        },
{
    let n = lit.unicode_len();
    if n > s.len() - i {
        return None;
    }
    let mut k: usize = 0;
    while k < n
        invariant
            0 <= k <= n,
            i + n <= s.len(),
            n == lit@.len(),
            forall|m: int| 0 <= m < k ==> s@[i + m] == lit@[m],
        decreases n - k,
    {
        if s[i + k] != lit.get_char(k) {
            proof {
                assert(!matches_at(s@, i as int, lit@)) by {
                    if matches_at(s@, i as int, lit@) {
                        assert(s@.subrange(i as int, i + lit@.len() as int)[k as int] == s@[i
                            + k as int]);
                    }
                }
            }
            return None;
        }
        k = k + 1;
    }
    proof {
        assert(s@.subrange(i as int, i + lit@.len() as int) =~= lit@);
    }
    Some(i + n)
}

/// The characters of a parsed string body together with the position after
/// its closing quote; the cursor starts just after the opening quote.
/// Unescaped control characters, unknown escapes and a missing closing quote
/// make the body invalid.
pub open spec fn spec_string_body(s: Seq<char>, i: int) -> Option<(Seq<char>, int)>
    decreases s.len() - i
        when 0 <= i <= s.len()
{
    if i >= s.len() {
        None
    } else {
        let c = s[i];
        if c == '"' {
            Some((Seq::empty(), i + 1))
        } else if c == '\\' {
            if i + 1 >= s.len() {
                None
            } else {
                match spec_unescape(s[i + 1]) {
                    Some(u) => match spec_string_body(s, i + 2) {
                        Some((rest, j)) => Some((seq![u] + rest, j)),
                        None => None,
                    },
                    None => None,
                }
            }
        } else if (c as u32) < 32 {
            None
        } else {
            match spec_string_body(s, i + 1) {
                Some((rest, j)) => Some((seq![c] + rest, j)),
                None => None,
            }
        }
    }
}

/// Prefixes a parsed string body with already-consumed characters.
pub open spec fn with_prefix(p: Seq<char>, o: Option<(Seq<char>, int)>) -> Option<
    (Seq<char>, int),
> {
    match o {
        Some((rest, j)) => Some((p + rest, j)),
        None => None,
    }
}

fn unescape(c: char) -> (r: Option<char>)
    ensures
        r == spec_unescape(c),
{
    if c == '"' {
        Some('"')
    } else if c == '\\' {
        Some('\\')
    } else if c == '/' {
        Some('/')
    } else if c == 'n' {
        Some('\n')
    } else if c == 't' {
        Some('\t')
    } else if c == 'r' {
        Some('\r')
    } else if c == 'b' {
        Some('\u{0008}')
    } else if c == 'f' {
        Some('\u{000C}')
    } else {
        None
    }
}

fn parse_string_body(s: &Vec<char>, i: usize) -> (r: Option<(Vec<char>, usize)>)
    requires
        i <= s.len(),
    ensures
        match r {
            Some(p) => spec_string_body(s@, i as int) == Some((p.0@, p.1 as int)) && i < p.1
                <= s.len(),
            None => spec_string_body(s@, i as int) is None,
        },
{
    let mut out: Vec<char> = Vec::new();
    let mut cur = i;
    loop
        invariant
            i <= cur <= s.len(),
            spec_string_body(s@, i as int) == with_prefix(out@, spec_string_body(s@, cur as int)),
        decreases s.len() - cur,
    {
        if cur >= s.len() {
            return None;
        }
        let c = s[cur];
        if c == '"' {
            proof {
                assert(out@ + Seq::<char>::empty() =~= out@);
            }
            return Some((out, cur + 1));
        } else if c == '\\' {
            if cur + 1 >= s.len() {
                return None;
            }
            match unescape(s[cur + 1]) {
                Some(u) => {
                    proof {
                        let tail = spec_string_body(s@, cur + 2);
                        if tail is Some {
                            let (rest, j) = tail->0;
                            assert(out@ + (seq![u] + rest) =~= out@.push(u) + rest);
                        }
                    }
                    out.push(u);
                    cur = cur + 2;
                },
                None => {
                    return None;
                },
            }
        } else if (c as u32) < 32 {
            return None;
        } else {
            proof {
                let tail = spec_string_body(s@, cur + 1);
                if tail is Some {
                    let (rest, j) = tail->0;
                    assert(out@ + (seq![c] + rest) =~= out@.push(c) + rest);
                }
            }
            out.push(c);
            cur = cur + 1;
        }
    }
}

/// True when the parsed characters equal the literal.
fn chars_eq_lit(v: &Vec<char>, lit: &str) -> (r: bool)
    ensures
        r == (v@ == lit@),
{
    let n = lit.unicode_len();
    if v.len() != n {
        return false;
    }
    let mut k: usize = 0;
    while k < n
        invariant
            0 <= k <= n,
            n == lit@.len(),
            v@.len() == n,
            forall|m: int| 0 <= m < k ==> v@[m] == lit@[m],
        decreases n - k,
    {
        if v[k] != lit.get_char(k) {
            return false;
        }
        k = k + 1;
    }
    proof {
        assert(v@ =~= lit@);
    }
    true
}

/// First position at or after `i` that does not hold a digit.
pub open spec fn spec_digit_run_end(s: Seq<char>, i: int) -> int
    decreases s.len() - i
        when 0 <= i <= s.len()
{
    if i < s.len() && is_digit(s[i]) {
        spec_digit_run_end(s, i + 1)
    } else {
        i
    }
}

pub proof fn lemma_digit_run_props(s: Seq<char>, i: int)
    requires
        0 <= i <= s.len(),
    ensures
        i <= spec_digit_run_end(s, i) <= s.len(),
        forall|m: int| i <= m < spec_digit_run_end(s, i) ==> is_digit(s[m]),
    decreases s.len() - i,
{
    if i < s.len() && is_digit(s[i]) {
        lemma_digit_run_props(s, i + 1);
    }
}

/// Value of the digits of `s` in positions `i ..= j-1`, most significant
/// first.
pub open spec fn spec_digits_value(s: Seq<char>, i: int, j: int) -> int
    decreases j - i
        when i <= j
{
    if i >= j {
        0
    } else {
        spec_digits_value(s, i, j - 1) * 10 + digit_val(s[j - 1])
    }
}

pub proof fn lemma_digits_value_nonneg(s: Seq<char>, i: int, j: int)
    requires
        0 <= i <= j <= s.len(),
        forall|m: int| i <= m < j ==> is_digit(s[m]),
    ensures
        spec_digits_value(s, i, j) >= 0,
    decreases j - i,
{
    if i < j {
        lemma_digits_value_nonneg(s, i, j - 1);
    }
}

/// A longer digit run never has a smaller value.
pub proof fn lemma_digits_value_monotone(s: Seq<char>, i: int, k: int, j: int)
    requires
        0 <= i <= k <= j <= s.len(),
        forall|m: int| i <= m < j ==> is_digit(s[m]),
    ensures
        spec_digits_value(s, i, k) <= spec_digits_value(s, i, j),
    decreases j - k,
{
    if k < j {
        lemma_digits_value_monotone(s, i, k, j - 1);
        lemma_digits_value_nonneg(s, i, j - 1);
    }
}

/// An unsigned decimal integer at `i`: at least one digit, no leading zero
/// unless the number is exactly zero, value at most `max`.
pub open spec fn spec_parse_int(s: Seq<char>, i: int, max: int) -> Option<(int, int)> {
    let j = spec_digit_run_end(s, i);
    if j == i {
        None
    } else if j - i > 1 && s[i] == '0' {
        None
    } else if spec_digits_value(s, i, j) > max {
        None
    } else {
        Some((spec_digits_value(s, i, j), j))
    }
}

fn digit_run_end(s: &Vec<char>, i: usize) -> (j: usize)
    requires
        i <= s.len(),
    ensures
        j == spec_digit_run_end(s@, i as int),
        i <= j <= s.len(),
        forall|m: int| i <= m < j ==> is_digit(s@[m]),
{
    let mut cur = i;
    while cur < s.len() && (s[cur] as u32 >= 48 && s[cur] as u32 <= 57)
        invariant
            i <= cur <= s.len(),
            spec_digit_run_end(s@, i as int) == spec_digit_run_end(s@, cur as int),
        decreases s.len() - cur,
    {
        cur = cur + 1;
    }
    proof {
        lemma_digit_run_props(s@, i as int);
    }
    cur
}

fn parse_int(s: &Vec<char>, i: usize, max: u32) -> (r: Option<(u32, usize)>)
    requires
        i <= s.len(),
    ensures
        match r {
            Some(p) => spec_parse_int(s@, i as int, max as int) == Some((p.0 as int, p.1 as int))
                && i < p.1 <= s.len(),
            None => spec_parse_int(s@, i as int, max as int) is None,
        },
{
    let j = digit_run_end(s, i);
    if j == i {
        return None;
    }
    if j - i > 1 && s[i] == '0' {
        return None;
    }
    let mut value: u64 = 0;
    let mut cur = i;
    while cur < j
        invariant
            i <= cur <= j <= s.len(),
            j == spec_digit_run_end(s@, i as int),
            forall|m: int| i <= m < j ==> is_digit(s@[m]),
            value == spec_digits_value(s@, i as int, cur as int),
            value <= max,
        decreases j - cur,
    {
        let d = (s[cur] as u32 - 48) as u64;
        let nv = value * 10 + d;
        proof {
            assert(nv == spec_digits_value(s@, i as int, cur + 1 as int));
        }
        if nv > max as u64 {
            proof {
                lemma_digits_value_monotone(s@, i as int, cur + 1 as int, j as int);
            }
            return None;
        }
        value = nv;
        cur = cur + 1;
    }
    Some((value as u32, j))
}

#[verifier::external_body]
/// Relies on String::push: appends exactly the one character.
fn push_char(s: &mut String, c: char)
    ensures
        final(s)@ == old(s)@.push(c),
{
    s.push(c);
}

fn chars_to_string(v: &Vec<char>) -> (s: String)
    ensures
        s@ == v@,
{
    let mut s = String::new();
    let mut k: usize = 0;
    while k < v.len()
        invariant
            k <= v.len(),
            s@ == v@.subrange(0, k as int),
        decreases v.len() - k,
    {
        push_char(&mut s, v[k]);
        proof {
            assert(v@.subrange(0, k as int).push(v@[k as int]) =~= v@.subrange(0, k + 1 as int));
        }
        k = k + 1;
    }
    proof {
        assert(v@.subrange(0, v@.len() as int) =~= v@);
    }
    s
}

/// Largest whole-period part of a duty value whose per-mille form still fits
/// in 32 bits.
pub const DUTY_INT_MAX: u32 = 4294966;

/// Per-mille value of up to three fraction digits in positions `i ..= j-1`,
/// missing digits counting as zero.
pub open spec fn spec_frac_permille(s: Seq<char>, i: int, j: int) -> int {
    (if j > i {
        100 * digit_val(s[i])
    } else {
        0
    }) + (if j > i + 1 {
        10 * digit_val(s[i + 1])
    } else {
        0
    }) + (if j > i + 2 {
        digit_val(s[i + 2])
    } else {
        0
    })
}

/// Fraction digits past the third must all be zero, so that the per-mille
/// conversion is exact.
pub open spec fn spec_frac_tail_zero(s: Seq<char>, i: int, j: int) -> bool {
    forall|m: int| i + 3 <= m < j ==> s[m] == '0'
}

/// A duty value at `i`: a decimal integer, optionally followed by a dot and
/// at least one fraction digit, converted exactly to per-mille.
pub open spec fn spec_parse_duty(s: Seq<char>, i: int) -> Option<(int, int)> {
    match spec_parse_int(s, i, DUTY_INT_MAX as int) {
        None => None,
        Some((vi, j)) => if j < s.len() && s[j] == '.' {
            let fe = spec_digit_run_end(s, j + 1);
            if fe == j + 1 {
                None
            } else if !spec_frac_tail_zero(s, j + 1, fe) {
                None
            } else {
                Some((vi * 1000 + spec_frac_permille(s, j + 1, fe), fe))
            }
        } else {
            Some((vi * 1000, j))
        },
    }
}

fn parse_duty(s: &Vec<char>, i: usize) -> (r: Option<(u32, usize)>)
    requires
        i <= s.len(),
    ensures
        match r {
            Some(p) => spec_parse_duty(s@, i as int) == Some((p.0 as int, p.1 as int)) && i < p.1
                <= s.len(),
            None => spec_parse_duty(s@, i as int) is None,
        },
{
    let (vi, j) = match parse_int(s, i, DUTY_INT_MAX) {
        Some(p) => p,
        None => {
            return None;
        },
    };
    if j < s.len() && s[j] == '.' {
        let fs = j + 1;
        let fe = digit_run_end(s, fs);
        if fe == fs {
            return None;
        }
        let mut m = fs;
        while m < fe
            invariant
                i <= s.len(),
                fs <= m <= fe <= s.len(),
                spec_parse_int(s@, i as int, DUTY_INT_MAX as int) == Some((vi as int, j as int)),
                j < s@.len() && s@[j as int] == '.',
                fs == j + 1,
                fe == spec_digit_run_end(s@, fs as int),
                fe != fs,
                forall|k: int| fs + 3 <= k < m ==> s@[k] == '0',
            decreases fe - m,
        {
            if m - fs >= 3 && s[m] != '0' {
                proof {
                    assert(fs + 3 <= m < fe && s@[m as int] != '0');
                    assert(!spec_frac_tail_zero(s@, fs as int, fe as int));
                }
                return None;
            }
            m = m + 1;
        }
        proof {
            assert(is_digit(s@[fs as int]));
            assert(fe - fs >= 2 ==> is_digit(s@[fs + 1 as int]));
            assert(fe - fs >= 3 ==> is_digit(s@[fs + 2 as int]));
        }
        let d1 = s[fs] as u32 - 48;
        let d2 = if fe - fs >= 2 {
            s[fs + 1] as u32 - 48
        } else {
            0
        };
        let d3 = if fe - fs >= 3 {
            s[fs + 2] as u32 - 48
        } else {
            0
        };
        let frac = 100 * d1 + 10 * d2 + d3;
        Some((vi * 1000 + frac, fe))
    } else {
        Some((vi * 1000, j))
    }
}

/// Whitespace, then exactly the character `c`; yields the position after it.
pub open spec fn spec_after_char(s: Seq<char>, i: int, c: char) -> Option<int> {
    let k = spec_skip_ws(s, i);
    if k < s.len() && s[k] == c {
        Some(k + 1)
    } else {
        None
    }
}

fn after_char(s: &Vec<char>, i: usize, c: char) -> (r: Option<usize>)
    requires
        i <= s.len(),
    ensures
        match r {
            Some(j) => spec_after_char(s@, i as int, c) == Some(j as int) && i < j <= s.len(),
            None => spec_after_char(s@, i as int, c) is None,
        },
{
    let k = skip_ws(s, i);
    if k < s.len() && s[k] == c {
        Some(k + 1)
    } else {
        None
    }
}

/// Whitespace, then exactly the literal; yields the position after it.
pub open spec fn spec_after_lit(s: Seq<char>, i: int, lit: Seq<char>) -> Option<int> {
    let k = spec_skip_ws(s, i);
    if matches_at(s, k, lit) {
        Some(k + lit.len())
    } else {
        None
    }
}

fn after_lit(s: &Vec<char>, i: usize, lit: &str) -> (r: Option<usize>)
    requires
        i <= s.len(),
    ensures
        match r {
            Some(j) => spec_after_lit(s@, i as int, lit@) == Some(j as int) && i <= j <= s.len(),
            None => spec_after_lit(s@, i as int, lit@) is None,
        },
{
    let k = skip_ws(s, i);
    match eat_lit(s, k, lit) {
        Some(j) => Some(j),
        None => None,
    }
}

/// Whitespace, then a quoted string; yields its characters and the position
/// after the closing quote.
pub open spec fn spec_after_string(s: Seq<char>, i: int) -> Option<(Seq<char>, int)> {
    let k = spec_skip_ws(s, i);
    if k < s.len() && s[k] == '"' {
        spec_string_body(s, k + 1)
    } else {
        None
    }
}

fn after_string(s: &Vec<char>, i: usize) -> (r: Option<(Vec<char>, usize)>)
    requires
        i <= s.len(),
    ensures
        match r {
            Some(p) => spec_after_string(s@, i as int) == Some((p.0@, p.1 as int)) && i < p.1
                <= s.len(),
            None => spec_after_string(s@, i as int) is None,
        },
{
    let k = skip_ws(s, i);
    if k < s.len() && s[k] == '"' {
        parse_string_body(s, k + 1)
    } else {
        None
    }
}

/// Whitespace, then an integer of at most `max`; yields value and position.
pub open spec fn spec_after_int(s: Seq<char>, i: int, max: int) -> Option<(int, int)> {
    spec_parse_int(s, spec_skip_ws(s, i), max)
}

fn after_int(s: &Vec<char>, i: usize, max: u32) -> (r: Option<(u32, usize)>)
    requires
        i <= s.len(),
    ensures
        match r {
            Some(p) => spec_after_int(s@, i as int, max as int) == Some((p.0 as int, p.1 as int))
                && i < p.1 <= s.len(),
            None => spec_after_int(s@, i as int, max as int) is None,
        },
{
    let k = skip_ws(s, i);
    parse_int(s, k, max)
}

/// Whitespace, then a duty value; yields per-mille and position.
pub open spec fn spec_after_duty(s: Seq<char>, i: int) -> Option<(int, int)> {
    spec_parse_duty(s, spec_skip_ws(s, i))
}

fn after_duty(s: &Vec<char>, i: usize) -> (r: Option<(u32, usize)>)
    requires
        i <= s.len(),
    ensures
        match r {
            Some(p) => spec_after_duty(s@, i as int) == Some((p.0 as int, p.1 as int)) && i < p.1
                <= s.len(),
            None => spec_after_duty(s@, i as int) is None,
        },
{
    let k = skip_ws(s, i);
    parse_duty(s, k)
}

/// Field object of a credentials command: `{"ssid": <string>, "password":
/// <string>}`, whitespace free between tokens; yields both strings and the
/// position after the closing brace.
pub open spec fn spec_wifi_body(s: Seq<char>, i: int) -> Option<(Seq<char>, Seq<char>, int)> {
    match spec_after_char(s, i, '{') {
        None => None,
        Some(a) => match spec_after_lit(s, a, "\"ssid\""@) {
            None => None,
            Some(b) => match spec_after_char(s, b, ':') {
                None => None,
                Some(c0) => match spec_after_string(s, c0) {
                    None => None,
                    Some((ssid, d)) => match spec_after_char(s, d, ',') {
                        None => None,
                        Some(e) => match spec_after_lit(s, e, "\"password\""@) {
                            None => None,
                            Some(f) => match spec_after_char(s, f, ':') {
                                None => None,
                                Some(g) => match spec_after_string(s, g) {
                                    None => None,
                                    Some((password, h)) => match spec_after_char(s, h, '}') {
                                        None => None,
                                        Some(k) => Some((ssid, password, k)),
                                    },
                                },
                            },
                        },
                    },
                },
            },
        },
    }
}

fn wifi_body(s: &Vec<char>, i: usize) -> (r: Option<(Vec<char>, Vec<char>, usize)>)
    requires
        i <= s.len(),
    ensures
        match r {
            Some(p) => spec_wifi_body(s@, i as int) == Some((p.0@, p.1@, p.2 as int)) && i < p.2
                <= s.len(),
            None => spec_wifi_body(s@, i as int) is None,
        },
{
    let a = match after_char(s, i, '{') {
        Some(x) => x,
        None => {
            return None;
        },
    };
    let b = match after_lit(s, a, "\"ssid\"") {
        Some(x) => x,
        None => {
            return None;
        },
    };
    let c0 = match after_char(s, b, ':') {
        Some(x) => x,
        None => {
            return None;
        },
    };
    let (ssid, d) = match after_string(s, c0) {
        Some(p) => p,
        None => {
            return None;
        },
    };
    let e = match after_char(s, d, ',') {
        Some(x) => x,
        None => {
            return None;
        },
    };
    let f = match after_lit(s, e, "\"password\"") {
        Some(x) => x,
        None => {
            return None;
        },
    };
    let g = match after_char(s, f, ':') {
        Some(x) => x,
        None => {
            return None;
        },
    };
    let (password, h) = match after_string(s, g) {
        Some(p) => p,
        None => {
            return None;
        },
    };
    let k = match after_char(s, h, '}') {
        Some(x) => x,
        None => {
            return None;
        },
    };
    Some((ssid, password, k))
}

/// Field object of an indicator command: `{"r": <0-255>, "g": <0-255>,
/// "b": <0-255>}`; yields the three intensities and the position after the
/// closing brace.
pub open spec fn spec_led_body(s: Seq<char>, i: int) -> Option<(int, int, int, int)> {
    match spec_after_char(s, i, '{') {
        None => None,
        Some(a) => match spec_after_lit(s, a, "\"r\""@) {
            None => None,
            Some(b) => match spec_after_char(s, b, ':') {
                None => None,
                Some(c0) => match spec_after_int(s, c0, 255) {
                    None => None,
                    Some((rv, d)) => match spec_after_char(s, d, ',') {
                        None => None,
                        Some(e) => match spec_after_lit(s, e, "\"g\""@) {
                            None => None,
                            Some(f) => match spec_after_char(s, f, ':') {
                                None => None,
                                Some(g) => match spec_after_int(s, g, 255) {
                                    None => None,
                                    Some((gv, h)) => match spec_after_char(s, h, ',') {
                                        None => None,
                                        Some(k) => match spec_after_lit(s, k, "\"b\""@) {
                                            None => None,
                                            Some(l) => match spec_after_char(s, l, ':') {
                                                None => None,
                                                Some(m) => match spec_after_int(s, m, 255) {
                                                    None => None,
                                                    Some((bv, n)) => match spec_after_char(
                                                        s,
                                                        n,
                                                        '}',
                                                    ) {
                                                        None => None,
                                                        Some(p) => Some((rv, gv, bv, p)),
                                                    },
                                                },
                                            },
                                        },
                                    },
                                },
                            },
                        },
                    },
                },
            },
        },
    }
}

fn led_body(s: &Vec<char>, i: usize) -> (r: Option<(u32, u32, u32, usize)>)
    requires
        i <= s.len(),
    ensures
        match r {
            Some(p) => spec_led_body(s@, i as int) == Some(
                (p.0 as int, p.1 as int, p.2 as int, p.3 as int),
            ) && i < p.3 <= s.len() && p.0 <= 255 && p.1 <= 255 && p.2 <= 255,
            None => spec_led_body(s@, i as int) is None,
        },
{
    let a = match after_char(s, i, '{') {
        Some(x) => x,
        None => {
            return None;
        },
    };
    let b = match after_lit(s, a, "\"r\"") {
        Some(x) => x,
        None => {
            return None;
        },
    };
    let c0 = match after_char(s, b, ':') {
        Some(x) => x,
        None => {
            return None;
        },
    };
    let (rv, d) = match after_int(s, c0, 255) {
        Some(p) => p,
        None => {
            return None;
        },
    };
    let e = match after_char(s, d, ',') {
        Some(x) => x,
        None => {
            return None;
        },
    };
    let f = match after_lit(s, e, "\"g\"") {
        Some(x) => x,
        None => {
            return None;
        },
    };
    let g = match after_char(s, f, ':') {
        Some(x) => x,
        None => {
            return None;
        },
    };
    let (gv, h) = match after_int(s, g, 255) {
        Some(p) => p,
        None => {
            return None;
        },
    };
    let k = match after_char(s, h, ',') {
        Some(x) => x,
        None => {
            return None;
        },
    };
    let l = match after_lit(s, k, "\"b\"") {
        Some(x) => x,
        None => {
            return None;
        },
    };
    let m = match after_char(s, l, ':') {
        Some(x) => x,
        None => {
            return None;
        },
    };
    let (bv, n) = match after_int(s, m, 255) {
        Some(p) => p,
        None => {
            return None;
        },
    };
    let p = match after_char(s, n, '}') {
        Some(x) => x,
        None => {
            return None;
        },
    };
    Some((rv, gv, bv, p))
}

/// Field object of an actuation command: `{"duty_cycle": <decimal>}`; yields
/// the per-mille duty and the position after the closing brace.
pub open spec fn spec_pwm_body(s: Seq<char>, i: int) -> Option<(int, int)> {
    match spec_after_char(s, i, '{') {
        None => None,
        Some(a) => match spec_after_lit(s, a, "\"duty_cycle\""@) {
            None => None,
            Some(b) => match spec_after_char(s, b, ':') {
                None => None,
                Some(c0) => match spec_after_duty(s, c0) {
                    None => None,
                    Some((duty, d)) => match spec_after_char(s, d, '}') {
                        None => None,
                        Some(e) => Some((duty, e)),
                    },
                },
            },
        },
    }
}

fn pwm_body(s: &Vec<char>, i: usize) -> (r: Option<(u32, usize)>)
    requires
        i <= s.len(),
    ensures
        match r {
            Some(p) => spec_pwm_body(s@, i as int) == Some((p.0 as int, p.1 as int)) && i < p.1
                <= s.len(),
            None => spec_pwm_body(s@, i as int) is None,
        },
{
    let a = match after_char(s, i, '{') {
        Some(x) => x,
        None => {
            return None;
        },
    };
    let b = match after_lit(s, a, "\"duty_cycle\"") {
        Some(x) => x,
        None => {
            return None;
        },
    };
    let c0 = match after_char(s, b, ':') {
        Some(x) => x,
        None => {
            return None;
        },
    };
    let (duty, d) = match after_duty(s, c0) {
        Some(p) => p,
        None => {
            return None;
        },
    };
    let e = match after_char(s, d, '}') {
        Some(x) => x,
        None => {
            return None;
        },
    };
    Some((duty, e))
}

/// The whole command grammar: what any payload decodes to, or with which
/// error it is rejected.
pub open spec fn spec_decode(s: Seq<char>) -> Result<CommandModel, CommandError> {
    let i0 = spec_skip_ws(s, 0);
    if i0 < s.len() && s[i0] == '"' {
        match spec_string_body(s, i0 + 1) {
            None => Err(CommandError::Malformed),
            Some((tag, j)) => if spec_skip_ws(s, j) != s.len() {
                Err(CommandError::Malformed)
            } else if tag == "Reset"@ {
                Ok(CommandModel::Reset)
            } else if tag == "ResetNvs"@ {
                Ok(CommandModel::ResetNvs)
            } else if tag == "SetWifi"@ || tag == "SetLedColor"@ || tag == "SetPwmDutyCycle"@ {
                Err(CommandError::Malformed)
            } else {
                Err(CommandError::UnknownCommand)
            },
        }
    } else if i0 < s.len() && s[i0] == '{' {
        let i1 = spec_skip_ws(s, i0 + 1);
        if !(i1 < s.len() && s[i1] == '"') {
            Err(CommandError::Malformed)
        } else {
            match spec_string_body(s, i1 + 1) {
                None => Err(CommandError::Malformed),
                Some((tag, j)) => match spec_after_char(s, j, ':') {
                    None => Err(CommandError::Malformed),
                    Some(v0) => if tag == "SetWifi"@ {
                        match spec_wifi_body(s, v0) {
                            None => Err(CommandError::Malformed),
                            Some((ssid, password, e)) => match spec_after_char(s, e, '}') {
                                None => Err(CommandError::Malformed),
                                Some(t) => if spec_skip_ws(s, t) == s.len() {
                                    Ok(CommandModel::SetWifi { ssid, password })
                                } else {
                                    Err(CommandError::Malformed)
                                },
                            },
                        }
                    } else if tag == "SetLedColor"@ {
                        match spec_led_body(s, v0) {
                            None => Err(CommandError::Malformed),
                            Some((rv, gv, bv, e)) => match spec_after_char(s, e, '}') {
                                None => Err(CommandError::Malformed),
                                Some(t) => if spec_skip_ws(s, t) == s.len() {
                                    Ok(CommandModel::SetLedColor { r: rv, g: gv, b: bv })
                                } else {
                                    Err(CommandError::Malformed)
                                },
                            },
                        }
                    } else if tag == "SetPwmDutyCycle"@ {
                        match spec_pwm_body(s, v0) {
                            None => Err(CommandError::Malformed),
                            Some((duty, e)) => match spec_after_char(s, e, '}') {
                                None => Err(CommandError::Malformed),
                                Some(t) => if spec_skip_ws(s, t) == s.len() {
                                    Ok(CommandModel::SetPwmDutyCycle { duty_permille: duty })
                                } else {
                                    Err(CommandError::Malformed)
                                },
                            },
                        }
                    } else if tag == "Reset"@ || tag == "ResetNvs"@ {
                        Err(CommandError::Malformed)
                    } else {
                        Err(CommandError::UnknownCommand)
                    },
                },
            }
        }
    } else {
        Err(CommandError::Malformed)
    }
}

/// Decodes one wire payload into a command, exactly as the grammar
/// ([`spec_decode`]) says, rejecting everything else with the error the
/// grammar assigns.
pub fn decode_command(payload: &str) -> (r: Result<Command, CommandError>)
    ensures
        match spec_decode(payload@) {
            Ok(cm) => r matches Ok(c) && c@ == cm,
            Err(e) => r matches Err(e2) && e2 == e,
        },
{
    let v = str_to_chars(payload);
    let i0 = skip_ws(&v, 0);
    if i0 < v.len() && v[i0] == '"' {
        let (tag, j) = match parse_string_body(&v, i0 + 1) {
            Some(p) => p,
            None => {
                return Err(CommandError::Malformed);
            },
        };
        if skip_ws(&v, j) != v.len() {
            return Err(CommandError::Malformed);
        }
        if chars_eq_lit(&tag, "Reset") {
            Ok(Command::Reset)
        } else if chars_eq_lit(&tag, "ResetNvs") {
            Ok(Command::ResetNvs)
        } else if chars_eq_lit(&tag, "SetWifi") || chars_eq_lit(&tag, "SetLedColor")
            || chars_eq_lit(&tag, "SetPwmDutyCycle") {
            Err(CommandError::Malformed)
        } else {
            Err(CommandError::UnknownCommand)
        }
    } else if i0 < v.len() && v[i0] == '{' {
        let i1 = skip_ws(&v, i0 + 1);
        if !(i1 < v.len() && v[i1] == '"') {
            return Err(CommandError::Malformed);
        }
        let (tag, j) = match parse_string_body(&v, i1 + 1) {
            Some(p) => p,
            None => {
                return Err(CommandError::Malformed);
            },
        };
        let v0 = match after_char(&v, j, ':') {
            Some(x) => x,
            None => {
                return Err(CommandError::Malformed);
            },
        };
        if chars_eq_lit(&tag, "SetWifi") {
            let (ssid, password, e) = match wifi_body(&v, v0) {
                Some(p) => p,
                None => {
                    return Err(CommandError::Malformed);
                },
            };
            let t = match after_char(&v, e, '}') {
                Some(x) => x,
                None => {
                    return Err(CommandError::Malformed);
                },
            };
            if skip_ws(&v, t) != v.len() {
                return Err(CommandError::Malformed);
            }
            Ok(
                Command::SetWifi {
                    ssid: chars_to_string(&ssid),
                    password: chars_to_string(&password),
                },
            )
        } else if chars_eq_lit(&tag, "SetLedColor") {
            let (rv, gv, bv, e) = match led_body(&v, v0) {
                Some(p) => p,
                None => {
                    return Err(CommandError::Malformed);
                },
            };
            let t = match after_char(&v, e, '}') {
                Some(x) => x,
                None => {
                    return Err(CommandError::Malformed);
                },
            };
            if skip_ws(&v, t) != v.len() {
                return Err(CommandError::Malformed);
            }
            Ok(Command::SetLedColor { r: rv as u8, g: gv as u8, b: bv as u8 })
        } else if chars_eq_lit(&tag, "SetPwmDutyCycle") {
            let (duty, e) = match pwm_body(&v, v0) {
                Some(p) => p,
                None => {
                    return Err(CommandError::Malformed);
                },
            };
            let t = match after_char(&v, e, '}') {
                Some(x) => x,
                None => {
                    return Err(CommandError::Malformed);
                },
            };
            if skip_ws(&v, t) != v.len() {
                return Err(CommandError::Malformed);
            }
            Ok(Command::SetPwmDutyCycle { duty_permille: duty })
        } else if chars_eq_lit(&tag, "Reset") || chars_eq_lit(&tag, "ResetNvs") {
            Err(CommandError::Malformed)
        } else {
            Err(CommandError::UnknownCommand)
        }
    } else {
        Err(CommandError::Malformed)
    }
}

fn str_to_chars(s: &str) -> (v: Vec<char>)
    ensures
        v@ == s@,
{
    let n = s.unicode_len();
    let mut v: Vec<char> = Vec::new();
    let mut k: usize = 0;
    while k < n
        invariant
            k <= n,
            n == s@.len(),
            v@ == s@.subrange(0, k as int),
        decreases n - k,
    {
        v.push(s.get_char(k));
        proof {
            assert(s@.subrange(0, k as int).push(s@[k as int]) =~= s@.subrange(0, k + 1 as int));
        }
        k = k + 1;
    }
    proof {
        assert(s@.subrange(0, s@.len() as int) =~= s@);
    }
    v
}

/// The character of one decimal digit.
pub open spec fn digit_char(d: int) -> char {
    ((48 + d) as u8) as char
}

/// Decimal digits of a non-negative number, most significant first.
pub open spec fn spec_u32_digits(n: int) -> Seq<char>
    decreases n
        when n >= 0
{
    if n < 10 {
        seq![digit_char(n)]
    } else {
        spec_u32_digits(n / 10).push(digit_char(n % 10))
    }
}

/// Decimal form of a signed number: a minus sign before the digits when
/// negative.
pub open spec fn spec_i32_digits(n: int) -> Seq<char> {
    if n < 0 {
        seq!['-'] + spec_u32_digits(-n)
    } else {
        spec_u32_digits(n)
    }
}

/// How one character is written inside an encoded string: the escapes the
/// grammar knows, every other character as itself.
pub open spec fn spec_escape_char(c: char) -> Seq<char> {
    if c == '"' {
        seq!['\\', '"']
    } else if c == '\\' {
        seq!['\\', '\\']
    } else if c == '\n' {
        seq!['\\', 'n']
    } else if c == '\t' {
        seq!['\\', 't']
    } else if c == '\r' {
        seq!['\\', 'r']
    } else if c == '\u{0008}' {
        seq!['\\', 'b']
    } else if c == '\u{000C}' {
        seq!['\\', 'f']
    } else {
        seq![c]
    }
}

/// An encoded string body: each character escaped as the grammar requires.
pub open spec fn spec_escape(s: Seq<char>) -> Seq<char>
    decreases s.len(),
{
    if s.len() == 0 {
        Seq::empty()
    } else {
        spec_escape_char(s[0]) + spec_escape(s.skip(1))
    }
}

/// The word a boolean is written as.
pub open spec fn spec_bool_chars(b: bool) -> Seq<char> {
    if b {
        "true"@
    } else {
        "false"@
    }
}

/// The name a connection mode is written as.
pub open spec fn spec_connection_chars(t: WifiConnectionType) -> Seq<char> {
    match t {
        WifiConnectionType::ConnectToExternal => "ConnectToExternal"@,
        WifiConnectionType::StartAccessPoint => "StartAccessPoint"@,
    }
}

/// The serialized snapshot served on a state read: every field of the
/// device state, groups in a fixed order, telemetry as scaled integers.
pub open spec fn spec_state_json(s: State) -> Seq<char> {
    "{\"battery\":{\"soc_permille\":"@ + spec_u32_digits(s.battery.soc_permille as int)
        + ",\"voltage_mv\":"@ + spec_u32_digits(s.battery.voltage_mv as int)
        + ",\"charge_rate_mpph\":"@ + spec_i32_digits(s.battery.charge_rate_mpph as int)
        + "},\"pyro\":{\"channel1\":{\"fire\":"@ + spec_bool_chars(s.pyro.channel1.fire)
        + ",\"test_voltage_mv\":"@ + spec_u32_digits(s.pyro.channel1.test_voltage_mv as int)
        + "},\"channel2\":{\"fire\":"@ + spec_bool_chars(s.pyro.channel2.fire)
        + ",\"test_voltage_mv\":"@ + spec_u32_digits(s.pyro.channel2.test_voltage_mv as int)
        + "}},\"wifi_state\":{\"connection_type\":\""@ + spec_connection_chars(
        s.wifi_state.connection_type,
    ) + "\",\"credentials\":{\"ssid\":\""@ + spec_escape(s.wifi_state.credentials.ssid@)
        + "\",\"password\":\""@ + spec_escape(s.wifi_state.credentials.password@)
        + "\"}},\"stale\":{\"battery\":"@ + spec_bool_chars(s.stale.battery)
        + ",\"pyro_channel1\":"@ + spec_bool_chars(s.stale.pyro_channel1)
        + ",\"pyro_channel2\":"@ + spec_bool_chars(s.stale.pyro_channel2) + "}}"@
}

fn push_lit(out: &mut Vec<char>, lit: &str)
    ensures
        final(out)@ == old(out)@ + lit@,
{
    let n = lit.unicode_len();
    let mut k: usize = 0;
    while k < n
        invariant
            k <= n,
            n == lit@.len(),
            out@ == old(out)@ + lit@.subrange(0, k as int),
        decreases n - k,
    {
        out.push(lit.get_char(k));
        proof {
            assert(old(out)@ + lit@.subrange(0, k as int).push(lit@[k as int]) =~= old(out)@
                + lit@.subrange(0, k + 1 as int));
        }
        k = k + 1;
    }
    proof {
        assert(old(out)@ + lit@.subrange(0, lit@.len() as int) =~= old(out)@ + lit@);
    }
}

fn push_u32_digits(out: &mut Vec<char>, n: u32)
    ensures
        final(out)@ == old(out)@ + spec_u32_digits(n as int),
    decreases n,
{
    if n < 10 {
        out.push((48 + n as u8) as char);
        proof {
            assert(old(out)@.push(digit_char(n as int)) =~= old(out)@ + seq![
                digit_char(n as int),
            ]);
        }
    } else {
        push_u32_digits(out, n / 10);
        out.push((48 + (n % 10) as u8) as char);
        proof {
            assert((old(out)@ + spec_u32_digits(n as int / 10)).push(
                digit_char(n as int % 10),
            ) =~= old(out)@ + spec_u32_digits(n as int / 10).push(digit_char(n as int % 10)));
        }
    }
}

fn push_i32_digits(out: &mut Vec<char>, n: i32)
    ensures
        final(out)@ == old(out)@ + spec_i32_digits(n as int),
{
    if n < 0 {
        let magnitude = (-(n as i64)) as u32;
        out.push('-');
        push_u32_digits(out, magnitude);
        proof {
            assert(old(out)@.push('-') + spec_u32_digits(magnitude as int) =~= old(out)@ + (seq![
                '-',
            ] + spec_u32_digits(-(n as int))));
        }
    } else {
        push_u32_digits(out, n as u32);
    }
}

fn push_bool(out: &mut Vec<char>, b: bool)
    ensures
        final(out)@ == old(out)@ + spec_bool_chars(b),
{
    if b {
        push_lit(out, "true");
    } else {
        push_lit(out, "false");
    }
}

fn push_escaped(out: &mut Vec<char>, s: &str)
    ensures
        final(out)@ == old(out)@ + spec_escape(s@),
{
    let n = s.unicode_len();
    proof {
        assert(s@.skip(0) =~= s@);
    }
    let mut k: usize = 0;
    while k < n
        invariant
            k <= n,
            n == s@.len(),
            out@ + spec_escape(s@.skip(k as int)) == old(out)@ + spec_escape(s@),
        decreases n - k,
    {
        let c = s.get_char(k);
        proof {
            let rest = s@.skip(k as int);
            assert(rest[0] == c);
            assert(rest.skip(1) =~= s@.skip(k + 1 as int));
            assert(spec_escape(rest) == spec_escape_char(c) + spec_escape(s@.skip(k + 1 as int)));
        }
        if c == '"' {
            push_lit(out, "\\\"");
            proof {
                reveal_strlit("\\\"");
                assert("\\\""@ =~= spec_escape_char(c));
            }
        } else if c == '\\' {
            push_lit(out, "\\\\");
            proof {
                reveal_strlit("\\\\");
                assert("\\\\"@ =~= spec_escape_char(c));
            }
        } else if c == '\n' {
            push_lit(out, "\\n");
            proof {
                reveal_strlit("\\n");
                assert("\\n"@ =~= spec_escape_char(c));
            }
        } else if c == '\t' {
            push_lit(out, "\\t");
            proof {
                reveal_strlit("\\t");
                assert("\\t"@ =~= spec_escape_char(c));
            }
        } else if c == '\r' {
            push_lit(out, "\\r");
            proof {
                reveal_strlit("\\r");
                assert("\\r"@ =~= spec_escape_char(c));
            }
        } else if c == '\u{0008}' {
            push_lit(out, "\\b");
            proof {
                reveal_strlit("\\b");
                assert("\\b"@ =~= spec_escape_char(c));
            }
        } else if c == '\u{000C}' {
            push_lit(out, "\\f");
            proof {
                reveal_strlit("\\f");
                assert("\\f"@ =~= spec_escape_char(c));
            }
        } else {
            out.push(c);
            proof {
                assert(seq![c] =~= spec_escape_char(c));
            }
        }
        proof {
            assert(out@ + spec_escape(s@.skip(k + 1 as int)) =~= old(out)@ + spec_escape(s@));
        }
        k = k + 1;
    }
    proof {
        assert(spec_escape(s@.skip(n as int)) =~= Seq::<char>::empty());
        assert(out@ + spec_escape(s@.skip(n as int)) =~= out@);
    }
}

/// Serializes a device state snapshot exactly as [`spec_state_json`] says.
pub fn encode_state(s: &State) -> (r: String)
    ensures
        r@ == spec_state_json(*s),
{
    let mut out: Vec<char> = Vec::new();
    push_lit(&mut out, "{\"battery\":{\"soc_permille\":");
    push_u32_digits(&mut out, s.battery.soc_permille as u32);
    push_lit(&mut out, ",\"voltage_mv\":");
    push_u32_digits(&mut out, s.battery.voltage_mv);
    push_lit(&mut out, ",\"charge_rate_mpph\":");
    push_i32_digits(&mut out, s.battery.charge_rate_mpph);
    push_lit(&mut out, "},\"pyro\":{\"channel1\":{\"fire\":");
    push_bool(&mut out, s.pyro.channel1.fire);
    push_lit(&mut out, ",\"test_voltage_mv\":");
    push_u32_digits(&mut out, s.pyro.channel1.test_voltage_mv);
    push_lit(&mut out, "},\"channel2\":{\"fire\":");
    push_bool(&mut out, s.pyro.channel2.fire);
    push_lit(&mut out, ",\"test_voltage_mv\":");
    push_u32_digits(&mut out, s.pyro.channel2.test_voltage_mv);
    push_lit(&mut out, "}},\"wifi_state\":{\"connection_type\":\"");
    match s.wifi_state.connection_type {
        WifiConnectionType::ConnectToExternal => push_lit(&mut out, "ConnectToExternal"),
        WifiConnectionType::StartAccessPoint => push_lit(&mut out, "StartAccessPoint"),
    }
    push_lit(&mut out, "\",\"credentials\":{\"ssid\":\"");
    push_escaped(&mut out, s.wifi_state.credentials.ssid.as_str());
    push_lit(&mut out, "\",\"password\":\"");
    push_escaped(&mut out, s.wifi_state.credentials.password.as_str());
    push_lit(&mut out, "\"}},\"stale\":{\"battery\":");
    push_bool(&mut out, s.stale.battery);
    push_lit(&mut out, ",\"pyro_channel1\":");
    push_bool(&mut out, s.stale.pyro_channel1);
    push_lit(&mut out, ",\"pyro_channel2\":");
    push_bool(&mut out, s.stale.pyro_channel2);
    push_lit(&mut out, "}}");
    proof {
        assert(out@ =~= spec_state_json(*s));
    }
    chars_to_string(&out)
}

} // verus!
