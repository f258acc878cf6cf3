//! Scanning of the token endpoint's JSON response body.
//!
//! The grammar accepted here is the shape the token endpoint answers
//! with: one object whose member values are plain strings (without
//! escape sequences) or unsigned decimal numbers, with the usual JSON
//! whitespace anywhere between tokens. The spec functions define the
//! accepted text and the extracted values exactly; the executable
//! scanners are proved to return precisely what the spec functions
//! say.

use vstd::prelude::*;
use crate::numeric::{is_digit, digit_of, digit_value};

verus! {

/// JSON whitespace.
pub open spec fn is_json_ws(c: char) -> bool {
    c == ' ' || c == '\n' || c == '\r' || c == '\t'
}

/// A character that may stand inside a string literal: anything but
/// the closing quote or a backslash (escape sequences are not part of
/// the accepted grammar).
pub open spec fn is_string_char(c: char) -> bool {
    c != '"' && c != '\\'
}

/// Index of the first non-whitespace character at or after `i`.
pub open spec fn ws_end(s: Seq<char>, i: int) -> int
    decreases s.len() - i when 0 <= i <= s.len()
{
    if i < s.len() && is_json_ws(s[i]) {
        ws_end(s, i + 1)
    } else {
        i
    }
}

pub proof fn lemma_ws_end_bounds(s: Seq<char>, i: int)
    requires
        0 <= i <= s.len(),
    ensures
        i <= ws_end(s, i) <= s.len(),
    decreases s.len() - i,
{
    if i < s.len() && is_json_ws(s[i]) {
        lemma_ws_end_bounds(s, i + 1);
    }
}

/// Index of the first character at or after `i` that cannot stand
/// inside a string literal.
pub open spec fn string_end(s: Seq<char>, i: int) -> int
    decreases s.len() - i when 0 <= i <= s.len()
{
    if i < s.len() && is_string_char(s[i]) {
        string_end(s, i + 1)
    } else {
        i
    }
}

pub proof fn lemma_string_end_bounds(s: Seq<char>, i: int)
    requires
        0 <= i <= s.len(),
    ensures
        i <= string_end(s, i) <= s.len(),
    decreases s.len() - i,
{
    if i < s.len() && is_string_char(s[i]) {
        lemma_string_end_bounds(s, i + 1);
    }
}

/// A string literal at `i`: an opening quote, content characters, a
/// closing quote. Yields the content and the index past the closing
/// quote.
pub open spec fn parse_string(s: Seq<char>, i: int) -> Option<(Seq<char>, int)>
    recommends
        0 <= i <= s.len(),
{
    if i < s.len() && s[i] == '"' {
        let e = string_end(s, i + 1);
        if e < s.len() && s[e] == '"' {
            Some((s.subrange(i + 1, e), e + 1))
        } else {
            None
        }
    } else {
        None
    }
}

pub proof fn lemma_parse_string_bounds(s: Seq<char>, i: int)
    requires
        0 <= i <= s.len(),
        parse_string(s, i) is Some,
    ensures
        i + 2 <= parse_string(s, i)->Some_0.1 <= s.len(),
{
    lemma_string_end_bounds(s, i + 1);
}

/// Index of the first non-digit character at or after `i`.
pub open spec fn digits_end(s: Seq<char>, i: int) -> int
    decreases s.len() - i when 0 <= i <= s.len()
{
    if i < s.len() && is_digit(s[i]) {
        digits_end(s, i + 1)
    } else {
        i
    }
}

pub proof fn lemma_digits_end_bounds(s: Seq<char>, i: int)
    requires
        0 <= i <= s.len(),
    ensures
        i <= digits_end(s, i) <= s.len(),
        forall|k: int| i <= k < digits_end(s, i) ==> is_digit(s[k]),
    decreases s.len() - i,
{
    if i < s.len() && is_digit(s[i]) {
        lemma_digits_end_bounds(s, i + 1);
    }
}

/// Value of the digit run `s[i..j]` read as a decimal number.
pub open spec fn num_val(s: Seq<char>, i: int, j: int) -> nat
    decreases j - i,
{
    if j <= i {
        0
    } else {
        num_val(s, i, j - 1) * 10 + digit_of(s[j - 1])
    }
}

pub proof fn lemma_num_val_mono(s: Seq<char>, i: int, j1: int, j2: int)
    requires
        i <= j1 <= j2,
    ensures
        num_val(s, i, j2) >= num_val(s, i, j1),
    decreases j2 - j1,
{
    if j1 < j2 {
        lemma_num_val_mono(s, i, j1, j2 - 1);
        assert(num_val(s, i, j2 - 1) * 10 >= num_val(s, i, j2 - 1)) by (nonlinear_arith);
    }
}

/// A number at `i`: a non-empty run of decimal digits whose value
/// fits in a `u64`. Yields the value and the index past the run.
pub open spec fn parse_number(s: Seq<char>, i: int) -> Option<(u64, int)>
    recommends
        0 <= i <= s.len(),
{
    let e = digits_end(s, i);
    if e > i && num_val(s, i, e) <= u64::MAX {
        Some((num_val(s, i, e) as u64, e))
    } else {
        None
    }
}

/// A member value at `i`: a string literal or a number, told apart by
/// the first character. Yields the string content or the numeric
/// value, and the index past the value.
pub open spec fn parse_value(s: Seq<char>, i: int) -> Option<(Option<Seq<char>>, Option<u64>, int)>
    recommends
        0 <= i <= s.len(),
{
    if i < s.len() && s[i] == '"' {
        match parse_string(s, i) {
            Some(p) => Some((Some(p.0), None, p.1)),
            None => None,
        }
    } else if i < s.len() && is_digit(s[i]) {
        match parse_number(s, i) {
            Some(p) => Some((None, Some(p.0), p.1)),
            None => None,
        }
    } else {
        None
    }
}

pub proof fn lemma_parse_value_bounds(s: Seq<char>, i: int)
    requires
        0 <= i <= s.len(),
        parse_value(s, i) is Some,
    ensures
        i + 1 <= parse_value(s, i)->Some_0.2 <= s.len(),
{
    if i < s.len() && s[i] == '"' {
        lemma_parse_string_bounds(s, i);
    } else {
        lemma_digits_end_bounds(s, i);
    }
}

/// The fields of the token response gathered so far: access token,
/// refresh token, expiry timestamp.
pub type FieldsRep = (Option<Seq<char>>, Option<Seq<char>>, Option<u64>);

/// The fields as executable values.
pub type Fields = (Option<String>, Option<String>, Option<u64>);

pub open spec fn opt_str_rep(o: Option<String>) -> Option<Seq<char>> {
    match o {
        Some(s) => Some(s@),
        None => None,
    }
}

pub open spec fn fields_rep(f: Fields) -> FieldsRep {
    (opt_str_rep(f.0), opt_str_rep(f.1), f.2)
}

/// Records one member into the gathered fields. A known key takes
/// only a value of its shape (strings for the tokens, a number for
/// the expiry) and may appear only once; an unknown key is ignored.
pub open spec fn set_field(
    acc: FieldsRep,
    key: Seq<char>,
    sv: Option<Seq<char>>,
    nv: Option<u64>,
) -> Option<FieldsRep> {
    if key == "access_token"@ {
        match (acc.0, sv) {
            (Option::None, Option::Some(v)) => Some((Some(v), acc.1, acc.2)),
            _ => None,
        }
    } else if key == "refresh_token"@ {
        match (acc.1, sv) {
            (Option::None, Option::Some(v)) => Some((acc.0, Some(v), acc.2)),
            _ => None,
        }
    } else if key == "expires_at"@ {
        match (acc.2, nv) {
            (Option::None, Option::Some(n)) => Some((acc.0, acc.1, Some(n))),
            _ => None,
        }
    } else {
        Some(acc)
    }
}

/// One or more `"key": value` members separated by commas and closed
/// by `'}'`, starting at `i` (just past the `'{'` or a comma), each
/// recorded into `acc` by `set_field`. Yields the gathered fields and
/// the index past the closing brace.
pub open spec fn parse_members(s: Seq<char>, i: int, acc: FieldsRep) -> Option<(FieldsRep, int)>
    decreases s.len() - i when 0 <= i <= s.len() via parse_members_decreases
{
    let k = ws_end(s, i);
    match parse_string(s, k) {
        None => None,
        Some((key, a)) => {
            let b = ws_end(s, a);
            if b < s.len() && s[b] == ':' {
                let c = ws_end(s, b + 1);
                match parse_value(s, c) {
                    None => None,
                    Some((sv, nv, d0)) => {
                        match set_field(acc, key, sv, nv) {
                            None => None,
                            Some(acc2) => {
                                let d = ws_end(s, d0);
                                if d < s.len() && s[d] == ',' {
                                    parse_members(s, d + 1, acc2)
                                } else if d < s.len() && s[d] == '}' {
                                    Some((acc2, d + 1))
                                } else {
                                    None
                                }
                            },
                        }
                    },
                }
            } else {
                None
            }
        },
    }
}

#[via_fn]
proof fn parse_members_decreases(s: Seq<char>, i: int, acc: FieldsRep) {
    lemma_ws_end_bounds(s, i);
    let k = ws_end(s, i);
    if parse_string(s, k) is Some {
        lemma_parse_string_bounds(s, k);
        let a = parse_string(s, k)->Some_0.1;
        lemma_ws_end_bounds(s, a);
        let b = ws_end(s, a);
        if b < s.len() && s[b] == ':' {
            lemma_ws_end_bounds(s, b + 1);
            let c = ws_end(s, b + 1);
            if parse_value(s, c) is Some {
                lemma_parse_value_bounds(s, c);
                let d0 = parse_value(s, c)->Some_0.2;
                lemma_ws_end_bounds(s, d0);
            }
        }
    }
}

pub(crate) fn scan_ws(s: &str, i: usize) -> (r: usize)
    requires
        i <= s@.len(),
    ensures
        r == ws_end(s@, i as int),
        i <= r <= s@.len(),
    decreases s@.len() - i,
{
    let n = s.unicode_len();
    if i < n {
        let c = s.get_char(i);
        if c == ' ' || c == '\n' || c == '\r' || c == '\t' {
            scan_ws(s, i + 1)
        } else {
            i
        }
    } else {
        i
    }
}

fn scan_string_end(s: &str, i: usize) -> (r: usize)
    requires
        i <= s@.len(),
    ensures
        r == string_end(s@, i as int),
        i <= r <= s@.len(),
    decreases s@.len() - i,
{
    let n = s.unicode_len();
    if i < n {
        let c = s.get_char(i);
        if c != '"' && c != '\\' {
            scan_string_end(s, i + 1)
        } else {
            i
        }
    } else {
        i
    }
}

fn scan_digits_end(s: &str, i: usize) -> (r: usize)
    requires
        i <= s@.len(),
    ensures
        r == digits_end(s@, i as int),
        i <= r <= s@.len(),
    decreases s@.len() - i,
{
    let n = s.unicode_len();
    if i < n {
        let c = s.get_char(i);
        if digit_value(c).is_some() {
            scan_digits_end(s, i + 1)
        } else {
            i
        }
    } else {
        i
    }
}

/// Scans a string literal at `i`, exactly as `parse_string` says.
fn parse_string_at(s: &str, i: usize) -> (r: Option<(String, usize)>)
    requires
        i <= s@.len(),
    ensures
        match r {
            Some(p) => parse_string(s@, i as int) == Some((p.0@, p.1 as int)) && i < p.1
                <= s@.len(),
            None => parse_string(s@, i as int) is None,
        },
{
    let n = s.unicode_len();
    if i < n && s.get_char(i) == '"' {
        let e = scan_string_end(s, i + 1);
        if e < n && s.get_char(e) == '"' {
            let v = s.substring_char(i + 1, e).to_owned();
            Some((v, e + 1))
        } else {
            None
        }
    } else {
        None
    }
}

/// Accumulates the digit run `s[j..e]` on top of `acc`, failing
/// exactly when the full run's value does not fit in a `u64`.
fn accum_digits(s: &str, j: usize, e: usize, acc: u64, start: Ghost<int>) -> (r: Option<u64>)
    requires
        0 <= start@ <= j <= e <= s@.len(),
        forall|k: int| start@ <= k < e ==> is_digit(s@[k]),
        acc == num_val(s@, start@, j as int),
    ensures
        match r {
            Some(v) => num_val(s@, start@, e as int) <= u64::MAX && v == num_val(
                s@,
                start@,
                e as int,
            ),
            None => num_val(s@, start@, e as int) > u64::MAX,
        },
    decreases e - j,
{
    if j == e {
        Some(acc)
    } else {
        let c = s.get_char(j);
        let d = match digit_value(c) {
            Some(d) => d,
            None => {
                // unreachable: the run holds digits only
                return None;
            },
        };
        proof {
            assert(is_digit(s@[j as int]));
        }
        let limit: u64 = (u64::MAX - d) / 10;
        if acc <= limit {
            proof {
                vstd::arithmetic::div_mod::lemma_fundamental_div_mod((u64::MAX - d) as int, 10);
                vstd::arithmetic::div_mod::lemma_mod_bound((u64::MAX - d) as int, 10);
                assert(acc * 10 <= limit * 10) by (nonlinear_arith)
                    requires
                        acc <= limit,
                ;
            }
            accum_digits(s, j + 1, e, acc * 10 + d, start)
        } else {
            proof {
                vstd::arithmetic::div_mod::lemma_fundamental_div_mod((u64::MAX - d) as int, 10);
                vstd::arithmetic::div_mod::lemma_mod_bound((u64::MAX - d) as int, 10);
                assert(acc * 10 >= (limit + 1) * 10) by (nonlinear_arith)
                    requires
                        acc >= limit + 1,
                ;
                assert(num_val(s@, start@, j as int + 1) > u64::MAX);
                lemma_num_val_mono(s@, start@, j as int + 1, e as int);
            }
            None
        }
    }
}

/// Scans a number at `i`, exactly as `parse_number` says.
fn parse_number_at(s: &str, i: usize) -> (r: Option<(u64, usize)>)
    requires
        i <= s@.len(),
    ensures
        match r {
            Some(p) => parse_number(s@, i as int) == Some((p.0, p.1 as int)) && i < p.1
                <= s@.len(),
            None => parse_number(s@, i as int) is None,
        },
{
    let e = scan_digits_end(s, i);
    proof {
        lemma_digits_end_bounds(s@, i as int);
    }
    if e == i {
        None
    } else {
        match accum_digits(s, i, e, 0, Ghost(i as int)) {
            Some(v) => Some((v, e)),
            None => None,
        }
    }
}

/// Scans a member value at `i`, exactly as `parse_value` says.
fn parse_value_at(s: &str, i: usize) -> (r: Option<(Option<String>, Option<u64>, usize)>)
    requires
        i <= s@.len(),
    ensures
        match r {
            Some(p) => parse_value(s@, i as int) == Some((opt_str_rep(p.0), p.1, p.2 as int))
                && i < p.2 <= s@.len(),
            None => parse_value(s@, i as int) is None,
        },
{
    let n = s.unicode_len();
    if i < n {
        let c = s.get_char(i);
        if c == '"' {
            match parse_string_at(s, i) {
                Some((v, j)) => Some((Some(v), None, j)),
                None => None,
            }
        } else if digit_value(c).is_some() {
            match parse_number_at(s, i) {
                Some((v, j)) => Some((None, Some(v), j)),
                None => None,
            }
        } else {
            None
        }
    } else {
        None
    }
}

/// Records one member into the gathered fields, exactly as
/// `set_field` says.
fn apply_field(acc: Fields, key: &String, sv: Option<String>, nv: Option<u64>) -> (r: Option<
    Fields,
>)
    ensures
        match r {
            Some(acc2) => set_field(fields_rep(acc), key@, opt_str_rep(sv), nv) == Some(
                fields_rep(acc2),
            ),
            None => set_field(fields_rep(acc), key@, opt_str_rep(sv), nv) is None,
        },
{
    let key_access: String = "access_token".to_owned();
    let key_refresh: String = "refresh_token".to_owned();
    let key_expires: String = "expires_at".to_owned();
    if *key == key_access {
        match (acc.0, sv) {
            (Option::None, Option::Some(v)) => Some((Some(v), acc.1, acc.2)),
            _ => None,
        }
    } else if *key == key_refresh {
        match (acc.1, sv) {
            (Option::None, Option::Some(v)) => Some((acc.0, Some(v), acc.2)),
            _ => None,
        }
    } else if *key == key_expires {
        match (acc.2, nv) {
            (Option::None, Option::Some(x)) => Some((acc.0, acc.1, Some(x))),
            _ => None,
        }
    } else {
        Some(acc)
    }
}

/// Scans the member list at `i`, exactly as `parse_members` says.
pub(crate) fn parse_members_at(s: &str, i: usize, acc: Fields) -> (r: Option<(Fields, usize)>)
    requires
        i <= s@.len(),
    ensures
        match r {
            Some(p) => parse_members(s@, i as int, fields_rep(acc)) == Some(
                (fields_rep(p.0), p.1 as int),
            ) && i < p.1 <= s@.len(),
            None => parse_members(s@, i as int, fields_rep(acc)) is None,
        },
    decreases s@.len() - i,
{
    let k = scan_ws(s, i);
    match parse_string_at(s, k) {
        None => None,
        Some((key, a)) => {
            let n = s.unicode_len();
            let b = scan_ws(s, a);
            if b < n && s.get_char(b) == ':' {
                let c = scan_ws(s, b + 1);
                match parse_value_at(s, c) {
                    None => None,
                    Some((sv, nv, d0)) => {
                        match apply_field(acc, &key, sv, nv) {
                            None => None,
                            Some(acc2) => {
                                let d = scan_ws(s, d0);
                                if d < n && s.get_char(d) == ',' {
                                    parse_members_at(s, d + 1, acc2)
                                } else if d < n && s.get_char(d) == '}' {
                                    Some((acc2, d + 1))
                                } else {
                                    None
                                }
                            },
                        }
                    },
                }
            } else {
                None
            }
        },
    }
}

} // verus!
