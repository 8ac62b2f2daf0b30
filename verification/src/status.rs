//! Numeric status codes: their decimal rendering for the `error_code`
//! label, and the canonical reason text for the `error` label.
//!
//! A status code is carried as a plain `u16`. Any value can be put in an
//! event; codes without a canonical reason (including values outside the
//! valid 100..=999 range) fall back to the fixed `unknown status code` text
//! at emission time.

use vstd::prelude::*;
use vstd::string::StringExecFns;

verus! {

/// The character for one decimal digit.
pub open spec fn digit_char(d: nat) -> char {
    if d == 0 {
        '0'
    } else if d == 1 {
        '1'
    } else if d == 2 {
        '2'
    } else if d == 3 {
        '3'
    } else if d == 4 {
        '4'
    } else if d == 5 {
        '5'
    } else if d == 6 {
        '6'
    } else if d == 7 {
        '7'
    } else if d == 8 {
        '8'
    } else {
        '9'
    }
}

/// The decimal rendering of `n`, most significant digit first, with no
/// leading zeros (a single `'0'` for zero).
pub open spec fn decimal_str(n: nat) -> Seq<char>
    decreases n,
{
    if n < 10 {
        seq![digit_char(n)]
    } else {
        decimal_str(n / 10).push(digit_char(n % 10))
    }
}

fn push_decimal(s: &mut String, n: u16)
    ensures
        final(s)@ == old(s)@ + decimal_str(n as nat),
    decreases n,
{
    let ghost mut prefix = old(s)@;
    if n >= 10 {
        push_decimal(s, n / 10);
        proof {
            prefix = old(s)@ + decimal_str((n / 10) as nat);
        }
    }
    let d: u16 = n % 10;
    let lit: &str = match d {
        0 => "0",
        1 => "1",
        2 => "2",
        3 => "3",
        4 => "4",
        5 => "5",
        6 => "6",
        7 => "7",
        8 => "8",
        _ => "9",
    };
    proof {
        reveal_strlit("0");
        reveal_strlit("1");
        reveal_strlit("2");
        reveal_strlit("3");
        reveal_strlit("4");
        reveal_strlit("5");
        reveal_strlit("6");
        reveal_strlit("7");
        reveal_strlit("8");
        reveal_strlit("9");
        assert(lit@ =~= seq![digit_char((n % 10) as nat)]);
    }
    s.append(lit);
    proof {
        assert(old(s)@ + decimal_str(n as nat) =~= prefix + lit@);
    }
}

/// The decimal rendering of `n` as a string.
pub fn decimal_string(n: u16) -> (r: String)
    ensures
        r@ == decimal_str(n as nat),
{
    let mut s = String::new();
    push_decimal(&mut s, n);
    proof {
        assert(s@ =~= decimal_str(n as nat));
    }
    s
}

/// The canonical reason text of a status code, if it has one. A fixed table
/// lookup: the result depends on the code alone.
pub uninterp spec fn canonical_reason_of(code: u16) -> Option<Seq<char>>;

/// The value of the `error` label for a request failure with status `code`:
/// the canonical reason, or the fixed fallback when the code has none.
pub open spec fn reason_label_spec(code: u16) -> Seq<char> {
    match canonical_reason_of(code) {
        Option::Some(s) => s,
        Option::None => "unknown status code"@,
    }
}

/// Relies on hyper::StatusCode::canonical_reason, a fixed table lookup on
/// the numeric code, reached through hyper::StatusCode::from_u16, which
/// accepts exactly 100..=999; any other code has no canonical reason.
#[verifier::external_body]
fn canonical_reason(code: u16) -> (r: Option<String>)
    ensures
        r.deep_view() == canonical_reason_of(code),
{
    match hyper::StatusCode::from_u16(code) {
        Ok(sc) => sc.canonical_reason().map(|s| s.to_owned()),
        Err(_) => None,
    }
}

/// The `error` label value for status `code`: its canonical reason, or
/// `unknown status code` when it has none.
pub fn reason_label(code: u16) -> (r: String)
    ensures
        r@ == reason_label_spec(code),
{
    match canonical_reason(code) {
        Option::Some(s) => s,
        Option::None => "unknown status code".to_owned(),
    }
}

} // verus!
