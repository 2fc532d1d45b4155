//! Byte-exact JSON bodies for the payloads that are entirely the façade's
//! own: the health report and the indexing receipt. Payloads that embed
//! domain records are serialized at the transport boundary instead; these two
//! are built here, character for character, against a spec of the full body.

use vstd::prelude::*;
use vstd::string::StrSliceExecFns;
use vstd::string::StringExecFns;

verus! {

/// The decimal digit character for `d` (which must be below ten).
pub open spec fn digit_char(d: nat) -> char {
    if d == 0 {
        '0'
    } else if d == 1 {
        '1'
    } else if d == 2 {
        '2'
    } else if d == 3 {
        '3'
    } else if d == 4 {
        '4'
    } else if d == 5 {
        '5'
    } else if d == 6 {
        '6'
    } else if d == 7 {
        '7'
    } else if d == 8 {
        '8'
    } else {
        '9'
    }
}

/// The decimal rendering of `n`, most significant digit first, no sign and
/// no leading zero except for zero itself.
pub open spec fn dec_str(n: nat) -> Seq<char>
    decreases n,
{
    if n < 10 {
        seq![digit_char(n)]
    } else {
        dec_str(n / 10).push(digit_char(n % 10))
    }
}

/// One digit below ten as a string.
fn digit_str(d: u64) -> (s: &'static str)
    requires
        d < 10,
    ensures
        s@ == seq![digit_char(d as nat)],
{
    proof {
        reveal_strlit("0");
        reveal_strlit("1");
        reveal_strlit("2");
        reveal_strlit("3");
        reveal_strlit("4");
        reveal_strlit("5");
        reveal_strlit("6");
        reveal_strlit("7");
        reveal_strlit("8");
        reveal_strlit("9");
    }
    if d == 0 {
        "0"
    } else if d == 1 {
        "1"
    } else if d == 2 {
        "2"
    } else if d == 3 {
        "3"
    } else if d == 4 {
        "4"
    } else if d == 5 {
        "5"
    } else if d == 6 {
        "6"
    } else if d == 7 {
        "7"
    } else if d == 8 {
        "8"
    } else {
        "9"
    }
}

/// Renders `n` in decimal, as `dec_str` says.
pub fn u64_to_dec(n: u64) -> (s: String)
    ensures
        s@ == dec_str(n as nat),
    decreases n,
{
    if n < 10 {
        digit_str(n).to_owned()
    } else {
        let mut s = u64_to_dec(n / 10);
        s.append(digit_str(n % 10));
        assert(s@ =~= dec_str(n as nat));
        s
    }
}

/// The exact body of a successful indexing response for `n` accepted
/// records.
pub open spec fn index_receipt_json(n: nat) -> Seq<char> {
    "{\"indexed\":"@ + dec_str(n) + ",\"status\":\"success\"}"@
}

/// Builds the indexing receipt body for `n` accepted records, character for
/// character as `index_receipt_json` says.
pub fn index_receipt_body(n: u64) -> (s: String)
    ensures
        s@ == index_receipt_json(n as nat),
{
    let mut s = "{\"indexed\":".to_owned();
    let count = u64_to_dec(n);
    s.append(count.as_str());
    s.append(",\"status\":\"success\"}");
    assert(s@ =~= index_receipt_json(n as nat));
    s
}

} // verus!
