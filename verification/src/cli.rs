//! Reading the protocol version that a command line names.

use vstd::prelude::*;
use vstd::string::StringExecFns;
use vstd::string::StringSliceAdditionalSpecFns;
use crate::decimal::{decimal_nat, parse_index, parse_index_range};

verus! {

/// The characters of a byte string of ASCII text.
pub open spec fn ascii_chars(bytes: Seq<u8>) -> Seq<char> {
    Seq::new(bytes.len(), |i: int| bytes[i] as char)
}

/// The digit `d` as text.
fn digit_text(d: usize) -> (text: &'static str)
    requires
        d < 10,
    ensures
        text@ == seq![(48 + d) as u8 as char],
{
    proof {
        reveal_strlit("0");
        reveal_strlit("1");
        reveal_strlit("2");
        reveal_strlit("3");
        reveal_strlit("4");
        reveal_strlit("5");
        reveal_strlit("6");
        reveal_strlit("7");
        reveal_strlit("8");
        reveal_strlit("9");
    }
    let text: &'static str = if d == 0 {
        "0"
    } else if d == 1 {
        "1"
    } else if d == 2 {
        "2"
    } else if d == 3 {
        "3"
    } else if d == 4 {
        "4"
    } else if d == 5 {
        "5"
    } else if d == 6 {
        "6"
    } else if d == 7 {
        "7"
    } else if d == 8 {
        "8"
    } else {
        "9"
    };
    assert(text@ =~= seq![(48 + d) as u8 as char]);
    text
}

/// Puts the decimal digits of `v` behind `message`.
fn append_decimal(message: &mut String, v: usize)
    ensures
        final(message)@ == old(message)@ + ascii_chars(decimal_nat(v as nat)),
    decreases v,
{
    if v >= 10 {
        append_decimal(message, v / 10);
        message.append(digit_text(v % 10));
        assert(message@ =~= old(message)@ + ascii_chars(decimal_nat(v as nat)));
    } else {
        message.append(digit_text(v));
        assert(message@ =~= old(message)@ + ascii_chars(decimal_nat(v as nat)));
    }
}

/// Reads a protocol version, 0 to 5, from decimal text. Text that is no
/// unsigned decimal number, or one too large for the machine, and a number
/// above 5 are refused, each with its own message.
pub fn parse_version(s: &str) -> (r: Result<usize, String>)
    ensures
        match r {
            Ok(v) => v <= 5 && parse_index(s.spec_bytes(), usize::MAX as nat) == Some(v as nat),
            Err(message) => match parse_index(s.spec_bytes(), usize::MAX as nat) {
                None => message@ == "invalid version: "@ + s@,
                Some(v) => v > 5 && message@ == "version must be 0-5, got "@ + ascii_chars(
                    decimal_nat(v),
                ),
            },
        },
{
    let bytes = s.as_bytes();
    assert(bytes@.subrange(0, bytes.len() as int) =~= bytes@);
    match parse_index_range(bytes, 0, bytes.len()) {
        None => Err(String::from_str("invalid version: ").concat(s)),
        Some(v) => {
            if v <= 5 {
                Ok(v)
            } else {
                let mut message = String::from_str("version must be 0-5, got ");
                append_decimal(&mut message, v);
                Err(message)
            }
        },
    }
}

} // verus!
