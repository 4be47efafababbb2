//! Platform identifiers: their decimal text, how they are parsed from user
//! input, and how they are stored in a signed 64-bit column.

use vstd::prelude::*;
use vstd::string::*;

verus! {

/// The character of a decimal digit.
pub open spec fn digit_char(d: int) -> char {
    seq!['0', '1', '2', '3', '4', '5', '6', '7', '8', '9'][d]
}

/// The decimal text of a natural number, without leading zeros.
pub open spec fn decimal(n: nat) -> Seq<char>
    decreases n,
{
    if n < 10 {
        seq![digit_char(n as int)]
    } else {
        decimal(n / 10).push(digit_char((n % 10) as int))
    }
}

/// Whether every character is an ASCII digit.
pub open spec fn all_digits(s: Seq<char>) -> bool {
    forall|i: int| 0 <= i < s.len() ==> '0' <= #[trigger] s[i] <= '9'
}

/// The value of a string of decimal digits.
pub open spec fn digits_value(s: Seq<char>) -> int
    decreases s.len(),
{
    if s.len() == 0 {
        0
    } else {
        digits_value(s.drop_last()) * 10 + (s.last() as int - '0' as int)
    }
}

/// What an identifier typed by a user denotes: an optional `+` followed by
/// decimal digits whose value is a non-zero `u64`.
pub open spec fn parsed_id(s: Seq<char>) -> Option<u64> {
    let d = if s.len() > 0 && s[0] == '+' {
        s.drop_first()
    } else {
        s
    };
    if d.len() > 0 && all_digits(d) && 0 < digits_value(d) <= u64::MAX {
        Some(digits_value(d) as u64)
    } else {
        None
    }
}

fn digit_str(d: u64) -> (r: &'static str)
    requires
        d < 10,
    ensures
        r@ == seq![digit_char(d as int)],
{
    proof {
        reveal_strlit("0");
        reveal_strlit("1");
        reveal_strlit("2");
        reveal_strlit("3");
        reveal_strlit("4");
        reveal_strlit("5");
        reveal_strlit("6");
        reveal_strlit("7");
        reveal_strlit("8");
        reveal_strlit("9");
    }
    let r = match d {
        0 => "0",
        1 => "1",
        2 => "2",
        3 => "3",
        4 => "4",
        5 => "5",
        6 => "6",
        7 => "7",
        8 => "8",
        _ => "9",
    };
    assert(r@ =~= seq![digit_char(d as int)]);
    r
}

/// The decimal text of `n`, as identifiers are written in messages and links.
pub fn decimal_text(n: u64) -> (r: String)
    ensures
        r@ == decimal(n as nat),
    decreases n,
{
    if n < 10 {
        String::from_str(digit_str(n))
    } else {
        let mut s = decimal_text(n / 10);
        s.append(digit_str(n % 10));
        s
    }
}

/// The decimal text of a signed number.
pub open spec fn signed_decimal(v: int) -> Seq<char> {
    if v < 0 {
        "-"@ + decimal((-v) as nat)
    } else {
        decimal(v as nat)
    }
}

pub fn signed_text(v: i64) -> (r: String)
    ensures
        r@ == signed_decimal(v as int),
{
    if v < 0 {
        let magnitude: u64 = ((-(v + 1)) as u64) + 1;
        let mut s = String::from_str("-");
        let d = decimal_text(magnitude);
        s.append(d.as_str());
        s
    } else {
        decimal_text(v as u64)
    }
}

/// Relies on twilight_model's `Id::from_str` (that is, `NonZeroU64::from_str`):
/// an optional `+` and decimal digits whose value is a non-zero `u64`.
#[verifier::external_body]
pub(crate) fn parse_id(s: &str) -> (r: Option<u64>)
    ensures
        r == parsed_id(s@),
{
    <twilight_model::id::Id<twilight_model::id::marker::GenericMarker> as core::str::FromStr>::from_str(
        s,
    ).ok().map(|id| id.get())
}

/// The signed 64-bit value that stores an unsigned identifier: the same bits.
pub open spec fn stored_value(id: u64) -> int {
    if id <= i64::MAX {
        id as int
    } else {
        id as int - 0x1_0000_0000_0000_0000
    }
}

/// The identifier whose bits a stored signed value holds.
pub open spec fn loaded_value(v: int) -> int {
    if v >= 0 {
        v
    } else {
        v + 0x1_0000_0000_0000_0000
    }
}

/// An identifier as it is stored in a signed 64-bit database column.
#[derive(Clone, Copy, Debug, PartialEq, Eq, Structural)]
pub struct SqliteId(pub u64);

/// Why a stored value is not an identifier.
#[derive(Clone, Copy, Debug, PartialEq, Eq, Structural)]
pub enum DecodeError {
    /// Zero is never an identifier.
    Zero,
}

impl SqliteId {
    /// The stored value: the identifier's bits read as a signed integer.
    pub fn encode(&self) -> (r: i64)
        ensures
            r as int == stored_value(self.0),
    {
        if self.0 <= i64::MAX as u64 {
            self.0 as i64
        } else {
            let below: u64 = u64::MAX - self.0;
            -(below as i64) - 1
        }
    }

    /// The identifier whose stored value is `v`; zero is rejected.
    pub fn decode(v: i64) -> (r: Result<SqliteId, DecodeError>)
        ensures
            v == 0 <==> r is Err,
            r matches Ok(id) ==> id.0 as int == loaded_value(v as int),
    {
        if v == 0 {
            Err(DecodeError::Zero)
        } else if v > 0 {
            Ok(SqliteId(v as u64))
        } else {
            let low: u64 = (v + i64::MAX + 1) as u64;
            Ok(SqliteId(low + 0x8000_0000_0000_0000))
        }
    }
}

/// Storing a non-zero identifier and reading it back gives the same
/// identifier; zero is stored as zero, which reading rejects.
pub proof fn lemma_stored_round_trip(id: u64)
    ensures
        i64::MIN <= stored_value(id) <= i64::MAX,
        stored_value(id) == 0 <==> id == 0,
        loaded_value(stored_value(id)) == id as int,
{
}

} // verus!
