//! Decimal rendering and parsing of platform identifiers.
//!
//! Guild, channel and role identifiers are 64-bit integers, but the record
//! store keys them by their decimal string; these two functions are the only
//! conversions.

use vstd::prelude::*;

use crate::text::chars_to_string;
use crate::text::string_to_chars;

verus! {

/// The character for one decimal digit value.
pub open spec fn dec_digit_char(d: nat) -> char {
    if d == 0 {
        '0'
    } else if d == 1 {
        '1'
    } else if d == 2 {
        '2'
    } else if d == 3 {
        '3'
    } else if d == 4 {
        '4'
    } else if d == 5 {
        '5'
    } else if d == 6 {
        '6'
    } else if d == 7 {
        '7'
    } else if d == 8 {
        '8'
    } else {
        '9'
    }
}

/// The decimal representation of a natural number, without sign or leading
/// zeros (a single zero for 0).
pub open spec fn dec_str(n: nat) -> Seq<char>
    decreases n,
{
    if n < 10 {
        seq![dec_digit_char(n)]
    } else {
        dec_str(n / 10).push(dec_digit_char(n % 10))
    }
}

pub open spec fn is_dec_digit(c: char) -> bool {
    '0' <= c && c <= '9'
}

pub open spec fn dec_digit_val(c: char) -> nat {
    if is_dec_digit(c) {
        (c as nat - 48) as nat
    } else {
        0
    }
}

/// The numeric value of a digit string.
pub open spec fn dec_val(s: Seq<char>) -> nat
    decreases s.len(),
{
    if s.len() == 0 {
        0
    } else {
        dec_val(s.drop_last()) * 10 + dec_digit_val(s.last())
    }
}

pub open spec fn all_dec_digits(s: Seq<char>) -> bool {
    forall|i: int| 0 <= i < s.len() ==> is_dec_digit(s[i])
}

/// Why an identifier string failed to parse.
#[derive(Clone, Copy, PartialEq, Eq, Structural, Debug)]
pub enum IdParseError {
    /// The string is empty.
    Empty,
    /// A character is not a decimal digit.
    InvalidDigit,
    /// The value does not fit in 64 bits.
    Overflow,
}

/// Renders an identifier as its decimal string.
pub fn id_to_string(value: u64) -> (r: String)
    ensures
        r@ == dec_str(value as nat),
{
    if value == 0 {
        let mut digits: Vec<char> = Vec::new();
        digits.push('0');
        proof {
            assert(dec_str(0) =~= seq!['0']);
            assert(digits@ =~= seq!['0']);
        }
        return chars_to_string(&digits);
    }
    let mut digits: Vec<char> = Vec::new();
    let mut x: u64 = value;
    proof {
        assert(dec_str(value as nat) + Seq::<char>::empty() =~= dec_str(value as nat));
    }
    while x > 0
        invariant
            x > 0 ==> dec_str(value as nat) == dec_str(x as nat) + digits@,
            x == 0 ==> dec_str(value as nat) == digits@,
        decreases x,
    {
        let d: u64 = x % 10;
        let ghost x0 = x as nat;
        let ghost dg0 = digits@;
        digits.insert(0, dec_digit_char_exec(d));
        x = x / 10;
        proof {
            if x0 < 10 {
                assert(dec_str(x0) =~= seq![dec_digit_char(x0)]);
                assert(dec_str(x0) + dg0 =~= digits@);
            } else {
                assert(dec_str(x0) =~= dec_str(x0 / 10).push(dec_digit_char(x0 % 10)));
                assert(dec_str(x0) + dg0 =~= dec_str(x0 / 10) + digits@);
            }
        }
    }
    chars_to_string(&digits)
}

/// The digit character for a value below ten.
fn dec_digit_char_exec(d: u64) -> (c: char)
    requires
        d < 10,
    ensures
        c == dec_digit_char(d as nat),
{
    if d == 0 {
        '0'
    } else if d == 1 {
        '1'
    } else if d == 2 {
        '2'
    } else if d == 3 {
        '3'
    } else if d == 4 {
        '4'
    } else if d == 5 {
        '5'
    } else if d == 6 {
        '6'
    } else if d == 7 {
        '7'
    } else if d == 8 {
        '8'
    } else {
        '9'
    }
}

/// Appending digits never lowers the numeric value: the value of a digit
/// string is at least the value of any of its prefixes.
proof fn lemma_dec_val_prefix(s: Seq<char>, k: int)
    requires
        0 <= k <= s.len(),
    ensures
        dec_val(s) >= dec_val(s.take(k)),
    decreases s.len() - k,
{
    if k < s.len() {
        lemma_dec_val_prefix(s, k + 1);
        assert(s.take(k + 1).drop_last() =~= s.take(k));
        assert(dec_val(s.take(k + 1)) == dec_val(s.take(k)) * 10 + dec_digit_val(
            s.take(k + 1).last(),
        ));
        assert(dec_val(s.take(k)) * 10 >= dec_val(s.take(k))) by (nonlinear_arith);
    } else {
        assert(s.take(k) =~= s);
    }
}

/// Parses a decimal identifier string.
///
/// Returns `Ok` exactly on a non-empty all-digit string whose value fits in
/// 64 bits; each error names the first reason the string was rejected.
pub fn id_from_string(s: &str) -> (r: Result<u64, IdParseError>)
    ensures
        r is Ok <==> s@.len() > 0 && all_dec_digits(s@) && dec_val(s@) <= u64::MAX,
        r matches Ok(v) ==> v == dec_val(s@),
        r == Result::<u64, IdParseError>::Err(IdParseError::Empty) <==> s@.len() == 0,
        r == Result::<u64, IdParseError>::Err(IdParseError::InvalidDigit) <==> s@.len() > 0
            && !all_dec_digits(s@),
        r == Result::<u64, IdParseError>::Err(IdParseError::Overflow) <==> s@.len() > 0
            && all_dec_digits(s@) && dec_val(s@) > u64::MAX,
{
    let cs = string_to_chars(s);
    let n = cs.len();
    if n == 0 {
        return Err(IdParseError::Empty);
    }
    let mut i: usize = 0;
    while i < n
        invariant
            i <= n,
            n == cs@.len(),
            cs@ == s@,
            forall|j: int| 0 <= j < i ==> is_dec_digit(s@[j]),
        decreases n - i,
    {
        let c = cs[i];
        if !('0' <= c && c <= '9') {
            return Err(IdParseError::InvalidDigit);
        }
        i = i + 1;
    }
    let mut val: u64 = 0;
    let mut i: usize = 0;
    while i < n
        invariant
            i <= n,
            n == cs@.len(),
            cs@ == s@,
            all_dec_digits(s@),
            val == dec_val(s@.take(i as int)),
        decreases n - i,
    {
        let c = cs[i];
        let d: u64 = char_digit_val(c);
        let scaled = match val.checked_mul(10) {
            Some(x) => x,
            None => {
                proof {
                    lemma_overflow_step(s@, i as int, val as nat, d as nat);
                }
                return Err(IdParseError::Overflow);
            },
        };
        let next = match scaled.checked_add(d) {
            Some(x) => x,
            None => {
                proof {
                    lemma_overflow_step(s@, i as int, val as nat, d as nat);
                }
                return Err(IdParseError::Overflow);
            },
        };
        proof {
            assert(s@.take(i + 1).drop_last() =~= s@.take(i as int));
        }
        val = next;
        i = i + 1;
    }
    proof {
        assert(s@.take(n as int) =~= s@);
    }
    Ok(val)
}

/// If one accumulation step exceeds the 64-bit range, so does the value of
/// the whole digit string.
proof fn lemma_overflow_step(s: Seq<char>, i: int, val: nat, d: nat)
    requires
        0 <= i < s.len(),
        all_dec_digits(s),
        val == dec_val(s.take(i)),
        d == dec_digit_val(s[i]),
        val * 10 + d > u64::MAX,
    ensures
        dec_val(s) > u64::MAX,
{
    assert(s.take(i + 1).drop_last() =~= s.take(i));
    assert(dec_val(s.take(i + 1)) == val * 10 + d);
    lemma_dec_val_prefix(s, i + 1);
    assert(s.take(s.len() as int) =~= s);
    lemma_dec_val_prefix(s, s.len() as int);
}

/// The numeric value of a digit character.
fn char_digit_val(c: char) -> (d: u64)
    requires
        is_dec_digit(c),
    ensures
        d == dec_digit_val(c),
        d < 10,
{
    (c as u32 as u64) - 48
}

} // verus!
