//! Character-level string helpers shared by the merge and render stages.
//!
//! All text manipulation in this crate happens on `Vec<char>`, which gives
//! loops direct indexed access; the boundary functions here move between
//! `String` and `Vec<char>`.

use vstd::prelude::*;

verus! {

/// The characters of a string, in order.
pub fn string_to_chars(s: &str) -> (r: Vec<char>)
    ensures
        r@ == s@,
{
    let n = s.unicode_len();
    let mut r: Vec<char> = Vec::new();
    let mut i: usize = 0;
    while i < n
        invariant
            i <= n,
            n == s@.len(),
            r@ == s@.take(i as int),
        decreases n - i,
    {
        r.push(s.get_char(i));
        proof {
            assert(r@ =~= s@.take(i + 1));
        }
        i = i + 1;
    }
    proof {
        assert(s@.take(n as int) =~= s@);
    }
    r
}

/// Relies on `String`'s `FromIterator<char>` (std): collecting characters
/// yields the string with exactly those characters in order.
#[verifier::external_body]
pub fn chars_to_string(v: &Vec<char>) -> (r: String)
    ensures
        r@ == v@,
{
    v.iter().collect()
}

/// The escaped-newline rewriting applied to every stored text field: each
/// two-character sequence `\` `n` becomes one line-break character.
pub open spec fn escape_newlines_spec(s: Seq<char>) -> Seq<char>
    decreases s.len(),
{
    if s.len() == 0 {
        Seq::empty()
    } else if s.len() >= 2 && s[0] == '\\' && s[1] == 'n' {
        seq!['\n'] + escape_newlines_spec(s.skip(2))
    } else {
        seq![s[0]] + escape_newlines_spec(s.skip(1))
    }
}

/// Replaces each literal backslash-n with a real line break.
///
/// Command surfaces cannot submit literal newlines, so stored text carries
/// them escaped; this is the single point where they are decoded.
pub fn escape_newlines(s: &str) -> (r: String)
    ensures
        r@ == escape_newlines_spec(s@),
{
    let cs = string_to_chars(s);
    let n = cs.len();
    let mut out: Vec<char> = Vec::new();
    let mut i: usize = 0;
    proof {
        assert(s@.skip(0) =~= s@);
    }
    while i < n
        invariant
            i <= n,
            n == cs@.len(),
            cs@ == s@,
            out@ + escape_newlines_spec(s@.skip(i as int)) == escape_newlines_spec(s@),
        decreases n - i,
    {
        if i + 1 < n && cs[i] == '\\' && cs[i + 1] == 'n' {
            out.push('\n');
            proof {
                assert(s@.skip(i as int).skip(2) =~= s@.skip(i + 2));
                assert(out@ + escape_newlines_spec(s@.skip(i + 2)) =~= escape_newlines_spec(s@));
            }
            i = i + 2;
        } else {
            out.push(cs[i]);
            proof {
                assert(s@.skip(i as int).skip(1) =~= s@.skip(i + 1));
                assert(out@ + escape_newlines_spec(s@.skip(i + 1)) =~= escape_newlines_spec(s@));
            }
            i = i + 1;
        }
    }
    proof {
        assert(s@.skip(n as int) =~= Seq::<char>::empty());
        assert(out@ =~= escape_newlines_spec(s@));
    }
    chars_to_string(&out)
}

} // verus!
