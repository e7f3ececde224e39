//! Placeholder substitution for notification templates.
//!
//! A template is ordinary text in which `{key}` stands for a value from a
//! fixed vocabulary supplied at render time. Substitution never fails:
//! a `{...}` span whose key is unknown, and a `{` that no `}` follows, are
//! left in the output verbatim.

use vstd::prelude::*;

use crate::text::string_to_chars;
use crate::text::chars_to_string;

verus! {

/// One placeholder binding: occurrences of `{key}` are replaced by `value`.
#[derive(Debug)]
pub struct SubstPair {
    pub key: String,
    pub value: String,
}

/// The character sequences of a list of bindings.
pub open spec fn pairs_view(ps: Seq<SubstPair>) -> Seq<(Seq<char>, Seq<char>)> {
    ps.map(|i: int, p: SubstPair| (p.key@, p.value@))
}

/// Index of the first closing brace, or -1 if there is none.
pub open spec fn first_close(s: Seq<char>) -> int
    decreases s.len(),
{
    if s.len() == 0 {
        -1
    } else if s[0] == '}' {
        0
    } else if first_close(s.skip(1)) < 0 {
        -1
    } else {
        first_close(s.skip(1)) + 1
    }
}

/// The value bound to `key` by the first matching pair, if any.
pub open spec fn lookup(pairs: Seq<(Seq<char>, Seq<char>)>, key: Seq<char>) -> Option<Seq<char>>
    decreases pairs.len(),
{
    if pairs.len() == 0 {
        None
    } else if pairs[0].0 == key {
        Some(pairs[0].1)
    } else {
        lookup(pairs.skip(1), key)
    }
}

/// What substitution produces: scanning left to right, `{key}` with a bound
/// key becomes its value; any other character — including a `{` that opens
/// no bound placeholder — is kept as it stands.
pub open spec fn subst(s: Seq<char>, pairs: Seq<(Seq<char>, Seq<char>)>) -> Seq<char>
    decreases s.len(),
    via subst_decreases
{
    if s.len() == 0 {
        Seq::empty()
    } else if s[0] != '{' {
        seq![s[0]] + subst(s.skip(1), pairs)
    } else {
        let j = first_close(s.skip(1));
        if j < 0 {
            seq!['{'] + subst(s.skip(1), pairs)
        } else {
            match lookup(pairs, s.subrange(1, j + 1)) {
                Some(v) => v + subst(s.skip(j + 2), pairs),
                None => seq!['{'] + subst(s.skip(1), pairs),
            }
        }
    }
}

#[via_fn]
proof fn subst_decreases(s: Seq<char>, pairs: Seq<(Seq<char>, Seq<char>)>) {
    if s.len() > 0 && s[0] == '{' {
        lemma_first_close_bounds(s.skip(1));
    }
}

/// `first_close` returns -1 exactly when no closing brace occurs, and
/// otherwise the position of the first one.
pub proof fn lemma_first_close_bounds(s: Seq<char>)
    ensures
        first_close(s) == -1 ==> forall|k: int| 0 <= k < s.len() ==> s[k] != '}',
        first_close(s) != -1 ==> 0 <= first_close(s) < s.len() && s[first_close(s)] == '}'
            && forall|k: int| 0 <= k < first_close(s) ==> s[k] != '}',
    decreases s.len(),
{
    if s.len() > 0 && s[0] != '}' {
        lemma_first_close_bounds(s.skip(1));
        assert forall|k: int| 0 <= k < s.len() && first_close(s) == -1 implies s[k] != '}' by {
            if k > 0 {
                assert(s.skip(1)[k - 1] == s[k]);
            }
        }
        if first_close(s) != -1 {
            assert forall|k: int| 0 <= k < first_close(s) implies s[k] != '}' by {
                if k > 0 {
                    assert(s.skip(1)[k - 1] == s[k]);
                }
            }
        }
    }
}

/// A position known to hold the first closing brace pins `first_close` down.
proof fn lemma_first_close_at(s: Seq<char>, idx: int)
    requires
        0 <= idx < s.len(),
        s[idx] == '}',
        forall|k: int| 0 <= k < idx ==> s[k] != '}',
    ensures
        first_close(s) == idx,
    decreases s.len(),
{
    if idx > 0 {
        assert forall|k: int| 0 <= k < idx - 1 implies s.skip(1)[k] != '}' by {
            assert(s.skip(1)[k] == s[k + 1]);
        }
        assert(s.skip(1)[idx - 1] == s[idx]);
        lemma_first_close_at(s.skip(1), idx - 1);
    }
}

/// When no closing brace occurs, `first_close` reports none.
proof fn lemma_first_close_none(s: Seq<char>)
    requires
        forall|k: int| 0 <= k < s.len() ==> s[k] != '}',
    ensures
        first_close(s) == -1,
    decreases s.len(),
{
    if s.len() > 0 {
        assert forall|k: int| 0 <= k < s.skip(1).len() implies s.skip(1)[k] != '}' by {
            assert(s.skip(1)[k] == s[k + 1]);
        }
        lemma_first_close_none(s.skip(1));
    }
}

/// No opening brace occurs among these characters.
pub open spec fn brace_free(v: Seq<char>) -> bool {
    forall|i: int| 0 <= i < v.len() ==> v[i] != '{'
}

/// Every placeholder that the text opens is closed and carries a bound key:
/// the shape under which substitution resolves the whole text.
pub open spec fn resolvable(s: Seq<char>, pairs: Seq<(Seq<char>, Seq<char>)>) -> bool
    decreases s.len(),
    via resolvable_decreases
{
    if s.len() == 0 {
        true
    } else if s[0] != '{' {
        resolvable(s.skip(1), pairs)
    } else {
        let j = first_close(s.skip(1));
        j >= 0 && lookup(pairs, s.subrange(1, j + 1)) is Some && resolvable(s.skip(j + 2), pairs)
    }
}

#[via_fn]
proof fn resolvable_decreases(s: Seq<char>, pairs: Seq<(Seq<char>, Seq<char>)>) {
    if s.len() > 0 && s[0] == '{' {
        lemma_first_close_bounds(s.skip(1));
    }
}

/// A value that `lookup` returns is the value of one of the pairs.
proof fn lemma_lookup_value(pairs: Seq<(Seq<char>, Seq<char>)>, key: Seq<char>)
    requires
        lookup(pairs, key) is Some,
    ensures
        exists|k: int| 0 <= k < pairs.len() && #[trigger] pairs[k].1 == lookup(pairs, key)->Some_0,
    decreases pairs.len(),
{
    if pairs.len() > 0 && pairs[0].0 != key {
        lemma_lookup_value(pairs.skip(1), key);
        let k = choose|k: int|
            0 <= k < pairs.skip(1).len() && #[trigger] pairs.skip(1)[k].1 == lookup(
                pairs.skip(1),
                key,
            )->Some_0;
        assert(pairs[k + 1].1 == lookup(pairs, key)->Some_0);
    }
}

/// Substituting a resolvable text against brace-free values leaves no
/// opening brace in the output.
pub proof fn lemma_subst_brace_free(s: Seq<char>, pairs: Seq<(Seq<char>, Seq<char>)>)
    requires
        resolvable(s, pairs),
        forall|k: int| 0 <= k < pairs.len() ==> brace_free(#[trigger] pairs[k].1),
    ensures
        brace_free(subst(s, pairs)),
    decreases s.len(),
{
    if s.len() == 0 {
    } else if s[0] != '{' {
        lemma_subst_brace_free(s.skip(1), pairs);
        assert forall|i: int| 0 <= i < subst(s, pairs).len() implies subst(s, pairs)[i] != '{' by {
            if i > 0 {
                assert(subst(s, pairs)[i] == subst(s.skip(1), pairs)[i - 1]);
            }
        }
    } else {
        let j = first_close(s.skip(1));
        lemma_first_close_bounds(s.skip(1));
        let key = s.subrange(1, j + 1);
        let v = lookup(pairs, key)->Some_0;
        lemma_lookup_value(pairs, key);
        lemma_subst_brace_free(s.skip(j + 2), pairs);
        assert forall|i: int| 0 <= i < subst(s, pairs).len() implies subst(s, pairs)[i] != '{' by {
            if i < v.len() {
                assert(subst(s, pairs)[i] == v[i]);
            } else {
                assert(subst(s, pairs)[i] == subst(s.skip(j + 2), pairs)[i - v.len()]);
            }
        }
    }
}

/// The token `t` occurs somewhere in `s` as a contiguous run.
pub open spec fn occurs(s: Seq<char>, t: Seq<char>) -> bool {
    exists|i: int| 0 <= i && i + t.len() <= s.len() && #[trigger] s.subrange(i, i + t.len()) == t
}

/// A text without opening braces holds no `{key}` token at all.
pub proof fn lemma_brace_free_has_no_tokens(s: Seq<char>, key: Seq<char>)
    requires
        brace_free(s),
    ensures
        !occurs(s, seq!['{'] + key + seq!['}']),
{
    let t = seq!['{'] + key + seq!['}'];
    assert(t[0] == '{');
    if occurs(s, t) {
        let i = choose|i: int|
            0 <= i && i + t.len() <= s.len() && #[trigger] s.subrange(i, i + t.len()) == t;
        assert(s.subrange(i, i + t.len())[0] == s[i]);
        assert(false);
    }
}

/// Round-trip rendering: substituting a text whose every placeholder is
/// bound, against values that open no placeholder of their own, leaves no
/// occurrence of any `{key}` token in the result.
pub proof fn lemma_resolved_text_drops_all_tokens(
    s: Seq<char>,
    pairs: Seq<(Seq<char>, Seq<char>)>,
    key: Seq<char>,
)
    requires
        resolvable(s, pairs),
        forall|k: int| 0 <= k < pairs.len() ==> brace_free(#[trigger] pairs[k].1),
    ensures
        !occurs(subst(s, pairs), seq!['{'] + key + seq!['}']),
{
    lemma_subst_brace_free(s, pairs);
    lemma_brace_free_has_no_tokens(subst(s, pairs), key);
}

/// The characters of `v` between `from` and `to`.
fn subvec(v: &Vec<char>, from: usize, to: usize) -> (r: Vec<char>)
    requires
        from <= to <= v@.len(),
    ensures
        r@ == v@.subrange(from as int, to as int),
{
    let mut r: Vec<char> = Vec::new();
    let mut i: usize = from;
    while i < to
        invariant
            from <= i <= to <= v@.len(),
            r@ == v@.subrange(from as int, i as int),
        decreases to - i,
    {
        r.push(v[i]);
        proof {
            assert(r@ =~= v@.subrange(from as int, i + 1));
        }
        i = i + 1;
    }
    r
}

/// Element-wise equality of two character vectors.
fn chars_eq(a: &Vec<char>, b: &Vec<char>) -> (r: bool)
    ensures
        r == (a@ == b@),
{
    if a.len() != b.len() {
        return false;
    }
    let n = a.len();
    let mut i: usize = 0;
    while i < n
        invariant
            i <= n,
            n == a@.len() == b@.len(),
            forall|k: int| 0 <= k < i ==> a@[k] == b@[k],
        decreases n - i,
    {
        if a[i] != b[i] {
            return false;
        }
        i = i + 1;
    }
    proof {
        assert(a@ =~= b@);
    }
    true
}

/// The first binding whose key matches, if any.
fn lookup_pair(pairs: &Vec<SubstPair>, key: &Vec<char>) -> (r: Option<String>)
    ensures
        match lookup(pairs_view(pairs@), key@) {
            Some(v) => r matches Some(x) && x@ == v,
            None => r is None,
        },
{
    let n = pairs.len();
    let mut i: usize = 0;
    proof {
        assert(pairs@.skip(0) =~= pairs@);
    }
    while i < n
        invariant
            i <= n,
            n == pairs@.len(),
            lookup(pairs_view(pairs@), key@) == lookup(pairs_view(pairs@.skip(i as int)), key@),
        decreases n - i,
    {
        let pk = string_to_chars(pairs[i].key.as_str());
        proof {
            assert(pairs_view(pairs@.skip(i as int)).skip(1) =~= pairs_view(
                pairs@.skip(i + 1),
            ));
            assert(pairs_view(pairs@.skip(i as int))[0] == (pairs@[i as int].key@,
                pairs@[i as int].value@));
        }
        if chars_eq(&pk, key) {
            return Some(pairs[i].value.clone());
        }
        i = i + 1;
    }
    proof {
        assert(pairs@.skip(n as int) =~= Seq::<SubstPair>::empty());
        assert(pairs_view(Seq::<SubstPair>::empty()) =~= Seq::<(Seq<char>, Seq<char>)>::empty());
    }
    None
}

/// Expands every bound `{key}` in `text` to its value, leaving everything
/// else — unknown keys and unclosed braces included — verbatim.
pub fn substitute(text: &str, pairs: &Vec<SubstPair>) -> (r: String)
    ensures
        r@ == subst(text@, pairs_view(pairs@)),
{
    let cs = string_to_chars(text);
    let n = cs.len();
    let mut out: Vec<char> = Vec::new();
    let mut i: usize = 0;
    proof {
        assert(cs@.skip(0) =~= cs@);
    }
    while i < n
        invariant
            i <= n,
            n == cs@.len(),
            cs@ == text@,
            out@ + subst(cs@.skip(i as int), pairs_view(pairs@)) == subst(cs@, pairs_view(pairs@)),
        decreases n - i,
    {
        let ghost pv = pairs_view(pairs@);
        let ghost t = cs@.skip(i as int);
        if cs[i] != '{' {
            out.push(cs[i]);
            proof {
                assert(t.skip(1) =~= cs@.skip(i + 1));
                assert(subst(t, pv) == seq![cs@[i as int]] + subst(cs@.skip(i + 1), pv));
                assert(out@ + subst(cs@.skip(i + 1), pv) =~= subst(cs@, pv));
            }
            i = i + 1;
        } else {
            let mut j: usize = i + 1;
            while j < n && cs[j] != '}'
                invariant
                    i + 1 <= j <= n,
                    n == cs@.len(),
                    forall|k: int| i + 1 <= k < j ==> cs@[k] != '}',
                decreases n - j,
            {
                j = j + 1;
            }
            if j == n {
                proof {
                    assert forall|k: int| 0 <= k < t.skip(1).len() implies t.skip(1)[k] != '}' by {
                        assert(t.skip(1)[k] == cs@[i + 1 + k]);
                    }
                    lemma_first_close_none(t.skip(1));
                }
                out.push('{');
                proof {
                    assert(t.skip(1) =~= cs@.skip(i + 1));
                    assert(subst(t, pv) == seq!['{'] + subst(cs@.skip(i + 1), pv));
                    assert(out@ + subst(cs@.skip(i + 1), pv) =~= subst(cs@, pv));
                }
                i = i + 1;
            } else {
                proof {
                    assert(t.skip(1)[j - i - 1] == cs@[j as int]);
                    assert forall|k: int| 0 <= k < j - i - 1 implies t.skip(1)[k] != '}' by {
                        assert(t.skip(1)[k] == cs@[i + 1 + k]);
                    }
                    lemma_first_close_at(t.skip(1), j - i - 1);
                    assert(t.subrange(1, j - i) =~= cs@.subrange(i + 1, j as int));
                }
                let key = subvec(&cs, i + 1, j);
                match lookup_pair(pairs, &key) {
                    Some(v) => {
                        let mut vc = string_to_chars(v.as_str());
                        let ghost vseq = vc@;
                        out.append(&mut vc);
                        proof {
                            assert(t.skip(j - i - 1 + 2) =~= cs@.skip(j + 1));
                            assert(subst(t, pv) == vseq + subst(cs@.skip(j + 1), pv));
                            assert(out@ + subst(cs@.skip(j + 1), pv) =~= subst(cs@, pv));
                        }
                        i = j + 1;
                    },
                    None => {
                        out.push('{');
                        proof {
                            assert(t.skip(1) =~= cs@.skip(i + 1));
                            assert(subst(t, pv) == seq!['{'] + subst(cs@.skip(i + 1), pv));
                            assert(out@ + subst(cs@.skip(i + 1), pv) =~= subst(cs@, pv));
                        }
                        i = i + 1;
                    },
                }
            }
        }
    }
    proof {
        assert(cs@.skip(n as int) =~= Seq::<char>::empty());
        assert(out@ =~= subst(cs@, pairs_view(pairs@)));
    }
    chars_to_string(&out)
}

} // verus!
