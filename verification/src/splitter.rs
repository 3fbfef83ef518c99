//! Splitting a dotted domain name into a subdomain label and a root domain.

use vstd::prelude::*;
use crate::outcome::{ErrorView, UpdateError};
use crate::text::chars_of;

verus! {

/// The label that stands for the root of a domain where a subdomain is asked
/// for.
pub open spec fn apex() -> Seq<char> {
    seq!['@']
}

/// The number of dots in `s`.
pub open spec fn dot_count(s: Seq<char>) -> nat
    decreases s.len(),
{
    if s.len() == 0 {
        0
    } else {
        dot_count(s.drop_last()) + if s.last() == '.' {
            1nat
        } else {
            0nat
        }
    }
}

/// The position of the first dot in `s`, or the length of `s` if it has none.
pub open spec fn first_dot(s: Seq<char>) -> int
    decreases s.len(),
{
    if s.len() == 0 || s.first() == '.' {
        0
    } else {
        1 + first_dot(s.drop_first())
    }
}

/// The subdomain and the root that a domain name splits into, if it has a
/// dot. With one dot the whole name is the root and the subdomain is the
/// apex label. With more the name is cut at its first dot, which goes to
/// neither part.
pub open spec fn split_spec(domain: Seq<char>) -> Option<(Seq<char>, Seq<char>)> {
    if dot_count(domain) == 0 {
        None
    } else if dot_count(domain) == 1 {
        Some((apex(), domain))
    } else {
        Some((domain.take(first_dot(domain)), domain.skip(first_dot(domain) + 1)))
    }
}

/// The dots of two texts joined are those of the one and those of the other.
proof fn lemma_dot_count_concat(a: Seq<char>, b: Seq<char>)
    ensures
        dot_count(a + b) == dot_count(a) + dot_count(b),
    decreases b.len(),
{
    if b.len() == 0 {
        assert(a + b =~= a);
    } else {
        lemma_dot_count_concat(a, b.drop_last());
        assert((a + b).drop_last() =~= a + b.drop_last());
        assert((a + b).last() == b.last());
    }
}

/// A text has no dots exactly if none of its characters is a dot.
proof fn lemma_dot_count_zero(s: Seq<char>)
    ensures
        dot_count(s) == 0 <==> (forall|k: int| 0 <= k < s.len() ==> s[k] != '.'),
    decreases s.len(),
{
    if s.len() > 0 {
        lemma_dot_count_zero(s.drop_last());
        if dot_count(s) == 0 {
            assert forall|k: int| 0 <= k < s.len() implies s[k] != '.' by {
                if k < s.len() - 1 {
                    assert(s.drop_last()[k] == s[k]);
                }
            }
        }
        if forall|k: int| 0 <= k < s.len() ==> s[k] != '.' {
            assert forall|k: int| 0 <= k < s.drop_last().len() implies s.drop_last()[k]
                != '.' by {
                assert(s.drop_last()[k] == s[k]);
            }
        }
    }
}

/// The dots of a text whose first dot stands at `at`: that one and those
/// behind it.
proof fn lemma_dot_count_at_first(s: Seq<char>, at: int)
    requires
        0 <= at < s.len(),
        s[at] == '.',
        forall|k: int| 0 <= k < at ==> s[k] != '.',
    ensures
        dot_count(s) == 1 + dot_count(s.skip(at + 1)),
{
    let head = s.take(at);
    let dot = seq![s[at]];
    let rest = s.skip(at + 1);
    assert(s =~= head + dot + rest);
    lemma_dot_count_concat(head + dot, rest);
    lemma_dot_count_concat(head, dot);
    lemma_dot_count_zero(head);
    assert(dot.drop_last().len() == 0);
    assert(dot_count(dot.drop_last()) == 0);
    assert(dot.last() == '.');
}

/// `first_dot` stands at or before any dot, on a dot, behind no dot.
proof fn lemma_first_dot_bounded(s: Seq<char>, at: int)
    requires
        0 <= at < s.len(),
        s[at] == '.',
    ensures
        0 <= first_dot(s) <= at,
        s[first_dot(s)] == '.',
        forall|k: int| 0 <= k < first_dot(s) ==> s[k] != '.',
    decreases at,
{
    if s.first() != '.' {
        let rest = s.drop_first();
        assert(rest[at - 1] == s[at]);
        lemma_first_dot_bounded(rest, at - 1);
        assert(rest[first_dot(rest)] == s[first_dot(rest) + 1]);
        assert forall|k: int| 0 <= k < first_dot(s) implies s[k] != '.' by {
            if k > 0 {
                assert(rest[k - 1] == s[k]);
            }
        }
    }
}

/// In a text with a dot, `first_dot` is the place of one, and no dot stands
/// before it.
proof fn lemma_first_dot_found(s: Seq<char>)
    requires
        dot_count(s) > 0,
    ensures
        0 <= first_dot(s) < s.len(),
        s[first_dot(s)] == '.',
        forall|k: int| 0 <= k < first_dot(s) ==> s[k] != '.',
{
    lemma_dot_count_zero(s);
    let at = choose|k: int| 0 <= k < s.len() && s[k] == '.';
    lemma_first_dot_bounded(s, at);
}

/// A name with two dots or more is cut into its first label and the rest:
/// with the dot between them they make up the name, the label holds no dot,
/// and the rest holds all the dots but that one, so it is not empty.
pub proof fn law_split_cuts_at_first_dot(domain: Seq<char>)
    requires
        dot_count(domain) >= 2,
    ensures
        split_spec(domain) matches Some(parts) && parts.0 + seq!['.'] + parts.1 == domain
            && dot_count(parts.0) == 0 && dot_count(parts.1) == dot_count(domain) - 1
            && parts.1.len() > 0,
{
    lemma_first_dot_found(domain);
    let at = first_dot(domain);
    let label = domain.take(at);
    let rest = domain.skip(at + 1);
    lemma_dot_count_at_first(domain, at);
    lemma_dot_count_zero(label);
    assert(label + seq!['.'] + rest =~= domain);
}

/// Splits a domain name into its subdomain label and its root domain.
///
/// A name without a dot is refused. A name with one dot is a root domain: it
/// comes back whole, under the apex label `@`. A name with two dots or more
/// is cut at the first: what stands before it is the subdomain, what stands
/// behind it the root, however many labels that holds.
pub fn split(domain: &str) -> (r: Result<(String, String), UpdateError>)
    ensures
        dot_count(domain@) == 0 ==> (r matches Err(e) && e@ == ErrorView::InvalidDomain),
        dot_count(domain@) == 1 ==> (r matches Ok(parts) && parts.0@ == apex() && parts.1@
            == domain@),
        dot_count(domain@) >= 2 ==> (r matches Ok(parts) && parts.0@ == domain@.take(
            first_dot(domain@),
        ) && parts.1@ == domain@.skip(first_dot(domain@) + 1)),
        (match r {
            Ok(parts) => split_spec(domain@) == Some((parts.0@, parts.1@)),
            Err(e) => split_spec(domain@) is None && e@ == ErrorView::InvalidDomain,
        }),
{
    let chars = chars_of(domain);
    let n: usize = chars.len();
    let mut at: usize = 0;
    while at < n && chars[at] != '.'
        invariant
            n == chars.len(),
            at <= n,
            forall|k: int| 0 <= k < at ==> chars@[k] != '.',
        decreases n - at,
    {
        at += 1;
    }
    if at == n {
        proof {
            lemma_dot_count_zero(domain@);
        }
        return Err(UpdateError::InvalidDomain);
    }
    let mut next: usize = at + 1;
    while next < n && chars[next] != '.'
        invariant
            n == chars.len(),
            at < next <= n,
            forall|k: int| at < k < next ==> chars@[k] != '.',
        decreases n - next,
    {
        next += 1;
    }
    proof {
        let rest = domain@.skip(at + 1);
        lemma_dot_count_at_first(domain@, at as int);
        lemma_first_dot_bounded(domain@, at as int);
        lemma_dot_count_zero(rest);
        if next == n {
            assert forall|k: int| 0 <= k < rest.len() implies rest[k] != '.' by {
                assert(rest[k] == chars@[at + 1 + k]);
            }
        } else {
            assert(rest[next - at - 1] == chars@[next as int]);
        }
    }
    if next == n {
        proof {
            reveal_strlit("@");
            assert("@"@ =~= apex());
        }
        Ok(("@".to_owned(), domain.to_owned()))
    } else {
        let sub = domain.substring_char(0, at).to_owned();
        let root = domain.substring_char(at + 1, n).to_owned();
        Ok((sub, root))
    }
}

} // verus!
