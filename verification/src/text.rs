//! Decomposition of an argument at its trailing colons.
//!
//! The suffix grammars of the resolver both cut the argument at colon
//! boundaries anchored to the end of the string: the final fragment
//! after the last colon, and (for the line-and-column grammar) the
//! fragment between the last two colons. The leading part is greedy:
//! it keeps every earlier colon. Splitting once at the last colon, and
//! again on the remainder, yields exactly those decompositions.

use vstd::prelude::*;

verus! {

/// No character of `s` is a colon.
pub open spec fn colon_free(s: Seq<char>) -> bool {
    forall|i: int| 0 <= i < s.len() ==> s[i] != ':'
}

/// `s` is `q`, a colon, then `c`, where `q` and `c` are non-empty and
/// `c` contains no colon. Such a cut is the one at the last colon of
/// `s`, so at most one `(q, c)` satisfies this.
pub open spec fn tail_split_ok(s: Seq<char>, q: Seq<char>, c: Seq<char>) -> bool {
    &&& s == q + seq![':'] + c
    &&& q.len() > 0
    &&& c.len() > 0
    &&& colon_free(c)
}

/// `s` can be cut at a last colon with non-empty sides.
pub open spec fn tail_splittable(s: Seq<char>) -> bool {
    exists|q: Seq<char>, c: Seq<char>| tail_split_ok(s, q, c)
}

/// The unique cut of `s` at its last colon. Meaningful when
/// `tail_splittable(s)` holds.
pub open spec fn tail_parts(s: Seq<char>) -> (Seq<char>, Seq<char>) {
    choose|q: Seq<char>, c: Seq<char>| tail_split_ok(s, q, c)
}

/// The cut at the last colon is unique.
pub proof fn lemma_tail_split_unique(
    s: Seq<char>,
    q1: Seq<char>,
    c1: Seq<char>,
    q2: Seq<char>,
    c2: Seq<char>,
)
    requires
        tail_split_ok(s, q1, c1),
        tail_split_ok(s, q2, c2),
    ensures
        q1 == q2,
        c1 == c2,
{
    assert(s.len() == q1.len() + 1 + c1.len());
    assert(s.len() == q2.len() + 1 + c2.len());
    if q1.len() < q2.len() {
        assert(s[q2.len() as int] == ':');
        assert(s[q2.len() as int] == c1[q2.len() - q1.len() - 1]);
        assert(false);
    }
    if q2.len() < q1.len() {
        assert(s[q1.len() as int] == ':');
        assert(s[q1.len() as int] == c2[q1.len() - q2.len() - 1]);
        assert(false);
    }
    assert forall|i: int| 0 <= i < q1.len() implies q1[i] == q2[i] by {
        assert(q1[i] == s[i]);
        assert(q2[i] == s[i]);
    }
    assert(q1 =~= q2);
    assert forall|i: int| 0 <= i < c1.len() implies c1[i] == c2[i] by {
        assert(c1[i] == s[q1.len() + 1 + i]);
        assert(c2[i] == s[q2.len() + 1 + i]);
    }
    assert(c1 =~= c2);
}

/// When some cut of `s` is known, `tail_parts(s)` is that cut.
pub proof fn lemma_tail_parts_are(s: Seq<char>, q: Seq<char>, c: Seq<char>)
    requires
        tail_split_ok(s, q, c),
    ensures
        tail_parts(s) == (q, c),
{
    let (q2, c2) = tail_parts(s);
    assert(tail_split_ok(s, q2, c2));
    lemma_tail_split_unique(s, q, c, q2, c2);
}

/// Index of the last colon of `s`, if any.
fn rfind_colon(s: &str) -> (r: Option<usize>)
    ensures
        match r {
            Some(i) => {
                &&& i < s@.len()
                &&& s@[i as int] == ':'
                &&& forall|j: int| i < j < s@.len() ==> s@[j] != ':'
            },
            None => colon_free(s@),
        },
{
    let n = s.unicode_len();
    let mut j: usize = n;
    while j > 0
        invariant
            j <= n,
            n == s@.len(),
            forall|k: int| j <= k < n ==> s@[k] != ':',
        decreases j,
    {
        let c = s.get_char(j - 1);
        if c == ':' {
            return Some(j - 1);
        }
        j = j - 1;
    }
    None
}

/// Cut `s` at its last colon, requiring a non-empty part on each side
/// and returning `None` when no such cut exists (no colon, a leading
/// colon, or a trailing colon).
pub fn split_tail(s: &str) -> (r: Option<(String, String)>)
    ensures
        match r {
            Some(parts) => tail_split_ok(s@, parts.0@, parts.1@),
            None => !tail_splittable(s@),
        },
{
    let n = s.unicode_len();
    match rfind_colon(s) {
        None => {
            proof {
                assert forall|q: Seq<char>, c: Seq<char>| !tail_split_ok(s@, q, c) by {
                    if tail_split_ok(s@, q, c) {
                        assert(s@[q.len() as int] == ':');
                    }
                }
            }
            None
        },
        Some(i) => {
            if i == 0 {
                proof {
                    assert forall|q: Seq<char>, c: Seq<char>| !tail_split_ok(s@, q, c) by {
                        if tail_split_ok(s@, q, c) {
                            assert(s@[q.len() as int] == ':');
                        }
                    }
                }
                None
            } else if i + 1 == n {
                proof {
                    assert forall|q: Seq<char>, c: Seq<char>| !tail_split_ok(s@, q, c) by {
                        if tail_split_ok(s@, q, c) {
                            assert(s@[n - 1] == c[n - 1 - q.len() - 1]);
                        }
                    }
                }
                None
            } else {
                let q = s.substring_char(0, i);
                let c = s.substring_char(i + 1, n);
                proof {
                    assert(s@ =~= s@.subrange(0, i as int) + seq![':'] + s@.subrange(
                        i as int + 1,
                        n as int,
                    ));
                    assert forall|k: int| 0 <= k < c@.len() implies c@[k] != ':' by {
                        assert(c@[k] == s@[i + 1 + k]);
                    }
                }
                Some((String::from_str(q), String::from_str(c)))
            }
        },
    }
}

} // verus!
