//! Stores for user and session records.
//!
//! Each store is the sole authority over its records: single, atomic
//! operations, no update-in-place of a session's security tokens, and
//! uniqueness invariants on emails, session identifiers and CSRF secrets.

pub mod session_repository;
pub mod user_repository;

use vstd::prelude::*;

verus! {

/// A store operation's failure, as a small tagged set of outcomes: the
/// record looked for is absent, an inserted record collides with a
/// uniqueness constraint, or the store can assign no further ids.
#[derive(Debug, Clone, Copy, PartialEq, Eq, Structural)]
pub enum StoreError {
    NotFound,
    Conflict,
    Unavailable,
}

/// Every two records of `s` differ on the field selected by `key`.
pub open spec fn distinct_by<A, K>(s: Seq<A>, key: spec_fn(A) -> K) -> bool {
    forall|i: int, j: int| 0 <= i < j < s.len() ==> key(s[i]) != key(s[j])
}

/// Removing records from a store never breaks a uniqueness constraint.
pub proof fn lemma_filter_distinct_by<A, K>(s: Seq<A>, pred: spec_fn(A) -> bool, key: spec_fn(
    A,
) -> K)
    requires
        distinct_by(s, key),
    ensures
        distinct_by(s.filter(pred), key),
    decreases s.len(),
{
    reveal(Seq::filter);
    if s.len() != 0 {
        let rest = s.drop_last();
        assert forall|i: int, j: int| 0 <= i < j < rest.len() implies key(rest[i]) != key(
            rest[j],
        ) by {
            assert(rest[i] == s[i]);
            assert(rest[j] == s[j]);
        }
        lemma_filter_distinct_by(rest, pred, key);
        if pred(s.last()) {
            let fr = rest.filter(pred);
            assert(s.filter(pred) == fr.push(s.last()));
            assert forall|i: int| 0 <= i < fr.len() implies key(fr[i]) != key(s.last()) by {
                assert(fr.contains(fr[i]));
                rest.lemma_filter_contains_rev(pred, fr[i]);
                let w = choose|w: int| 0 <= w < rest.len() && rest[w] == fr[i];
                assert(rest[w] == s[w]);
                assert(key(s[w]) != key(s[s.len() - 1]));
            }
            assert forall|i: int, j: int|
                0 <= i < j < s.filter(pred).len() implies key(s.filter(pred)[i]) != key(
                s.filter(pred)[j],
            ) by {
                if j < fr.len() {
                    assert(s.filter(pred)[i] == fr[i]);
                    assert(s.filter(pred)[j] == fr[j]);
                } else {
                    assert(s.filter(pred)[i] == fr[i]);
                    assert(s.filter(pred)[j] == s.last());
                }
            }
        }
    }
}

} // verus!
