//! Lists of identities: membership, removal, and freedom from duplicates.

use crate::identity::Identity;
use vstd::prelude::*;

verus! {

/// `s` without every occurrence of `x`, the others in their order.
pub open spec fn without(s: Seq<Identity>, x: Identity) -> Seq<Identity> {
    s.filter(|y: Identity| y != x)
}

/// `s` with each value at its first occurrence only.
pub open spec fn distinct(s: Seq<Identity>) -> Seq<Identity>
    decreases s.len(),
{
    if s.len() == 0 {
        s
    } else {
        let d = distinct(s.drop_last());
        if d.contains(s.last()) {
            d
        } else {
            d.push(s.last())
        }
    }
}

/// Membership in `without(s, x)`, and that it keeps a sequence free of
/// duplicates.
pub proof fn lemma_without(s: Seq<Identity>, x: Identity)
    ensures
        forall|y: Identity| #[trigger] without(s, x).contains(y) <==> s.contains(y) && y != x,
        s.no_duplicates() ==> without(s, x).no_duplicates(),
        without(s, x).len() <= s.len(),
        !s.contains(x) ==> without(s, x) == s,
    decreases s.len(),
{
    reveal(Seq::filter);
    let pred = |y: Identity| y != x;
    if s.len() == 0 {
        assert forall|y: Identity| #[trigger] without(s, x).contains(y) <==> s.contains(y) && y
            != x by {}
    } else {
        let head = s.drop_last();
        let last = s.last();
        lemma_without(head, x);
        let sub = without(head, x);
        assert forall|y: Identity| #[trigger] without(s, x).contains(y) <==> s.contains(y) && y
            != x by {
            if without(s, x).contains(y) {
                let i = choose|i: int| 0 <= i < without(s, x).len() && without(s, x)[i] == y;
                if pred(last) && i == sub.len() {
                    assert(s[s.len() - 1] == y);
                } else {
                    assert(sub[i] == y);
                    assert(sub.contains(y));
                    let j = choose|j: int| 0 <= j < head.len() && head[j] == y;
                    assert(s[j] == y);
                }
            }
            if s.contains(y) && y != x {
                let j = choose|j: int| 0 <= j < s.len() && s[j] == y;
                if j == s.len() - 1 {
                    assert(without(s, x)[sub.len() as int] == y);
                } else {
                    assert(head[j] == y);
                    assert(head.contains(y));
                    assert(sub.contains(y));
                    let i = choose|i: int| 0 <= i < sub.len() && sub[i] == y;
                    assert(without(s, x)[i] == y);
                }
            }
        }
        if s.no_duplicates() {
            assert(head.no_duplicates());
            if pred(last) {
                if sub.contains(last) {
                    let j = choose|j: int| 0 <= j < head.len() && head[j] == last;
                    assert(s[j] == s[s.len() - 1]);
                }
            }
        }
        if !s.contains(x) {
            assert(!head.contains(x)) by {
                if head.contains(x) {
                    let j = choose|j: int| 0 <= j < head.len() && head[j] == x;
                    assert(s[j] == x);
                }
            }
            assert(last != x) by {
                assert(s[s.len() - 1] == last);
            }
            assert(without(s, x) =~= s);
        }
    }
}

/// `distinct` keeps the members, has no duplicates, and changes nothing
/// where there were none.
pub proof fn lemma_distinct(s: Seq<Identity>)
    ensures
        distinct(s).no_duplicates(),
        forall|x: Identity| #[trigger] distinct(s).contains(x) <==> s.contains(x),
        s.no_duplicates() ==> distinct(s) == s,
    decreases s.len(),
{
    if s.len() > 0 {
        let head = s.drop_last();
        let last = s.last();
        let d = distinct(head);
        lemma_distinct(head);
        assert forall|x: Identity| #[trigger] distinct(s).contains(x) <==> s.contains(x) by {
            if distinct(s).contains(x) {
                let i = choose|i: int| 0 <= i < distinct(s).len() && distinct(s)[i] == x;
                if !d.contains(last) && i == d.len() {
                    assert(s[s.len() - 1] == x);
                } else {
                    assert(d[i] == x);
                    assert(d.contains(x));
                    let j = choose|j: int| 0 <= j < head.len() && head[j] == x;
                    assert(s[j] == x);
                }
            }
            if s.contains(x) {
                let j = choose|j: int| 0 <= j < s.len() && s[j] == x;
                if j < s.len() - 1 {
                    assert(head[j] == x);
                    assert(head.contains(x));
                    assert(d.contains(x));
                    let i = choose|i: int| 0 <= i < d.len() && d[i] == x;
                    assert(distinct(s)[i] == x);
                } else if d.contains(last) {
                } else {
                    assert(distinct(s)[d.len() as int] == x);
                }
            }
        }
        if s.no_duplicates() {
            assert(head.no_duplicates());
            if d.contains(last) {
                assert(head.contains(last));
                let j = choose|j: int| 0 <= j < head.len() && head[j] == last;
                assert(s[j] == s[s.len() - 1]);
            }
            assert(distinct(s) =~= s);
        }
    }
}

/// A value that occurs in a sequence free of duplicates occurs once.
pub proof fn lemma_single_occurrence(s: Seq<Identity>, x: Identity)
    requires
        s.no_duplicates(),
        s.contains(x),
    ensures
        s.filter(|y: Identity| y == x).len() == 1,
    decreases s.len(),
{
    reveal(Seq::filter);
    let pred = |y: Identity| y == x;
    let head = s.drop_last();
    if s.last() == x {
        assert(!head.contains(x)) by {
            if head.contains(x) {
                let j = choose|j: int| 0 <= j < head.len() && head[j] == x;
                assert(s[j] == s[s.len() - 1]);
            }
        }
        lemma_no_occurrence(head, x);
    } else {
        let i = choose|i: int| 0 <= i < s.len() && s[i] == x;
        assert(head[i] == x);
        lemma_single_occurrence(head, x);
    }
}

proof fn lemma_no_occurrence(s: Seq<Identity>, x: Identity)
    requires
        !s.contains(x),
    ensures
        s.filter(|y: Identity| y == x).len() == 0,
    decreases s.len(),
{
    reveal(Seq::filter);
    if s.len() > 0 {
        let head = s.drop_last();
        assert(s[s.len() - 1] != x);
        assert(!head.contains(x)) by {
            if head.contains(x) {
                let j = choose|j: int| 0 <= j < head.len() && head[j] == x;
                assert(s[j] == x);
            }
        }
        lemma_no_occurrence(head, x);
    }
}

/// Whether `id` is listed in `ids`.
pub(crate) fn listed(ids: &Vec<Identity>, id: &Identity) -> (r: bool)
    ensures
        r == ids@.contains(*id),
{
    let mut i: usize = 0;
    while i < ids.len()
        invariant
            i <= ids@.len(),
            forall|j: int| 0 <= j < i ==> ids@[j] != *id,
        decreases ids@.len() - i,
    {
        if ids[i] == *id {
            return true;
        }
        i += 1;
    }
    false
}

/// The listed identities without `x`, in their order.
pub(crate) fn list_without(ids: &Vec<Identity>, x: &Identity) -> (kept: Vec<Identity>)
    ensures
        kept@ == without(ids@, *x),
{
    let mut kept: Vec<Identity> = Vec::new();
    let mut i: usize = 0;
    proof {
        reveal(Seq::filter);
        assert(ids@.subrange(0, 0) =~= Seq::<Identity>::empty());
    }
    while i < ids.len()
        invariant
            i <= ids@.len(),
            kept@ == without(ids@.subrange(0, i as int), *x),
        decreases ids@.len() - i,
    {
        proof {
            reveal(Seq::filter);
            assert(ids@.subrange(0, i + 1).drop_last() =~= ids@.subrange(0, i as int));
        }
        let a = ids[i];
        if !(a == *x) {
            kept.push(a);
        }
        i += 1;
    }
    proof {
        assert(ids@.subrange(0, i as int) =~= ids@);
    }
    kept
}

} // verus!
