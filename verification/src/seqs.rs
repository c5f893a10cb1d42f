//! Facts about filtered sequences.
use vstd::prelude::*;

verus! {

/// Filtering one more item keeps what was kept before, and the item where it passes.
pub(crate) proof fn filter_one_more<A>(s: Seq<A>, i: int, keep: spec_fn(A) -> bool)
    requires
        0 <= i < s.len(),
    ensures
        s.take(i + 1).filter(keep) == if keep(s[i]) {
            s.take(i).filter(keep).push(s[i])
        } else {
            s.take(i).filter(keep)
        },
{
    reveal(Seq::filter);
    assert(s.take(i + 1).drop_last() =~= s.take(i));
}

/// An item is kept if and only if it is there and passes.
pub(crate) proof fn filter_membership<A>(s: Seq<A>, keep: spec_fn(A) -> bool, x: A)
    ensures
        s.filter(keep).contains(x) <==> s.contains(x) && keep(x),
        s.filter(keep).len() <= s.len(),
    decreases s.len(),
{
    reveal(Seq::filter);
    if s.len() > 0 {
        let init = s.drop_last();
        filter_membership(init, keep, x);
        assert(s =~= init.push(s.last()));
        assert(s.contains(x) <==> init.contains(x) || x == s.last()) by {
            if init.contains(x) {
                let j = choose|j: int| 0 <= j < init.len() && init[j] == x;
                assert(s[j] == x);
            }
            if x == s.last() {
                assert(s[s.len() - 1] == x);
            }
            if s.contains(x) && x != s.last() {
                let j = choose|j: int| 0 <= j < s.len() && s[j] == x;
                assert(init[j] == x);
            }
        }
        let kept = init.filter(keep);
        if keep(s.last()) {
            assert(kept.push(s.last()).contains(x) <==> kept.contains(x) || x == s.last()) by {
                if kept.contains(x) {
                    let j = choose|j: int| 0 <= j < kept.len() && kept[j] == x;
                    assert(kept.push(s.last())[j] == x);
                }
                assert(kept.push(s.last())[kept.len() as int] == s.last());
            }
        }
    }
}

/// Filtering keeps the first item, where it passes, and what is kept of the rest.
pub(crate) proof fn filter_first<A>(s: Seq<A>, keep: spec_fn(A) -> bool)
    requires
        s.len() > 0,
    ensures
        s.filter(keep) == if keep(s[0]) {
            seq![s[0]] + s.drop_first().filter(keep)
        } else {
            s.drop_first().filter(keep)
        },
    decreases s.len(),
{
    reveal(Seq::filter);
    if s.len() == 1 {
        filter_none(s.drop_last(), keep);
        filter_none(s.drop_first(), keep);
        assert(Seq::empty().push(s[0]) =~= seq![s[0]] + Seq::<A>::empty());
    } else {
        let init = s.drop_last();
        let rest = s.drop_first();
        filter_first(init, keep);
        assert(init.drop_first() =~= rest.drop_last());
        assert(rest.last() == s.last());
        if keep(s.last()) {
            assert((seq![s[0]] + rest.drop_last().filter(keep)).push(s.last()) =~= seq![s[0]]
                + rest.drop_last().filter(keep).push(s.last()));
        }
    }
}

/// Filtering twice is filtering once for both.
pub(crate) proof fn filter_twice<A>(
    s: Seq<A>,
    first: spec_fn(A) -> bool,
    second: spec_fn(A) -> bool,
    both: spec_fn(A) -> bool,
)
    requires
        forall|i: int|
            0 <= i < s.len() ==> (both(#[trigger] s[i]) <==> first(s[i]) && second(s[i])),
    ensures
        s.filter(first).filter(second) == s.filter(both),
    decreases s.len(),
{
    reveal(Seq::filter);
    if s.len() == 0 {
        filter_none(s, first);
        filter_none(Seq::<A>::empty(), second);
        filter_none(s, both);
    } else {
        let init = s.drop_last();
        assert forall|i: int| 0 <= i < init.len() implies (both(#[trigger] init[i]) <==> first(
            init[i],
        ) && second(init[i])) by {
            assert(init[i] == s[i]);
        }
        filter_twice(init, first, second, both);
        assert(both(s[s.len() - 1]) <==> first(s[s.len() - 1]) && second(s[s.len() - 1]));
        if first(s.last()) {
            assert(init.filter(first).push(s.last()).drop_last() =~= init.filter(first));
        }
    }
}

/// Where no item passes, filtering keeps nothing.
pub(crate) proof fn filter_none<A>(s: Seq<A>, keep: spec_fn(A) -> bool)
    requires
        forall|i: int| 0 <= i < s.len() ==> !keep(#[trigger] s[i]),
    ensures
        s.filter(keep) == Seq::<A>::empty(),
    decreases s.len(),
{
    reveal(Seq::filter);
    if s.len() > 0 {
        filter_none(s.drop_last(), keep);
        assert(!keep(s[s.len() - 1]));
    }
}

/// Filtering one sequence followed by another keeps what is kept of the one, followed by what is kept
/// of the other.
pub(crate) proof fn filter_appended<A>(a: Seq<A>, b: Seq<A>, keep: spec_fn(A) -> bool)
    ensures
        (a + b).filter(keep) == a.filter(keep) + b.filter(keep),
    decreases b.len(),
{
    reveal(Seq::filter);
    if b.len() == 0 {
        filter_none(b, keep);
        assert(a + b =~= a);
        assert(a.filter(keep) + b.filter(keep) =~= a.filter(keep));
    } else {
        filter_appended(a, b.drop_last(), keep);
        assert((a + b).drop_last() =~= a + b.drop_last());
        assert((a + b).last() == b.last());
        assert((a + b).filter(keep) =~= a.filter(keep) + b.filter(keep));
    }
}

} // verus!
