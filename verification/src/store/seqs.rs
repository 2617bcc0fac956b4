//! Facts about sequences that the store model rests on: the first position at
//! which a predicate holds, and what filtering keeps.

use vstd::prelude::*;

verus! {

/// The first position of `s` at which `p` holds, or the length of `s` if it
/// holds nowhere.
pub open spec fn position<T>(s: Seq<T>, p: spec_fn(T) -> bool) -> int
    decreases s.len(),
{
    if s.len() == 0 {
        0
    } else if p(s.first()) {
        0
    } else {
        1 + position(s.drop_first(), p)
    }
}

/// The first element of `s` for which `p` holds.
pub open spec fn first_where<T>(s: Seq<T>, p: spec_fn(T) -> bool) -> Option<T> {
    if position(s, p) < s.len() {
        Some(s[position(s, p)])
    } else {
        None
    }
}

/// Some element of `s` satisfies `p`.
pub open spec fn any_where<T>(s: Seq<T>, p: spec_fn(T) -> bool) -> bool {
    exists|i: int| 0 <= i < s.len() && p(#[trigger] s[i])
}

/// No two elements of `s` have the same key.
pub open spec fn distinct_by<T, K>(s: Seq<T>, key: spec_fn(T) -> K) -> bool {
    forall|i: int, j: int| 0 <= i < j < s.len() ==> key(#[trigger] s[i]) != key(#[trigger] s[j])
}

/// `position` is a position of `s` or its length; `p` holds there and at no
/// earlier position.
pub proof fn lemma_position<T>(s: Seq<T>, p: spec_fn(T) -> bool)
    ensures
        0 <= position(s, p) <= s.len(),
        position(s, p) < s.len() ==> p(s[position(s, p)]),
        forall|j: int| 0 <= j < position(s, p) ==> !p(#[trigger] s[j]),
        position(s, p) < s.len() <==> any_where(s, p),
    decreases s.len(),
{
    if s.len() > 0 && !p(s.first()) {
        let rest = s.drop_first();
        lemma_position(rest, p);
        assert forall|j: int| 0 <= j < position(s, p) implies !p(#[trigger] s[j]) by {
            if j > 0 {
                assert(s[j] == rest[j - 1]);
            }
        }
        if position(s, p) < s.len() {
            assert(s[position(s, p)] == rest[position(rest, p)]);
        }
        if any_where(s, p) {
            let i = choose|i: int| 0 <= i < s.len() && p(#[trigger] s[i]);
            assert(rest[i - 1] == s[i]);
        }
    } else if s.len() > 0 {
        assert(p(s[0]));
    }
}

/// The position at which `p` first holds is `k` when it holds at `k` and
/// nowhere before.
pub proof fn lemma_position_is<T>(s: Seq<T>, p: spec_fn(T) -> bool, k: int)
    requires
        0 <= k <= s.len(),
        k < s.len() ==> p(s[k]),
        forall|j: int| 0 <= j < k ==> !p(#[trigger] s[j]),
    ensures
        position(s, p) == k,
{
    lemma_position(s, p);
    let found = position(s, p);
    if found < k {
        assert(!p(s[found]));
    }
}

/// Appending an element does not move the first position at which `p` holds,
/// unless `p` held nowhere: then it holds at the new element or nowhere.
pub proof fn lemma_position_push<T>(s: Seq<T>, p: spec_fn(T) -> bool, x: T)
    ensures
        position(s, p) < s.len() ==> position(s.push(x), p) == position(s, p),
        position(s, p) == s.len() && p(x) ==> position(s.push(x), p) == s.len(),
        position(s, p) == s.len() && !p(x) ==> position(s.push(x), p) == s.len() + 1,
{
    lemma_position(s, p);
    let t = s.push(x);
    let k = position(s, p);
    assert forall|j: int| 0 <= j < k implies !p(#[trigger] t[j]) by {
        assert(t[j] == s[j]);
    }
    if k < s.len() {
        assert(t[k] == s[k]);
        lemma_position_is(t, p, k);
    } else if p(x) {
        lemma_position_is(t, p, k);
    } else {
        assert forall|j: int| 0 <= j < k + 1 implies !p(#[trigger] t[j]) by {
            if j < k {
                assert(t[j] == s[j]);
            }
        }
        lemma_position_is(t, p, k + 1);
    }
}

/// Filtering keeps elements of the sequence, each of which passes the filter,
/// and keeps every element that passes.
pub proof fn lemma_filter_members<T>(s: Seq<T>, keep: spec_fn(T) -> bool)
    ensures
        forall|i: int|
            0 <= i < s.filter(keep).len() ==> keep(#[trigger] s.filter(keep)[i]) && s.contains(
                s.filter(keep)[i],
            ),
        forall|i: int| 0 <= i < s.len() && keep(s[i]) ==> s.filter(keep).contains(#[trigger] s[i]),
        s.filter(keep).len() <= s.len(),
    decreases s.len(),
{
    reveal(Seq::filter);
    if s.len() > 0 {
        let front = s.drop_last();
        lemma_filter_members(front, keep);
        let kept = front.filter(keep);
        let out = s.filter(keep);
        assert forall|i: int| 0 <= i < out.len() implies keep(#[trigger] out[i]) && s.contains(
            out[i],
        ) by {
            if i < kept.len() {
                assert(out[i] == kept[i]);
                assert(front.contains(kept[i]));
                let k = choose|k: int| 0 <= k < front.len() && front[k] == kept[i];
                assert(s[k] == out[i]);
            } else {
                assert(out[i] == s[s.len() - 1]);
            }
        }
        assert forall|i: int| 0 <= i < s.len() && keep(s[i]) implies out.contains(
            #[trigger] s[i],
        ) by {
            if i < front.len() {
                assert(front[i] == s[i]);
                assert(kept.contains(front[i]));
                let k = choose|k: int| 0 <= k < kept.len() && kept[k] == front[i];
                assert(out[k] == s[i]);
            } else {
                assert(out[out.len() - 1] == s[i]);
            }
        }
    }
}

/// Filtering a sequence without duplicate keys leaves no duplicate keys.
pub proof fn lemma_filter_distinct<T, K>(s: Seq<T>, keep: spec_fn(T) -> bool, key: spec_fn(T) -> K)
    requires
        distinct_by(s, key),
    ensures
        distinct_by(s.filter(keep), key),
    decreases s.len(),
{
    reveal(Seq::filter);
    if s.len() > 0 {
        let front = s.drop_last();
        assert forall|i: int, j: int| 0 <= i < j < front.len() implies key(#[trigger] front[i])
            != key(#[trigger] front[j]) by {
            assert(front[i] == s[i] && front[j] == s[j]);
        }
        lemma_filter_distinct(front, keep, key);
        lemma_filter_members(front, keep);
        let kept = front.filter(keep);
        if keep(s.last()) {
            let all = kept.push(s.last());
            assert forall|i: int, j: int| 0 <= i < j < all.len() implies key(#[trigger] all[i])
                != key(#[trigger] all[j]) by {
                if j == kept.len() {
                    assert(all[i] == kept[i]);
                    assert(front.contains(kept[i]));
                    let k = choose|k: int| 0 <= k < front.len() && front[k] == kept[i];
                    assert(s[k] == kept[i]);
                    assert(key(s[k]) != key(s[s.len() - 1]));
                } else {
                    assert(all[i] == kept[i] && all[j] == kept[j]);
                }
            }
        }
    }
}

/// Filtering keeps nothing of a sequence in which nothing passes, and all of
/// a sequence in which everything passes.
pub proof fn lemma_filter_none_or_all<T>(s: Seq<T>, keep: spec_fn(T) -> bool)
    ensures
        (forall|i: int| 0 <= i < s.len() ==> !keep(#[trigger] s[i])) ==> s.filter(keep).len() == 0,
        (forall|i: int| 0 <= i < s.len() ==> keep(#[trigger] s[i])) ==> s.filter(keep) == s,
    decreases s.len(),
{
    reveal(Seq::filter);
    if s.len() > 0 {
        let front = s.drop_last();
        lemma_filter_none_or_all(front, keep);
        if forall|i: int| 0 <= i < s.len() ==> !keep(#[trigger] s[i]) {
            assert forall|i: int| 0 <= i < front.len() implies !keep(#[trigger] front[i]) by {
                assert(front[i] == s[i]);
            }
            assert(!keep(s[s.len() - 1]));
        }
        if forall|i: int| 0 <= i < s.len() ==> keep(#[trigger] s[i]) {
            assert forall|i: int| 0 <= i < front.len() implies keep(#[trigger] front[i]) by {
                assert(front[i] == s[i]);
            }
            assert(keep(s[s.len() - 1]));
            assert(front.push(s.last()) =~= s);
        }
    }
}

/// The first element for which `p` holds is the same before and after a
/// filter that keeps every element for which `p` holds.
pub proof fn lemma_filter_first<T>(s: Seq<T>, keep: spec_fn(T) -> bool, p: spec_fn(T) -> bool)
    requires
        forall|x: T| #[trigger] p(x) ==> keep(x),
    ensures
        first_where(s.filter(keep), p) == first_where(s, p),
    decreases s.len(),
{
    reveal(Seq::filter);
    lemma_position(s, p);
    lemma_position(s.filter(keep), p);
    if s.len() > 0 {
        let front = s.drop_last();
        let kept = front.filter(keep);
        lemma_filter_first(front, keep, p);
        lemma_position(front, p);
        lemma_position(kept, p);
        assert forall|j: int| 0 <= j < front.len() implies front[j] == s[j] by {}
        if position(front, p) < front.len() {
            lemma_position_is(s, p, position(front, p));
            if keep(s.last()) {
                lemma_position_push(kept, p, s.last());
            }
        } else {
            lemma_position_push(front, p, s.last());
            assert(front.push(s.last()) =~= s);
            if keep(s.last()) {
                lemma_position_push(kept, p, s.last());
            }
        }
    }
}

/// Filtering by `second` what `first` kept gives what `second` alone keeps,
/// when everything that passes `second` passes `first`.
pub proof fn lemma_filter_twice<T>(s: Seq<T>, first: spec_fn(T) -> bool, second: spec_fn(T) -> bool)
    requires
        forall|x: T| #[trigger] second(x) ==> first(x),
    ensures
        s.filter(first).filter(second) == s.filter(second),
    decreases s.len(),
{
    reveal(Seq::filter);
    if s.len() > 0 {
        lemma_filter_twice(s.drop_last(), first, second);
        let kept = s.drop_last().filter(first);
        if first(s.last()) {
            assert(kept.push(s.last()).drop_last() =~= kept);
        }
    }
}

} // verus!
