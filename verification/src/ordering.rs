use std::cmp::Ordering;
use vstd::prelude::*;
use vstd::std_specs::cmp::PartialOrdSpec;

use crate::replay::{loc_ge, loc_le, loc_lt, loc_value, same_kind, Click, Location};

verus! {

/// Every location in `s` is of the same kind, so that any two are comparable.
pub open spec fn all_same_kind(s: Seq<Click>) -> bool {
    forall|i: int, j: int|
        0 <= i < s.len() && 0 <= j < s.len() ==> same_kind(
            #[trigger] s[i].location,
            #[trigger] s[j].location,
        )
}

/// The clicks of `s` come in non-decreasing order of location.
pub open spec fn sorted_by_location(s: Seq<Click>) -> bool {
    forall|i: int, j: int|
        0 <= i < j < s.len() ==> loc_value(#[trigger] s[i].location) <= loc_value(
            #[trigger] s[j].location,
        )
}

/// The clicks at exactly location `l`.
pub open spec fn at_location(l: crate::replay::Location) -> spec_fn(Click) -> bool {
    |c: Click| c.location == l
}

/// `out` is `inp` sorted by location, with clicks at the same location kept
/// in their original order.
pub open spec fn is_stable_sort_of(out: Seq<Click>, inp: Seq<Click>) -> bool {
    &&& out.len() == inp.len()
    &&& sorted_by_location(out)
    &&& forall|l: crate::replay::Location| #[trigger] out.filter(at_location(l)) == inp.filter(at_location(l))
}

proof fn lemma_filter_insert(out: Seq<Click>, k: int, x: Click, l: crate::replay::Location)
    requires
        0 <= k <= out.len(),
        forall|j: int| k <= j < out.len() ==> (#[trigger] out[j]).location != x.location,
    ensures
        out.insert(k, x).filter(at_location(l)) == if x.location == l {
            out.filter(at_location(l)).push(x)
        } else {
            out.filter(at_location(l))
        },
{
    let p = at_location(l);
    let a = out.take(k);
    let b = out.skip(k);
    assert(out =~= a + b);
    assert(out.insert(k, x) =~= a.push(x) + b);
    Seq::filter_distributes_over_add(a.push(x), b, p);
    Seq::filter_distributes_over_add(a, b, p);
    a.lemma_filter_push(x, p);
    if x.location == l {
        assert(b.all(|c: Click| !p(c)));
        b.lemma_all_neg_filter_empty(p);
        assert(b.filter(p) =~= Seq::<Click>::empty());
        assert(a.filter(p).push(x) + b.filter(p) =~= (a.filter(p) + b.filter(p)).push(x));
    }
}

/// Sorts clicks by location, keeping clicks at the same location in their
/// order; all locations must be of one kind.
pub fn stable_sort_clicks(v: &Vec<Click>) -> (r: Vec<Click>)
    requires
        all_same_kind(v@),
    ensures
        is_stable_sort_of(r@, v@),
{
    let n = v.len();
    let mut out: Vec<Click> = Vec::new();
    let mut i: usize = 0;
    while i < n
        invariant
            n == v@.len(),
            i <= n,
            all_same_kind(v@),
            out@.len() == i,
            sorted_by_location(out@),
            forall|l: crate::replay::Location|
                #[trigger] out@.filter(at_location(l)) == v@.take(i as int).filter(at_location(l)),
        decreases n - i,
    {
        let x = v[i];
        let xv = x.location.value();
        let mut k = out.len();
        while k > 0 && out[k - 1].location.value() > xv
            invariant
                k <= out@.len(),
                xv == loc_value(x.location),
                forall|j: int| k <= j < out@.len() ==> loc_value((#[trigger] out@[j]).location) > xv,
            decreases k,
        {
            k = k - 1;
        }
        let ghost old_out = out@;
        proof {
            assert forall|j: int| k <= j < old_out.len() implies (#[trigger] old_out[j]).location
                != x.location by {
                assert(loc_value(old_out[j].location) > xv);
            }
            assert forall|l: crate::replay::Location|
                #[trigger] old_out.insert(k as int, x).filter(at_location(l)) == v@.take(
                    i + 1,
                ).filter(at_location(l)) by {
                lemma_filter_insert(old_out, k as int, x, l);
                assert(v@.take(i + 1) =~= v@.take(i as int).push(x));
                v@.take(i as int).lemma_filter_push(x, at_location(l));
            }
            old_out.insert_ensures(k as int, x);
        }
        out.insert(k, x);
        proof {
            assert forall|a: int, b: int| 0 <= a < b < out@.len() implies loc_value(
                #[trigger] out@[a].location,
            ) <= loc_value(#[trigger] out@[b].location) by {
                if a < k && b > k {
                    assert(out@[b] == old_out[b - 1]);
                } else if a < k && b == k {
                    if k > 0 {
                        assert(loc_value(old_out[k - 1].location) <= xv);
                        if a < k - 1 {
                            assert(loc_value(old_out[a].location) <= loc_value(
                                old_out[k - 1].location,
                            ));
                        }
                    }
                } else if a == k {
                    assert(out@[b] == old_out[b - 1]);
                } else if a > k {
                    assert(out@[a] == old_out[a - 1]);
                    assert(out@[b] == old_out[b - 1]);
                }
            }
        }
        i = i + 1;
    }
    proof {
        assert(v@.take(n as int) =~= v@);
    }
    out
}

proof fn lemma_count_in_filter(s: Seq<Click>, p: spec_fn(Click) -> bool, x: Click)
    requires
        p(x),
    ensures
        s.filter(p).to_multiset().count(x) == s.to_multiset().count(x),
    decreases s.len(),
{
    broadcast use vstd::seq_lib::group_to_multiset_ensures;

    if s.len() > 0 {
        let rest = s.drop_last();
        lemma_count_in_filter(rest, p, x);
        assert(s =~= rest.push(s.last()));
        rest.lemma_filter_push(s.last(), p);
    } else {
        reveal(Seq::filter);
    }
}

/// A stable sort by location only reorders: it keeps every click, as often
/// as it occurs.
pub proof fn stable_sort_is_permutation(out: Seq<Click>, inp: Seq<Click>)
    requires
        is_stable_sort_of(out, inp),
    ensures
        out.to_multiset() =~= inp.to_multiset(),
{
    assert forall|x: Click| out.to_multiset().count(x) == inp.to_multiset().count(x) by {
        let p = at_location(x.location);
        lemma_count_in_filter(out, p, x);
        lemma_count_in_filter(inp, p, x);
        assert(out.filter(p) == inp.filter(p));
    }
}

/// The order that `<`, `<=` and `>=` give on locations is the one the
/// replay's own comparisons use: only locations of one kind compare, by
/// their numbers, and equal ones are exactly the `==` ones.
pub proof fn location_order_agrees(a: Location, b: Location)
    ensures
        (a.partial_cmp_spec(&b) == Some(Ordering::Less)) == loc_lt(a, b),
        (a.partial_cmp_spec(&b) matches Some(Ordering::Less | Ordering::Equal)) == loc_le(a, b),
        (a.partial_cmp_spec(&b) matches Some(Ordering::Greater | Ordering::Equal)) == loc_ge(a, b),
        (a.partial_cmp_spec(&b) == Some(Ordering::Equal)) == (a == b),
        (a.partial_cmp_spec(&b) is None) == !same_kind(a, b),
{
}

} // verus!
