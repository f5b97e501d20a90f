//! Resource flows: the signed amounts that production moves in one turn, and
//! their gross sums per resource.
use vstd::prelude::*;

use crate::resource::Resource;

verus! {

/// One movement of a resource: positive amounts come in, negative ones go out.
pub type Flow = (Resource, int);

/// Sum of the incoming amounts of `r` in `flows`.
pub open spec fn gross_in(flows: Seq<Flow>, r: Resource) -> int
    decreases flows.len(),
{
    if flows.len() == 0 {
        0
    } else {
        let last = flows.last();
        gross_in(flows.drop_last(), r) + if last.0 == r && last.1 > 0 {
            last.1
        } else {
            0
        }
    }
}

/// Sum of the magnitudes of the outgoing amounts of `r` in `flows`.
pub open spec fn gross_out(flows: Seq<Flow>, r: Resource) -> int
    decreases flows.len(),
{
    if flows.len() == 0 {
        0
    } else {
        let last = flows.last();
        gross_out(flows.drop_last(), r) + if last.0 == r && last.1 < 0 {
            -last.1
        } else {
            0
        }
    }
}

/// Net change of `r` that `flows` bring about.
pub open spec fn net_flow(flows: Seq<Flow>, r: Resource) -> int {
    gross_in(flows, r) - gross_out(flows, r)
}

/// Whether some flow moves `r`.
pub open spec fn touches(flows: Seq<Flow>, r: Resource) -> bool {
    exists|i: int| 0 <= i < flows.len() && (#[trigger] flows[i]).0 == r
}

/// Every gross sum of `flows` fits in an `i32`.
pub open spec fn fits_i32(flows: Seq<Flow>) -> bool {
    &&& forall|r: Resource| #[trigger] gross_in(flows, r) <= i32::MAX
    &&& forall|r: Resource| #[trigger] gross_out(flows, r) <= i32::MAX
}

/// The flows of each element of `s` in turn.
pub open spec fn flat<A>(s: Seq<A>, f: spec_fn(A) -> Seq<Flow>) -> Seq<Flow>
    decreases s.len(),
{
    if s.len() == 0 {
        seq![]
    } else {
        flat(s.drop_last(), f) + f(s.last())
    }
}

pub proof fn lemma_gross_nonneg(flows: Seq<Flow>, r: Resource)
    ensures
        gross_in(flows, r) >= 0,
        gross_out(flows, r) >= 0,
    decreases flows.len(),
{
    if flows.len() > 0 {
        lemma_gross_nonneg(flows.drop_last(), r);
    }
}

/// Appending one flow adds its amount to the matching gross sum.
pub proof fn lemma_gross_push(flows: Seq<Flow>, x: Flow, r: Resource)
    ensures
        gross_in(flows.push(x), r) == gross_in(flows, r) + if x.0 == r && x.1 > 0 {
            x.1
        } else {
            0
        },
        gross_out(flows.push(x), r) == gross_out(flows, r) + if x.0 == r && x.1 < 0 {
            -x.1
        } else {
            0
        },
        touches(flows.push(x), r) == (touches(flows, r) || x.0 == r),
{
    let next = flows.push(x);
    assert(next.drop_last() =~= flows);
    if touches(next, r) && x.0 != r {
        let i = choose|i: int| 0 <= i < next.len() && (#[trigger] next[i]).0 == r;
        assert(flows[i].0 == r);
    }
    if touches(flows, r) {
        let i = choose|i: int| 0 <= i < flows.len() && (#[trigger] flows[i]).0 == r;
        assert(next[i].0 == r);
    }
    if x.0 == r {
        assert(next[flows.len() as int].0 == r);
    }
}

/// Gross sums and `touches` split over a concatenation.
pub proof fn lemma_gross_concat(a: Seq<Flow>, b: Seq<Flow>, r: Resource)
    ensures
        gross_in(a + b, r) == gross_in(a, r) + gross_in(b, r),
        gross_out(a + b, r) == gross_out(a, r) + gross_out(b, r),
        touches(a + b, r) == (touches(a, r) || touches(b, r)),
    decreases b.len(),
{
    if b.len() == 0 {
        assert(a + b =~= a);
    } else {
        lemma_gross_concat(a, b.drop_last(), r);
        assert(a + b =~= (a + b.drop_last()).push(b.last()));
        assert(b =~= b.drop_last().push(b.last()));
        lemma_gross_push(a + b.drop_last(), b.last(), r);
        lemma_gross_push(b.drop_last(), b.last(), r);
    }
}

/// A resource that no flow moves has zero gross sums.
pub proof fn lemma_untouched(flows: Seq<Flow>, r: Resource)
    requires
        !touches(flows, r),
    ensures
        gross_in(flows, r) == 0,
        gross_out(flows, r) == 0,
    decreases flows.len(),
{
    if flows.len() > 0 {
        let prev = flows.drop_last();
        assert(flows =~= prev.push(flows.last()));
        lemma_gross_push(prev, flows.last(), r);
        lemma_untouched(prev, r);
    }
}

/// What fits for a sequence fits for each of its prefixes.
pub proof fn lemma_fits_prefix(a: Seq<Flow>, b: Seq<Flow>)
    requires
        fits_i32(a + b),
    ensures
        fits_i32(a),
{
    assert forall|r: Resource| #[trigger] gross_in(a, r) <= i32::MAX by {
        lemma_gross_concat(a, b, r);
        lemma_gross_nonneg(b, r);
        assert(gross_in(a + b, r) <= i32::MAX);
    }
    assert forall|r: Resource| #[trigger] gross_out(a, r) <= i32::MAX by {
        lemma_gross_concat(a, b, r);
        lemma_gross_nonneg(b, r);
        assert(gross_out(a + b, r) <= i32::MAX);
    }
}

/// Appending one flow keeps every gross sum in range exactly when the sums
/// of its own resource stay in range.
pub proof fn lemma_push_fits(flows: Seq<Flow>, x: Flow)
    requires
        fits_i32(flows),
    ensures
        fits_i32(flows.push(x)) == (gross_in(flows.push(x), x.0) <= i32::MAX && gross_out(
            flows.push(x),
            x.0,
        ) <= i32::MAX),
{
    if gross_in(flows.push(x), x.0) <= i32::MAX && gross_out(flows.push(x), x.0) <= i32::MAX {
        assert forall|r: Resource| #[trigger] gross_in(flows.push(x), r) <= i32::MAX by {
            lemma_gross_push(flows, x, r);
            if r != x.0 {
                assert(gross_in(flows, r) <= i32::MAX);
            }
        }
        assert forall|r: Resource| #[trigger] gross_out(flows.push(x), r) <= i32::MAX by {
            lemma_gross_push(flows, x, r);
            if r != x.0 {
                assert(gross_out(flows, r) <= i32::MAX);
            }
        }
    }
}

/// `flat` maps concatenation to concatenation.
pub proof fn lemma_flat_concat<A>(s: Seq<A>, t: Seq<A>, f: spec_fn(A) -> Seq<Flow>)
    ensures
        flat(s + t, f) == flat(s, f) + flat(t, f),
    decreases t.len(),
{
    if t.len() == 0 {
        assert(s + t =~= s);
        assert(flat(s, f) + flat(t, f) =~= flat(s, f));
    } else {
        lemma_flat_concat(s, t.drop_last(), f);
        assert((s + t).drop_last() =~= s + t.drop_last());
        assert(flat(s, f) + flat(t, f) =~= flat(s, f) + flat(t.drop_last(), f) + f(t.last()));
    }
}

/// The flows of the first `k + 1` elements extend those of the first `k`.
pub proof fn lemma_flat_step<A>(s: Seq<A>, k: int, f: spec_fn(A) -> Seq<Flow>)
    requires
        0 <= k < s.len(),
    ensures
        flat(s.take(k + 1), f) == flat(s.take(k), f) + f(s[k]),
{
    assert(s.take(k + 1).drop_last() =~= s.take(k));
}

/// The flows of `s` are those of its first `k` elements followed by those of
/// the rest.
pub proof fn lemma_flat_split<A>(s: Seq<A>, k: int, f: spec_fn(A) -> Seq<Flow>)
    requires
        0 <= k <= s.len(),
    ensures
        flat(s, f) == flat(s.take(k), f) + flat(s.skip(k), f),
{
    assert(s =~= s.take(k) + s.skip(k));
    lemma_flat_concat(s.take(k), s.skip(k), f);
}

/// Elements without flows leave `flat` empty.
pub proof fn lemma_flat_empty<A>(s: Seq<A>, f: spec_fn(A) -> Seq<Flow>)
    requires
        forall|i: int| 0 <= i < s.len() ==> f(#[trigger] s[i]) == Seq::<Flow>::empty(),
    ensures
        flat(s, f) == Seq::<Flow>::empty(),
    decreases s.len(),
{
    if s.len() > 0 {
        let prev = s.drop_last();
        assert forall|i: int| 0 <= i < prev.len() implies f(#[trigger] prev[i])
            == Seq::<Flow>::empty() by {
            assert(prev[i] == s[i]);
        }
        lemma_flat_empty(prev, f);
        assert(f(s.last()) == Seq::<Flow>::empty());
        assert(flat(s, f) =~= Seq::<Flow>::empty());
    }
}

} // verus!
