//! Laws of the counter and the router, stated over the same spec functions
//! that the executable functions' contracts use.

use vstd::prelude::*;

use crate::counter::spec_add;
use crate::counter::spec_read;
use crate::counter::spec_reset;
use crate::json::json_count;
use crate::router::HttpMethod;
use crate::router::ReplyModel;
use crate::router::bad_request_invalid;
use crate::router::ok_json;
use crate::router::spec_route;

verus! {

/// The sum of a sequence of deltas.
pub open spec fn sum(ds: Seq<int>) -> int
    decreases ds.len(),
{
    if ds.len() == 0 {
        0
    } else {
        ds.first() + sum(ds.drop_first())
    }
}

/// The counter value after the adds in `ds` are applied in order, starting
/// from `c0`.
pub open spec fn apply_adds(c0: int, ds: Seq<int>) -> int
    decreases ds.len(),
{
    if ds.len() == 0 {
        c0
    } else {
        apply_adds(spec_add(c0, ds.first()), ds.drop_first())
    }
}

/// Applying adds in order accumulates their sum.
pub proof fn lemma_adds_total(c0: int, ds: Seq<int>)
    ensures
        apply_adds(c0, ds) == c0 + sum(ds),
    decreases ds.len(),
{
    if ds.len() > 0 {
        lemma_adds_total(spec_add(c0, ds.first()), ds.drop_first());
    }
}

/// Removing one delta removes exactly its contribution from the sum.
pub proof fn lemma_sum_remove(ds: Seq<int>, i: int)
    requires
        0 <= i < ds.len(),
    ensures
        sum(ds.remove(i)) == sum(ds) - ds[i],
    decreases ds.len(),
{
    if i == 0 {
        assert(ds.remove(0) =~= ds.drop_first());
    } else {
        assert(ds.remove(i).drop_first() =~= ds.drop_first().remove(i - 1));
        lemma_sum_remove(ds.drop_first(), i - 1);
    }
}

/// The sum of a sequence of deltas does not depend on their order.
pub proof fn lemma_sum_permutation(a: Seq<int>, b: Seq<int>)
    requires
        a.to_multiset() == b.to_multiset(),
    ensures
        sum(a) == sum(b),
    decreases a.len(),
{
    broadcast use vstd::seq_lib::group_to_multiset_ensures;

    if a.len() == 0 {
        assert(b.to_multiset().len() == 0);
        assert(b.len() == 0);
    } else {
        let x = a.first();
        assert(a.contains(x));
        assert(a.to_multiset().count(x) > 0);
        assert(b.contains(x));
        let j = choose|j: int| 0 <= j < b.len() && b[j] == x;
        assert(a.remove(0) =~= a.drop_first());
        assert(a.remove(0).to_multiset() == a.to_multiset().remove(x));
        assert(b.remove(j).to_multiset() == b.to_multiset().remove(x));
        lemma_sum_permutation(a.drop_first(), b.remove(j));
        lemma_sum_remove(b, j);
    }
}

/// Law: with the counter starting at zero, performing the adds `ds` in any
/// order ends with the counter at the sum of the deltas: whichever order the
/// lock hands the concurrent adds, the final value is the same.
pub proof fn lemma_concurrent_adds_sum(ds: Seq<int>, order: Seq<int>)
    requires
        order.to_multiset() == ds.to_multiset(),
    ensures
        apply_adds(0, order) == sum(ds),
{
    lemma_adds_total(0, order);
    lemma_sum_permutation(order, ds);
}

/// Law: a read immediately after a reset yields zero, whatever the counter
/// held before the reset.
pub proof fn lemma_reset_then_read(c0: int)
    ensures
        spec_read(spec_reset(c0)) == 0,
{
}

/// Law: reset is idempotent: two resets in a row yield zero both times.
pub proof fn lemma_reset_idempotent(c0: int)
    ensures
        spec_reset(c0) == 0,
        spec_reset(spec_reset(c0)) == 0,
{
}

/// Law: after a successful add, the JSON body of the add response and the
/// JSON body of a following read both encode the counter's new value: the
/// value a read returns is the value the add reported. `later` is whatever
/// the read request's body happens to parse to; the read ignores it.
pub proof fn lemma_add_then_read_round_trip(c0: int, d: i64, later: Option<i64>)
    requires
        i32::MIN <= d <= i32::MAX,
        i32::MIN <= c0 + d <= i32::MAX,
    ensures
        ({
            let (add_reply, c1) = spec_route(HttpMethod::Post, "/addcount"@, Option::Some(d), c0);
            let (read_reply, c2) = spec_route(HttpMethod::Get, "/getcount"@, later, c1);
            &&& c1 == spec_add(c0, d as int)
            &&& add_reply == ReplyModel::PayloadModel(ok_json(json_count(c1)))
            &&& c2 == c1
            &&& read_reply == ReplyModel::PayloadModel(ok_json(json_count(c1)))
        }),
{
    reveal_strlit("/");
    reveal_strlit("/getcount");
    assert("/getcount"@.len() == 9);
    assert("/"@.len() == 1);
}

/// Law: an add request whose body does not yield `{"value": D}` leaves the
/// counter unchanged and is answered with status 400.
pub proof fn lemma_invalid_body_rejected(c0: int)
    ensures
        ({
            let (reply, c1) = spec_route(HttpMethod::Post, "/addcount"@, Option::None, c0);
            &&& c1 == c0
            &&& reply == ReplyModel::PayloadModel(bad_request_invalid())
            &&& bad_request_invalid().status == 400
        }),
{
}

} // verus!
