//! What holds of the resolution protocol across several requests.

use vstd::prelude::*;
use crate::resolve::{first_step, handle_of_get, outcome_of, store_after, Outcome, Request, Step};

verus! {

/// The store after the given candidates for one component type have been
/// settled as `Get` requests, one after the other. This is how competing
/// constructions meet the store: each settles under exclusive access.
pub open spec fn settle_all<H>(store: Map<u64, H>, type_id: u64, candidates: Seq<H>) -> Map<
    u64,
    H,
>
    decreases candidates.len(),
{
    if candidates.len() == 0 {
        store
    } else {
        store_after(
            settle_all(store, type_id, candidates.drop_last()),
            type_id,
            Request::Get,
            candidates.last(),
        )
    }
}

/// The instance that a run of competing `Get` requests retains: the one
/// that was cached before, else the first candidate to settle.
pub open spec fn retained<H>(store: Map<u64, H>, type_id: u64, candidates: Seq<H>) -> H {
    if store.contains_key(type_id) {
        store[type_id]
    } else {
        candidates[0]
    }
}

/// Settling one or more candidates leaves the store as settling the first
/// alone does.
pub proof fn lemma_settle_all_is_first<H>(store: Map<u64, H>, type_id: u64, candidates: Seq<H>)
    requires
        candidates.len() >= 1,
    ensures
        settle_all(store, type_id, candidates) == store_after(
            store,
            type_id,
            Request::Get,
            candidates[0],
        ),
    decreases candidates.len(),
{
    if candidates.len() == 1 {
        assert(candidates.drop_last().len() == 0);
        assert(settle_all(store, type_id, candidates.drop_last()) == store);
    } else {
        lemma_settle_all_is_first(store, type_id, candidates.drop_last());
        assert(candidates.drop_last()[0] == candidates[0]);
    }
}

/// At most one instance: however many `Get` requests for one component type
/// construct a candidate, once all have settled exactly one instance is
/// cached for the type, every caller was handed that instance, only the
/// first candidate to settle on a cold store is kept, and no other entry of
/// the store has changed.
pub proof fn lemma_at_most_one_instance<H>(store: Map<u64, H>, type_id: u64, candidates: Seq<H>)
    requires
        candidates.len() >= 1,
    ensures
        settle_all(store, type_id, candidates).contains_key(type_id),
        settle_all(store, type_id, candidates)[type_id] == retained(store, type_id, candidates),
        settle_all(store, type_id, candidates).remove(type_id) == store.remove(type_id),
        forall|i: int|
            0 <= i < candidates.len() ==> #[trigger] handle_of_get(
                settle_all(store, type_id, candidates.take(i)),
                type_id,
                candidates[i],
            ) == retained(store, type_id, candidates),
        forall|i: int|
            0 <= i < candidates.len() ==> ((#[trigger] outcome_of(
                settle_all(store, type_id, candidates.take(i)),
                type_id,
                Request::Get,
                candidates[i],
            ) is Stored) <==> (i == 0 && !store.contains_key(type_id))),
{
    lemma_settle_all_is_first(store, type_id, candidates);
    assert(settle_all(store, type_id, candidates).remove(type_id) =~= store.remove(type_id));
    assert forall|i: int| 0 <= i < candidates.len() implies #[trigger] handle_of_get(
        settle_all(store, type_id, candidates.take(i)),
        type_id,
        candidates[i],
    ) == retained(store, type_id, candidates) by {
        lemma_prefix_settled(store, type_id, candidates, i);
    }
    assert forall|i: int| 0 <= i < candidates.len() implies ((#[trigger] outcome_of(
        settle_all(store, type_id, candidates.take(i)),
        type_id,
        Request::Get,
        candidates[i],
    ) is Stored) <==> (i == 0 && !store.contains_key(type_id))) by {
        lemma_prefix_settled(store, type_id, candidates, i);
    }
}

/// The store that the candidate at position `i` meets: the given store for
/// the first, and for every later one the store with the first settled.
proof fn lemma_prefix_settled<H>(store: Map<u64, H>, type_id: u64, candidates: Seq<H>, i: int)
    requires
        0 <= i < candidates.len(),
    ensures
        settle_all(store, type_id, candidates.take(i)) == (if i == 0 {
            store
        } else {
            store_after(store, type_id, Request::Get, candidates[0])
        }),
{
    if i > 0 {
        lemma_settle_all_is_first(store, type_id, candidates.take(i));
        assert(candidates.take(i)[0] == candidates[0]);
    } else {
        assert(candidates.take(0).len() == 0);
    }
}

/// Repeated get: after one `Get` has finished, a second one finds the
/// instance cached, constructs nothing, leaves the store as it is and hands
/// out the same instance, whatever it would have constructed.
pub proof fn lemma_repeated_get<H>(store: Map<u64, H>, type_id: u64, first: H, second: H)
    ensures
        first_step(store_after(store, type_id, Request::Get, first), type_id, Request::Get)
            == Step::ReturnStored,
        store_after(
            store_after(store, type_id, Request::Get, first),
            type_id,
            Request::Get,
            second,
        ) == store_after(store, type_id, Request::Get, first),
        handle_of_get(store_after(store, type_id, Request::Get, first), type_id, second)
            == handle_of_get(store, type_id, first),
{
}

/// Re-entry: once a candidate has been stored, a `Get` for the same type
/// issued while its late wiring runs is answered from the store with that
/// very instance, and constructs nothing.
pub proof fn lemma_reentrant_get_is_cached<H>(store: Map<u64, H>, type_id: u64, candidate: H)
    requires
        outcome_of(store, type_id, Request::Get, candidate) is Stored,
    ensures
        first_step(store_after(store, type_id, Request::Get, candidate), type_id, Request::Get)
            == Step::ReturnStored,
        store_after(store, type_id, Request::Get, candidate)[type_id] == candidate,
{
}

/// A cycle of two: component `a` needs `b` to be constructed, and the late
/// wiring of `b` asks for `a`. Resolving `a` on a store that holds neither
/// takes the finite run of steps below. The constructor of `a` runs twice,
/// once for the outer request and once for the request made while `b` is
/// wired; the inner candidate is kept and the outer one discarded. At the
/// end both are cached, `b` is wired to the cached `a`, and the cached `a`
/// was constructed with the cached `b`.
pub proof fn lemma_two_cycle_resolves<H>(
    store: Map<u64, H>,
    a: u64,
    b: u64,
    outer_a: H,
    inner_a: H,
    new_b: H,
)
    requires
        a != b,
        !store.contains_key(a),
        !store.contains_key(b),
    ensures
        ({
            let with_b = store_after(store, b, Request::Get, new_b);
            let with_both = store_after(with_b, a, Request::Get, inner_a);
            let at_end = store_after(with_both, a, Request::Get, outer_a);
            &&& first_step(store, a, Request::Get) == Step::Construct
            &&& first_step(store, b, Request::Get) == Step::Construct
            &&& outcome_of(store, b, Request::Get, new_b) is Stored
            &&& first_step(with_b, a, Request::Get) == Step::Construct
            &&& first_step(with_b, b, Request::Get) == Step::ReturnStored
            &&& with_b[b] == new_b
            &&& outcome_of(with_b, a, Request::Get, inner_a) is Stored
            &&& outcome_of(with_both, a, Request::Get, outer_a) is Discarded
            &&& at_end[a] == inner_a
            &&& at_end[b] == new_b
            &&& at_end == store.insert(b, new_b).insert(a, inner_a)
        }),
{
}

/// The store after a run of settled requests for any component types, in
/// the order in which they settled. Each request is a component type, what
/// was asked, and the candidate that was constructed for it.
pub open spec fn store_after_run<H>(store: Map<u64, H>, requests: Seq<(u64, Request, H)>) -> Map<
    u64,
    H,
>
    decreases requests.len(),
{
    if requests.len() == 0 {
        store
    } else {
        store_after(
            store_after_run(store, requests.drop_last()),
            requests.last().0,
            requests.last().1,
            requests.last().2,
        )
    }
}

/// Whether some request of the run is a `Get` for the component type.
pub open spec fn asks_for<H>(requests: Seq<(u64, Request, H)>, type_id: u64) -> bool {
    exists|i: int|
        0 <= i < requests.len() && (#[trigger] requests[i]).0 == type_id && requests[i].1 is Get
}

/// Entries are permanent: whatever requests settle, an instance that is
/// cached stays cached under the same handle, and a component type is
/// cached afterwards exactly if it was before or a `Get` asked for it.
pub proof fn lemma_entries_are_permanent<H>(store: Map<u64, H>, requests: Seq<(u64, Request, H)>)
    ensures
        store.submap_of(store_after_run(store, requests)),
        forall|type_id: u64|
            #[trigger] store_after_run(store, requests).contains_key(type_id) <==> (
            store.contains_key(type_id) || asks_for(requests, type_id)),
    decreases requests.len(),
{
    if requests.len() > 0 {
        let earlier = requests.drop_last();
        let last = requests.last();
        lemma_entries_are_permanent(store, earlier);
        let before = store_after_run(store, earlier);
        let after = store_after_run(store, requests);
        assert forall|type_id: u64| #[trigger] store.dom().contains(type_id) implies after.dom().contains(
            type_id,
        ) && store[type_id] == after[type_id] by {
            assert(before.dom().contains(type_id) && store[type_id] == before[type_id]);
        }
        assert forall|type_id: u64|
            #[trigger] store_after_run(store, requests).contains_key(type_id) <==> (
            store.contains_key(type_id) || asks_for(requests, type_id)) by {
            if asks_for(earlier, type_id) {
                let i = choose|i: int|
                    0 <= i < earlier.len() && (#[trigger] earlier[i]).0 == type_id
                        && earlier[i].1 is Get;
                assert(0 <= i < requests.len());
                assert(requests[i] == earlier[i]);
            }
            if asks_for(requests, type_id) {
                let i = choose|i: int|
                    0 <= i < requests.len() && (#[trigger] requests[i]).0 == type_id
                        && requests[i].1 is Get;
                if i < earlier.len() {
                    assert(earlier[i] == requests[i]);
                } else {
                    assert(requests[i] == last);
                }
            }
            if last.0 == type_id && last.1 is Get {
                assert(requests[requests.len() - 1] == last);
            }
        }
    }
}

/// What a `Get` hands out is final: whatever requests settle afterwards,
/// for this or any other component type, the handle that the caller holds
/// is the one the store keeps. So components that were wired to each other
/// through `Get`, in whatever order, are wired to the cached singletons.
pub proof fn lemma_handed_out_is_final<H>(
    store: Map<u64, H>,
    type_id: u64,
    candidate: H,
    later: Seq<(u64, Request, H)>,
)
    ensures
        store_after_run(store_after(store, type_id, Request::Get, candidate), later).contains_key(
            type_id,
        ),
        store_after_run(store_after(store, type_id, Request::Get, candidate), later)[type_id]
            == handle_of_get(store, type_id, candidate),
{
    let settled = store_after(store, type_id, Request::Get, candidate);
    lemma_entries_are_permanent(settled, later);
    assert(settled.dom().contains(type_id));
}

/// Create and get are independent: a `Create` always constructs, hands back
/// the very instance that was constructed, and leaves the store untouched,
/// so a `Get` around it sees what it would have seen without it.
pub proof fn lemma_create_leaves_store<H>(store: Map<u64, H>, type_id: u64, fresh: H, candidate: H)
    ensures
        first_step(store, type_id, Request::Create) == Step::Construct,
        outcome_of(store, type_id, Request::Create, fresh) == Outcome::Fresh(fresh),
        store_after(store, type_id, Request::Create, fresh) == store,
        first_step(store_after(store, type_id, Request::Create, fresh), type_id, Request::Get)
            == first_step(store, type_id, Request::Get),
        handle_of_get(store_after(store, type_id, Request::Create, fresh), type_id, candidate)
            == handle_of_get(store, type_id, candidate),
{
}

} // verus!
