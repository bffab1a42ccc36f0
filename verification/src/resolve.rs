//! The lazy resolution protocol, as decisions over a store.
//!
//! Constructing a component and wiring its late dependencies is the
//! caller's work and runs with no store lock held; it may ask for other
//! components, and for the one being built, while it runs. What the protocol
//! decides is when to construct, which candidate is kept, and on which
//! instance late wiring runs.

use vstd::prelude::*;
use crate::store::Store;

verus! {

/// What a caller asks of a provider.
#[derive(Clone, Copy, Debug)]
pub enum Request {
    /// The shared singleton, constructed on first demand.
    Get,
    /// A fresh instance that is never cached.
    Create,
}

/// What to do first for a request.
#[derive(Clone, Copy, Debug)]
pub enum Step {
    /// The instance is cached: hand out the stored handle.
    ReturnStored,
    /// Run the component's create function, holding no store lock.
    Construct,
}

/// What became of a freshly constructed candidate.
#[derive(Debug)]
pub enum Outcome<H> {
    /// The candidate is now the cached singleton. Late wiring runs once, on
    /// the stored instance, holding no store lock.
    Stored,
    /// An instance was cached in the meantime. The candidate is dropped and
    /// no late wiring runs for it.
    Discarded,
    /// The request was for an uncached instance. The candidate is handed
    /// back; late wiring runs on it and the store is not involved.
    Fresh(H),
}

/// The first step of a request: a `Get` constructs only on a cache miss, a
/// `Create` always constructs.
pub open spec fn first_step<H>(store: Map<u64, H>, type_id: u64, request: Request) -> Step {
    match request {
        Request::Get => if store.contains_key(type_id) {
            Step::ReturnStored
        } else {
            Step::Construct
        },
        Request::Create => Step::Construct,
    }
}

/// The store after a candidate for `type_id` has been settled.
pub open spec fn store_after<H>(
    store: Map<u64, H>,
    type_id: u64,
    request: Request,
    candidate: H,
) -> Map<u64, H> {
    match request {
        Request::Get => if store.contains_key(type_id) {
            store
        } else {
            store.insert(type_id, candidate)
        },
        Request::Create => store,
    }
}

/// What settling a candidate for `type_id` reports.
pub open spec fn outcome_of<H>(
    store: Map<u64, H>,
    type_id: u64,
    request: Request,
    candidate: H,
) -> Outcome<H> {
    match request {
        Request::Get => if store.contains_key(type_id) {
            Outcome::Discarded
        } else {
            Outcome::Stored
        },
        Request::Create => Outcome::Fresh(candidate),
    }
}

/// The handle that a `Get` hands out when `candidate` is what the caller
/// would construct on a miss.
pub open spec fn handle_of_get<H>(store: Map<u64, H>, type_id: u64, candidate: H) -> H {
    store_after(store, type_id, Request::Get, candidate)[type_id]
}

/// Decides the first step of a request, reading the store only.
pub fn begin<H>(store: &Store<H>, type_id: u64, request: Request) -> (step: Step)
    ensures
        step == first_step(store@, type_id, request),
{
    match request {
        Request::Get => {
            if store.contains(type_id) {
                Step::ReturnStored
            } else {
                Step::Construct
            }
        },
        Request::Create => Step::Construct,
    }
}

/// Settles a constructed candidate. For a `Get` the candidate is cached
/// unless an instance is cached already; for a `Create` the store is left
/// alone and the candidate comes back.
pub fn settle<H>(store: &mut Store<H>, type_id: u64, request: Request, candidate: H) -> (outcome:
    Outcome<H>)
    ensures
        final(store)@ == store_after(old(store)@, type_id, request, candidate),
        outcome == outcome_of(old(store)@, type_id, request, candidate),
{
    match request {
        Request::Get => {
            if store.insert_if_absent(type_id, candidate) {
                Outcome::Stored
            } else {
                Outcome::Discarded
            }
        },
        Request::Create => Outcome::Fresh(candidate),
    }
}

/// The stored handle that ends a `Get`. By then the entry is present: either
/// it was found at the first step or a candidate has been settled.
pub fn stored<H>(store: &Store<H>, type_id: u64) -> (handle: &H)
    requires
        store@.contains_key(type_id),
    ensures
        *handle == store@[type_id],
{
    store.lookup(type_id).unwrap()
}

} // verus!
