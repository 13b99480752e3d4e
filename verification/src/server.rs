//! The decisions of the intake server: which requests it serves, and what a batch of
//! payloads does to the event store.
use vstd::prelude::*;

use crate::entry::{EventEntry, EventError};
use crate::events::{processable, processed};
use crate::json::{get, Json};
use crate::storage::{incoming_type, process_event, stored_entry, EventStorage};
use crate::text::{str_eq, to_string};

verus! {

/// What the server does with a request, by method and path.
#[derive(Clone, Copy, PartialEq, Eq, Structural, Debug)]
pub enum Route {
    /// `GET /_availability_check`: answered `404 Not Found`, which tells a client that the
    /// server is up.
    AvailabilityCheck,
    /// `POST /`: a batch of payloads.
    Ingest,
    /// Anything else: `405 Method Not Allowed`.
    NotAllowed,
}

/// The route of a request.
pub open spec fn route_of(method: Seq<char>, path: Seq<char>) -> Route {
    if method == "GET"@ && path == "/_availability_check"@ {
        Route::AvailabilityCheck
    } else if method == "POST"@ && path == "/"@ {
        Route::Ingest
    } else {
        Route::NotAllowed
    }
}

/// The route of a request with `method` and `path`.
pub fn route(method: &str, path: &str) -> (r: Route)
    ensures
        r == route_of(method@, path@),
{
    if str_eq(method, "GET") && str_eq(path, "/_availability_check") {
        Route::AvailabilityCheck
    } else if str_eq(method, "POST") && str_eq(path, "/") {
        Route::Ingest
    } else {
        Route::NotAllowed
    }
}

/// A response: status code and body.
pub struct Reply {
    pub status: u16,
    pub body: String,
}

/// The answer to a request that carries no payloads.
pub fn route_reply(route: Route) -> (r: Option<Reply>)
    ensures
        match route {
            Route::AvailabilityCheck => r matches Some(rep) && rep.status == 404 && rep.body@
                == "Not Found"@,
            Route::NotAllowed => r matches Some(rep) && rep.status == 405 && rep.body@
                == "Method Not Allowed"@,
            Route::Ingest => r is None,
        },
{
    match route {
        Route::AvailabilityCheck => Some(Reply { status: 404, body: to_string("Not Found") }),
        Route::NotAllowed => Some(Reply { status: 405, body: to_string("Method Not Allowed") }),
        Route::Ingest => None,
    }
}

/// The payloads of a batch: its `payloads` array.
pub open spec fn batch_of(body: Json) -> Option<Seq<Json>> {
    match get(body, "payloads"@) {
        Some(Json::Array(items)) => Some(items@),
        _ => None,
    }
}

/// One payload of a batch taken into the store: a processed payload adds its entry (stamped
/// `now` when it has no timestamp), a refused one leaves the store as it was.
pub open spec fn intake_step(before: Seq<EventEntry>, p: Json, now: Seq<char>, after: Seq<EventEntry>) -> bool {
    ||| (exists|e: EventEntry|
        #[trigger] processed(incoming_type(p), p, Ok(e)) && after.len() == before.len() + 1
            && after.drop_last() == before && stored_entry(e, now, after.last()))
    ||| (exists|err: EventError| #[trigger] processed(incoming_type(p), p, Err(err)))
        && after == before
}

/// The store after a batch: the payloads taken in one after another, in order.
pub open spec fn intake(before: Seq<EventEntry>, batch: Seq<Json>, now: Seq<char>, after: Seq<EventEntry>) -> bool {
    exists|trace: Seq<Seq<EventEntry>>|
        #![trigger trace.len()]
        trace.len() == batch.len() + 1 && trace[0] == before && trace.last() == after && forall|i: int|
            0 <= i < batch.len() ==> intake_step(#[trigger] trace[i], batch[i], now, trace[i + 1])
}

/// Whether a payload is processed into an entry (rather than refused).
pub open spec fn succeeds(p: Json) -> bool {
    exists|e: EventEntry| #[trigger] processed(incoming_type(p), p, Ok(e))
}

/// How many payloads of a batch are processed into entries.
pub open spec fn successes(batch: Seq<Json>) -> nat
    decreases batch.len(),
{
    if batch.len() == 0 {
        0
    } else {
        successes(batch.drop_last()) + if succeeds(batch.last()) {
            1nat
        } else {
            0nat
        }
    }
}

/// A payload is either processed or refused, never both.
proof fn lemma_outcomes_exclusive(p: Json, e: EventEntry, err: EventError)
    requires
        processed(incoming_type(p), p, Ok(e)),
    ensures
        !processed(incoming_type(p), p, Err(err)),
{
}

/// The store after the first `i` payloads of a batch.
proof fn lemma_intake_prefix(
    before: Seq<EventEntry>,
    batch: Seq<Json>,
    now: Seq<char>,
    trace: Seq<Seq<EventEntry>>,
    i: int,
)
    requires
        0 <= i <= batch.len(),
        trace.len() == batch.len() + 1,
        trace[0] == before,
        forall|j: int| 0 <= j < batch.len() ==> intake_step(#[trigger] trace[j], batch[j], now, trace[j + 1]),
    ensures
        trace[i].len() == before.len() + successes(batch.take(i)),
        trace[i].take(before.len() as int) == before,
    decreases i,
{
    if i == 0 {
        assert(batch.take(0) =~= Seq::<Json>::empty());
        assert(before.take(before.len() as int) =~= before);
    } else {
        let k = i - 1;
        lemma_intake_prefix(before, batch, now, trace, k);
        assert(intake_step(trace[k], batch[k], now, trace[k + 1]));
        assert(batch.take(i).drop_last() =~= batch.take(k));
        assert(batch.take(i).last() == batch[k]);
        if succeeds(batch[k]) {
            let e = choose|e: EventEntry| #[trigger] processed(incoming_type(batch[k]), batch[k], Ok(e));
            if exists|err: EventError| #[trigger] processed(incoming_type(batch[k]), batch[k], Err(err)) {
                let err = choose|err: EventError|
                    #[trigger] processed(incoming_type(batch[k]), batch[k], Err(err));
                lemma_outcomes_exclusive(batch[k], e, err);
            }
            assert(trace[i].drop_last() == trace[k]);
            assert(trace[i].take(before.len() as int) =~= trace[k].take(before.len() as int));
        } else {
            assert(trace[i] == trace[k]);
        }
    }
}

/// Taking in a batch keeps the entries stored before, first and unchanged, and adds one
/// entry for each payload that is processed, none for a refused one.
pub proof fn law_intake_adds_one_entry_per_success(
    before: Seq<EventEntry>,
    batch: Seq<Json>,
    now: Seq<char>,
    after: Seq<EventEntry>,
)
    requires
        intake(before, batch, now, after),
    ensures
        after.len() == before.len() + successes(batch),
        after.take(before.len() as int) == before,
{
    let trace = choose|trace: Seq<Seq<EventEntry>>|
        #![trigger trace.len()]
        trace.len() == batch.len() + 1 && trace[0] == before && trace.last() == after && forall|i: int|
            0 <= i < batch.len() ==> intake_step(#[trigger] trace[i], batch[i], now, trace[i + 1]);
    lemma_intake_prefix(before, batch, now, trace, batch.len() as int);
    assert(batch.take(batch.len() as int) =~= batch);
}

/// Batches that can be taken in without a panic: every payload can be processed, and the
/// change counter does not overflow.
pub open spec fn batch_acceptable(storage: EventStorage, body: Json) -> bool {
    match batch_of(body) {
        Some(batch) => {
            &&& forall|i: int| 0 <= i < batch.len() ==> processable(incoming_type(#[trigger] batch[i]), batch[i])
            &&& storage.generation_count() + batch.len() < u64::MAX
        },
        None => true,
    }
}

/// Takes in a batch received at `now`: each payload of its `payloads` array is processed
/// and stored in order, and the answer is `200 OK`. A body without such an array is
/// answered `400 Invalid payload structure` and leaves the store unchanged.
pub fn ingest(body: &Json, storage: &mut EventStorage, now: &str) -> (r: Reply)
    requires
        batch_acceptable(*old(storage), *body),
    ensures
        final(storage).info() == old(storage).info(),
        match batch_of(*body) {
            None => {
                &&& r.status == 400
                &&& r.body@ == "Invalid payload structure"@
                &&& final(storage).events() == old(storage).events()
                &&& final(storage).generation_count() == old(storage).generation_count()
            },
            Some(batch) => {
                &&& r.status == 200
                &&& r.body@ == "OK"@
                &&& intake(old(storage).events(), batch, now@, final(storage).events())
                &&& final(storage).generation_count() == old(storage).generation_count() + (
                final(storage).events().len() - old(storage).events().len())
            },
        },
{
    let items = match body.get("payloads") {
        Some(p) => match p {
            Json::Array(items) => items,
            _ => {
                return Reply { status: 400, body: to_string("Invalid payload structure") };
            },
        },
        None => {
            return Reply { status: 400, body: to_string("Invalid payload structure") };
        },
    };
    let ghost start = storage.events();
    let ghost start_gen = storage.generation_count();
    let ghost mut trace: Seq<Seq<EventEntry>> = seq![start];
    let mut i: usize = 0;
    while i < items.len()
        invariant
            batch_of(*body) == Some(items@),
            i <= items.len(),
            forall|j: int| 0 <= j < items@.len() ==> processable(incoming_type(#[trigger] items@[j]), items@[j]),
            start_gen + items@.len() < u64::MAX,
            trace.len() == i + 1,
            trace[0] == start,
            trace.last() == storage.events(),
            forall|j: int| 0 <= j < i ==> intake_step(#[trigger] trace[j], items@[j], now@, trace[j + 1]),
            storage.generation_count() == start_gen + (storage.events().len() - start.len()),
            storage.events().len() - start.len() <= i,
            storage.events().len() >= start.len(),
            storage.info() == old(storage).info(),
        decreases items.len() - i,
    {
        let ghost before = storage.events();
        let p = &items[i];
        let r = process_event(p, storage, now);
        proof {
            match r {
                Ok(()) => {
                    let e = choose|e: EventEntry|
                        #[trigger] processed(incoming_type(*p), *p, Ok(e)) && stored_entry(
                            e,
                            now@,
                            storage.events().last(),
                        );
                    assert(processed(incoming_type(*p), *p, Ok(e)));
                },
                Err(err) => {
                    assert(processed(incoming_type(*p), *p, Err(err)));
                },
            }
            assert(intake_step(before, items@[i as int], now@, storage.events()));
            trace = trace.push(storage.events());
            assert forall|j: int| 0 <= j < i + 1 implies intake_step(
                #[trigger] trace[j],
                items@[j],
                now@,
                trace[j + 1],
            ) by {
                if j < i {
                    assert(trace[j] == trace.drop_last()[j]);
                    assert(trace[j + 1] == trace.drop_last()[j + 1]);
                }
            }
        }
        i += 1;
    }
    proof {
        assert(trace.len() == items@.len() + 1);
        assert(intake(start, items@, now@, storage.events()));
    }
    Reply { status: 200, body: to_string("OK") }
}

} // verus!
