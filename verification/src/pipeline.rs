//! The inbound pipeline: gate, decode, verify, resolve, apply, in that
//! order, each stage short-circuiting the rest.
//!
//! The digest check stands before decoding, so a request with a tampered
//! body never reaches the apply engine: `process_inbound` ensures that on
//! a digest mismatch the state model is exactly what it was.  An activity
//! whose referenced object has no fetched response yet comes back as
//! `NeedFetch`; the caller fetches, stores the response in the table, and
//! calls again.

use crate::apply::{apply, spec_apply, spec_notify, Notification};
use crate::codec::{decode, spec_decode, Raw};
use crate::envelope::Activity;
use crate::gate::{sha256_of, spec_guard, verify_digest, InboxRequestGuard};
use crate::resolver::{resolve, spec_resolve, Entity, Resolution, ResolutionModel};
use crate::storage::{Storage, StorageModel};
use crate::table::Table;
use crate::verify::{spec_verify, verify};
use crate::FederationError;
use vstd::prelude::*;

verus! {

/// One inbound request as the transport hands it over: the method and
/// content type for the guard, the digest header and body bytes for the
/// authenticity check, and the parsed wire object.
pub struct InboundRequest {
    pub method_post: bool,
    pub content_type: Option<Vec<u8>>,
    pub digest: Vec<u8>,
    pub body: Vec<u8>,
    pub envelope: Raw,
}

/// A successful pass through the pipeline.
#[derive(Debug, PartialEq, Eq)]
pub enum Outcome {
    /// The activity was applied; the notification is for the notifier.
    Accepted(Notification),
    /// The named object must be fetched into the response table first.
    NeedFetch(String),
}

/// The outcome with its carried id taken as a view.
pub enum OutcomeModel {
    Accepted(Notification),
    NeedFetch(Seq<char>),
}

/// The view of a pipeline result.
pub open spec fn outcome_view(r: Result<Outcome, FederationError>) -> Result<
    OutcomeModel,
    FederationError,
> {
    match r {
        Ok(Outcome::Accepted(n)) => Ok(OutcomeModel::Accepted(n)),
        Ok(Outcome::NeedFetch(s)) => Ok(OutcomeModel::NeedFetch(s@)),
        Err(e) => Err(e),
    }
}

/// The object a kind must resolve before it can apply: the target of a
/// deletion or a vote, or of their undo forms, and the object of an
/// announce.  The other kinds address local state directly.
pub open spec fn spec_resolve_id(a: Activity) -> Option<Seq<char>> {
    match a {
        Activity::Vote(v) => Some(v.object@),
        Activity::UndoVote(u) => Some(u.object.object@),
        Activity::Delete(d) => Some(d.object.spec_target()),
        Activity::UndoDelete(u) => Some(u.object.object.spec_target()),
        Activity::Announce(x) => Some(x.object@),
        _ => None,
    }
}

/// The object a kind must resolve before it can apply, if any.
pub fn resolve_id(a: &Activity) -> (r: Option<&String>)
    ensures
        match r {
            Some(s) => spec_resolve_id(*a) == Some(s@),
            None => spec_resolve_id(*a) is None,
        },
{
    match a {
        Activity::Vote(v) => Some(&v.object),
        Activity::UndoVote(u) => Some(&u.object.object),
        Activity::Delete(d) => Some(d.object.target()),
        Activity::UndoDelete(u) => Some(u.object.object.target()),
        Activity::Announce(x) => Some(&x.object),
        _ => None,
    }
}

/// The verdict of the whole pipeline on one request, given the state
/// model, the resolver cache, the table of fetched responses, the local
/// clock and the recursion budget.
pub open spec fn spec_process(
    req: InboundRequest,
    m: StorageModel,
    cache: Map<(Seq<char>, Seq<char>), Entity>,
    table: Map<(Seq<char>, Seq<char>), Entity>,
    now: i64,
    budget: u32,
) -> Result<OutcomeModel, FederationError> {
    if !spec_guard(req.method_post, req.content_type) {
        Err(FederationError::MalformedEnvelope)
    } else if req.digest@ != sha256_of(req.body@) {
        Err(FederationError::AuthenticationFailure)
    } else {
        match spec_decode(req.envelope) {
            Err(e) => Err(e),
            Ok(a) => match spec_verify(a, m, now) {
                Err(e) => Err(e),
                Ok(_) => match spec_resolve_id(a) {
                    None => Ok(OutcomeModel::Accepted(spec_notify(a))),
                    Some(oid) => match spec_resolve(cache, table, oid, budget as nat).0 {
                        ResolutionModel::NeedFetch(u) => Ok(OutcomeModel::NeedFetch(u)),
                        ResolutionModel::Exceeded => Err(FederationError::RecursionExceeded),
                        ResolutionModel::Found => Ok(OutcomeModel::Accepted(spec_notify(a))),
                    },
                },
            },
        }
    }
}

/// The resolver cache after one pass: a fully resolved target is
/// recorded, where it was not already cached and a fetched response
/// exists for it, so repeated references to the same object are cache
/// hits and cost no budget.
pub open spec fn spec_cache_step(
    cache: Map<(Seq<char>, Seq<char>), Entity>,
    table: Map<(Seq<char>, Seq<char>), Entity>,
    oid: Seq<char>,
    budget: u32,
) -> Map<(Seq<char>, Seq<char>), Entity> {
    if spec_resolve(cache, table, oid, budget as nat).0 is Found && !cache.dom().contains(
        (oid, Seq::empty()),
    ) && table.dom().contains((oid, Seq::empty())) {
        cache.insert((oid, Seq::empty()), table[(oid, Seq::empty())])
    } else {
        cache
    }
}

/// The resolver cache after the whole pipeline: any exit before a full
/// resolution leaves it as it was.
pub open spec fn spec_pipeline_cache(
    req: InboundRequest,
    m: StorageModel,
    cache: Map<(Seq<char>, Seq<char>), Entity>,
    table: Map<(Seq<char>, Seq<char>), Entity>,
    now: i64,
    budget: u32,
) -> Map<(Seq<char>, Seq<char>), Entity> {
    if !spec_guard(req.method_post, req.content_type) {
        cache
    } else if req.digest@ != sha256_of(req.body@) {
        cache
    } else {
        match spec_decode(req.envelope) {
            Err(_) => cache,
            Ok(a) => match spec_verify(a, m, now) {
                Err(_) => cache,
                Ok(_) => match spec_resolve_id(a) {
                    None => cache,
                    Some(oid) => spec_cache_step(cache, table, oid, budget),
                },
            },
        }
    }
}

/// Whether the pipeline applies the activity: only a fully successful
/// pass mutates state.
pub open spec fn spec_process_applies(
    req: InboundRequest,
    m: StorageModel,
    cache: Map<(Seq<char>, Seq<char>), Entity>,
    table: Map<(Seq<char>, Seq<char>), Entity>,
    now: i64,
    budget: u32,
) -> bool {
    spec_process(req, m, cache, table, now, budget) matches Ok(OutcomeModel::Accepted(_))
}

/// Runs one inbound request through the whole pipeline.
///
/// The state moves exactly when the result is `Accepted`, and then by the
/// apply engine's transition for the decoded activity; on every rejection
/// — and in particular on a tampered body, whose digest cannot match —
/// the state model is exactly what it was, so the apply engine is never
/// reached.
pub fn process_inbound(
    req: InboundRequest,
    st: &mut Storage,
    table: &Table<Entity>,
    now: i64,
    budget: u32,
) -> (r: Result<Outcome, FederationError>)
    requires
        old(st).wf(),
        table.wf(),
    ensures
        final(st).wf(),
        outcome_view(r) == spec_process(
            req,
            old(st).model(),
            old(st).cache.map(),
            table.map(),
            now,
            budget,
        ),
        final(st).model() == if spec_process_applies(
            req,
            old(st).model(),
            old(st).cache.map(),
            table.map(),
            now,
            budget,
        ) {
            spec_apply(old(st).model(), spec_decode(req.envelope)->Ok_0)
        } else {
            old(st).model()
        },
        final(st).cache.map() == spec_pipeline_cache(
            req,
            old(st).model(),
            old(st).cache.map(),
            table.map(),
            now,
            budget,
        ),
        req.digest@ != sha256_of(req.body@) && spec_guard(req.method_post, req.content_type)
            ==> r == Err::<Outcome, FederationError>(FederationError::AuthenticationFailure)
            && final(st).model() == old(st).model(),
        ({
            let dec = spec_decode(req.envelope);
            &&& spec_guard(req.method_post, req.content_type)
            &&& req.digest@ == sha256_of(req.body@)
            &&& dec is Ok
            &&& spec_verify(dec->Ok_0, old(st).model(), now) is Ok
            &&& spec_resolve_id(dec->Ok_0) is Some
            &&& spec_resolve(
                old(st).cache.map(),
                table.map(),
                spec_resolve_id(dec->Ok_0)->Some_0,
                budget as nat,
            ).0 is Exceeded
        }) ==> r == Err::<Outcome, FederationError>(FederationError::RecursionExceeded)
            && final(st).model() == old(st).model(),
{
    if !InboxRequestGuard::check(req.method_post, &req.content_type) {
        return Err(FederationError::MalformedEnvelope);
    }
    match verify_digest(&req.digest, &req.body) {
        Ok(_) => {},
        Err(e) => {
            return Err(e);
        },
    }
    let a = match decode(req.envelope) {
        Ok(a) => a,
        Err(e) => {
            return Err(e);
        },
    };
    match verify(&a, st, now) {
        Ok(_) => {},
        Err(e) => {
            return Err(e);
        },
    }
    match resolve_id(&a) {
        None => {},
        Some(oid) => {
            let (res, _remaining) = resolve(st, table, oid, budget);
            match res {
                Resolution::NeedFetch(u) => {
                    return Ok(Outcome::NeedFetch(u));
                },
                Resolution::Exceeded => {
                    return Err(FederationError::RecursionExceeded);
                },
                Resolution::Found => {
                    let empty = String::new();
                    if !st.cache.contains(oid, &empty) {
                        match table.get(oid, &empty) {
                            Some(e) => {
                                proof {
                                    assert(table.map().dom().contains(
                                        (oid@, Seq::<char>::empty()),
                                    ));
                                    assert(table.map()[(oid@, Seq::<char>::empty())] == *e);
                                }
                                let copied = e.duplicate();
                                st.cache_put(oid.clone(), copied);
                            },
                            None => {},
                        }
                    }
                },
            }
        },
    }
    let n = apply(st, &a);
    Ok(Outcome::Accepted(n))
}

} // verus!
