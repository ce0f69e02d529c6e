//! The verification engine: protocol-level authorization and structural
//! validity, checked before any state changes.
//!
//! Transport authentication (signature and digest) has already run; this
//! engine assumes actor attribution is authentic.  It checks URL
//! well-formedness, timestamp sanity, the same-authority constraint
//! between an activity's id and its actor, the undo-actor-equality
//! invariant (nobody undoes someone else's action), and the block policy
//! against current relationship state.  It is read-only and idempotent:
//! it takes the storage state by shared reference and returns the same
//! verdict for the same inputs.

use crate::envelope::Activity;
use crate::storage::{Storage, StorageModel};
use crate::FederationError;
use vstd::prelude::*;

verus! {

/// How far a message timestamp may lie from the local clock, in seconds.
pub const MAX_CLOCK_SKEW_SECS: i64 = 172800;

/// Whether a string parses as an absolute URL.
pub uninterp spec fn url_ok(s: Seq<char>) -> bool;

/// Relies on url::Url::parse: whether `s` parses as an absolute URL, a
/// function of the string alone.
#[verifier::external_body]
pub(crate) fn check_url(s: &String) -> (r: bool)
    ensures
        r == url_ok(s@),
{
    url::Url::parse(s.as_str()).is_ok()
}

/// The host component of a URL string, where the string parses and has
/// one.
pub uninterp spec fn url_host_of(s: Seq<char>) -> Option<Seq<char>>;

/// Relies on url::Url::parse and url::Url::host_str: the host component
/// of `s`, a function of the string alone; `None` where `s` does not
/// parse or carries no host.
#[verifier::external_body]
pub(crate) fn url_host(s: &String) -> (r: Option<String>)
    ensures
        r.deep_view() == url_host_of(s@),
{
    match url::Url::parse(s.as_str()) {
        Ok(u) => match u.host_str() {
            Some(h) => Some(h.to_owned()),
            None => None,
        },
        Err(_) => None,
    }
}

/// Whether two URL strings name the same authority: both carry a host
/// and the hosts are equal.
pub open spec fn spec_hosts_match(a: Seq<char>, b: Seq<char>) -> bool {
    url_host_of(a) is Some && url_host_of(a) == url_host_of(b)
}

/// Compares the authorities of two URL strings.
pub fn hosts_match(a: &String, b: &String) -> (r: bool)
    ensures
        r == spec_hosts_match(a@, b@),
{
    match (url_host(a), url_host(b)) {
        (Some(x), Some(y)) => x == y,
        _ => false,
    }
}

/// Whether the activity's timestamp, where it carries one, lies within
/// the allowed skew of the local clock.
pub open spec fn spec_timestamp_ok(a: Activity, now: i64) -> bool {
    match a {
        Activity::CreateOrUpdatePrivateMessage(c) => match c.object.published {
            Some(t) => (now as int) - (MAX_CLOCK_SKEW_SECS as int) <= (t as int) <= (now as int)
                + (MAX_CLOCK_SKEW_SECS as int),
            None => true,
        },
        _ => true,
    }
}

/// The community against which the actor's standing is checked: the
/// followed community for a follow and its undo, the community carried
/// in `cc` for deletions, votes' undo and their kin.  The moderation
/// kinds (block and its undo) act on the block relation itself and have
/// no such check; neither do the local-recipient kinds.
pub open spec fn spec_policy_community(a: Activity) -> Option<String> {
    match a {
        Activity::Follow(f) => Some(f.object),
        Activity::UndoFollow(u) => Some(u.object.object),
        Activity::Delete(d) => d.cc.spec_first(),
        Activity::UndoDelete(u) => u.cc.spec_first(),
        Activity::Vote(v) => v.to.spec_first(),
        Activity::UndoVote(u) => u.cc.spec_first(),
        _ => None,
    }
}

/// Whether the actor is barred from the community the activity
/// addresses: the policy check against current relationship state.
pub open spec fn spec_actor_barred(a: Activity, m: StorageModel) -> bool {
    match spec_policy_community(a) {
        Some(c) => m.blocks.dom().contains((a.spec_actor(), c@)),
        None => false,
    }
}

/// The exact verdict of the verification engine: the first failed check
/// names the error, and `Ok` comes exactly when every check passes.
///
/// Order: malformed URLs and insane timestamps are `MalformedEnvelope`;
/// an id from another authority than its actor, an undo of someone
/// else's activity, and an actor barred from the addressed community are
/// `AuthorizationFailure`.
pub open spec fn spec_verify(a: Activity, m: StorageModel, now: i64) -> Result<
    (),
    FederationError,
> {
    if !(url_ok(a.spec_id()) && url_ok(a.spec_actor())) {
        Err(FederationError::MalformedEnvelope)
    } else if !spec_timestamp_ok(a, now) {
        Err(FederationError::MalformedEnvelope)
    } else if !spec_hosts_match(a.spec_id(), a.spec_actor()) {
        Err(FederationError::AuthorizationFailure)
    } else if match a.spec_inner_actor() {
        Some(x) => x != a.spec_actor(),
        None => false,
    } {
        Err(FederationError::AuthorizationFailure)
    } else if spec_actor_barred(a, m) {
        Err(FederationError::AuthorizationFailure)
    } else {
        Ok(())
    }
}

/// The community the policy check addresses, if the kind has one.
pub fn policy_community(a: &Activity) -> (r: Option<&String>)
    ensures
        match r {
            Some(c) => spec_policy_community(*a) == Some(*c),
            None => spec_policy_community(*a) is None,
        },
{
    match a {
        Activity::Follow(f) => Some(&f.object),
        Activity::UndoFollow(u) => Some(&u.object.object),
        Activity::Delete(d) => d.cc.first(),
        Activity::UndoDelete(u) => u.cc.first(),
        Activity::Vote(v) => v.to.first(),
        Activity::UndoVote(u) => u.cc.first(),
        _ => None,
    }
}

/// Runs the verification engine.  Read-only: the storage state is only
/// queried.  Returns exactly `spec_verify`'s verdict.
pub fn verify(a: &Activity, st: &Storage, now: i64) -> (r: Result<(), FederationError>)
    ensures
        r == spec_verify(*a, st.model(), now),
{
    if !(check_url(a.id()) && check_url(a.actor())) {
        return Err(FederationError::MalformedEnvelope);
    }
    let ts_ok = match a {
        Activity::CreateOrUpdatePrivateMessage(c) => match c.object.published {
            Some(t) => {
                let lo = (now as i128) - (MAX_CLOCK_SKEW_SECS as i128);
                let hi = (now as i128) + (MAX_CLOCK_SKEW_SECS as i128);
                lo <= (t as i128) && (t as i128) <= hi
            },
            None => true,
        },
        _ => true,
    };
    if !ts_ok {
        return Err(FederationError::MalformedEnvelope);
    }
    if !hosts_match(a.id(), a.actor()) {
        return Err(FederationError::AuthorizationFailure);
    }
    match a.inner_actor() {
        Some(x) => {
            if !(*x == *a.actor()) {
                return Err(FederationError::AuthorizationFailure);
            }
        },
        None => {},
    }
    match policy_community(a) {
        Some(c) => {
            if st.is_blocked(a.actor(), c) {
                return Err(FederationError::AuthorizationFailure);
            }
        },
        None => {},
    }
    Ok(())
}

} // verus!
