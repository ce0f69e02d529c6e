//! The apply engine: one idempotent state transition per activity kind.
//!
//! Delivery is at-least-once, so every transition is an upsert or a
//! removal keyed by stable identifiers, never an increment or an append:
//! re-applying the same activity changes nothing
//! (`lemma_apply_idempotent`), and each undo kind inverts its activity
//! (`lemma_undo_follow_removes_edge`, `lemma_undo_vote_removes_record`,
//! `lemma_undo_delete_restores`).
//!
//! On success the engine emits one notification event; delivering it is
//! the notifier collaborator's business and never fails the apply.

use crate::envelope::Activity;
use crate::storage::{DeleteFlags, Storage, StorageModel};
use vstd::prelude::*;

verus! {

/// What happened, for the notifier.
#[derive(Clone, Copy, Debug, PartialEq, Eq, Structural)]
pub enum NotifyKind {
    FollowCreated,
    FollowRemoved,
    VoteSet,
    VoteRemoved,
    ObjectDeleted,
    ObjectRestored,
    UserBlocked,
    UserUnblocked,
    MessageStored,
    Forwarded,
}

/// A notification event: the kind of change, the entity it touched, and
/// the recipient scope it concerns — the community the activity
/// addresses, or the message recipient for a direct message.
#[derive(Debug, PartialEq, Eq)]
pub struct Notification {
    pub kind: NotifyKind,
    pub entity: String,
    pub scope: Option<String>,
}

/// The recipient scope of each activity kind's event.
pub open spec fn spec_notify_scope(a: Activity) -> Option<String> {
    match a {
        Activity::Follow(f) => Some(f.object),
        Activity::UndoFollow(u) => Some(u.object.object),
        Activity::Vote(v) => v.to.spec_first(),
        Activity::UndoVote(u) => u.cc.spec_first(),
        Activity::Delete(d) => d.cc.spec_first(),
        Activity::UndoDelete(u) => u.cc.spec_first(),
        Activity::Block(b) => Some(b.target),
        Activity::UndoBlock(u) => Some(u.object.target),
        Activity::CreateOrUpdatePrivateMessage(c) => Some(c.object.to),
        Activity::Accept(x) => x.to.spec_first(),
        Activity::Announce(x) => x.to.spec_first(),
    }
}

/// The notification each activity kind emits.
pub open spec fn spec_notify(a: Activity) -> Notification {
    match a {
        Activity::Follow(f) => Notification {
            kind: NotifyKind::FollowCreated,
            entity: f.object,
            scope: spec_notify_scope(a),
        },
        Activity::UndoFollow(u) => Notification {
            kind: NotifyKind::FollowRemoved,
            entity: u.object.object,
            scope: spec_notify_scope(a),
        },
        Activity::Vote(v) => Notification {
            kind: NotifyKind::VoteSet,
            entity: v.object,
            scope: spec_notify_scope(a),
        },
        Activity::UndoVote(u) => Notification {
            kind: NotifyKind::VoteRemoved,
            entity: u.object.object,
            scope: spec_notify_scope(a),
        },
        Activity::Delete(d) => Notification {
            kind: NotifyKind::ObjectDeleted,
            entity: d.object.target_string(),
            scope: spec_notify_scope(a),
        },
        Activity::UndoDelete(u) => Notification {
            kind: NotifyKind::ObjectRestored,
            entity: u.object.object.target_string(),
            scope: spec_notify_scope(a),
        },
        Activity::Block(b) => Notification {
            kind: NotifyKind::UserBlocked,
            entity: b.object,
            scope: spec_notify_scope(a),
        },
        Activity::UndoBlock(u) => Notification {
            kind: NotifyKind::UserUnblocked,
            entity: u.object.object,
            scope: spec_notify_scope(a),
        },
        Activity::CreateOrUpdatePrivateMessage(c) => Notification {
            kind: NotifyKind::MessageStored,
            entity: c.object.id,
            scope: spec_notify_scope(a),
        },
        Activity::Accept(x) => Notification {
            kind: NotifyKind::Forwarded,
            entity: x.object,
            scope: spec_notify_scope(a),
        },
        Activity::Announce(x) => Notification {
            kind: NotifyKind::Forwarded,
            entity: x.object,
            scope: spec_notify_scope(a),
        },
    }
}

/// Builds the notification of one activity.
pub fn notification_for(a: &Activity) -> (n: Notification)
    ensures
        n == spec_notify(*a),
{
    let scope = match a {
        Activity::Follow(f) => Some(f.object.clone()),
        Activity::UndoFollow(u) => Some(u.object.object.clone()),
        Activity::Vote(v) => match v.to.first() {
            Some(c) => Some(c.clone()),
            None => None,
        },
        Activity::UndoVote(u) => match u.cc.first() {
            Some(c) => Some(c.clone()),
            None => None,
        },
        Activity::Delete(d) => match d.cc.first() {
            Some(c) => Some(c.clone()),
            None => None,
        },
        Activity::UndoDelete(u) => match u.cc.first() {
            Some(c) => Some(c.clone()),
            None => None,
        },
        Activity::Block(b) => Some(b.target.clone()),
        Activity::UndoBlock(u) => Some(u.object.target.clone()),
        Activity::CreateOrUpdatePrivateMessage(c) => Some(c.object.to.clone()),
        Activity::Accept(x) => match x.to.first() {
            Some(c) => Some(c.clone()),
            None => None,
        },
        Activity::Announce(x) => match x.to.first() {
            Some(c) => Some(c.clone()),
            None => None,
        },
    };
    match a {
        Activity::Follow(f) => Notification {
            kind: NotifyKind::FollowCreated,
            entity: f.object.clone(),
            scope,
        },
        Activity::UndoFollow(u) => Notification {
            kind: NotifyKind::FollowRemoved,
            entity: u.object.object.clone(),
            scope,
        },
        Activity::Vote(v) => Notification {
            kind: NotifyKind::VoteSet,
            entity: v.object.clone(),
            scope,
        },
        Activity::UndoVote(u) => Notification {
            kind: NotifyKind::VoteRemoved,
            entity: u.object.object.clone(),
            scope,
        },
        Activity::Delete(d) => Notification {
            kind: NotifyKind::ObjectDeleted,
            entity: d.object.target().clone(),
            scope,
        },
        Activity::UndoDelete(u) => Notification {
            kind: NotifyKind::ObjectRestored,
            entity: u.object.object.target().clone(),
            scope,
        },
        Activity::Block(b) => Notification {
            kind: NotifyKind::UserBlocked,
            entity: b.object.clone(),
            scope,
        },
        Activity::UndoBlock(u) => Notification {
            kind: NotifyKind::UserUnblocked,
            entity: u.object.object.clone(),
            scope,
        },
        Activity::CreateOrUpdatePrivateMessage(c) => Notification {
            kind: NotifyKind::MessageStored,
            entity: c.object.id.clone(),
            scope,
        },
        Activity::Accept(x) => Notification {
            kind: NotifyKind::Forwarded,
            entity: x.object.clone(),
            scope,
        },
        Activity::Announce(x) => Notification {
            kind: NotifyKind::Forwarded,
            entity: x.object.clone(),
            scope,
        },
    }
}

/// The state transition of each activity kind, on the model.
pub open spec fn spec_apply(m: StorageModel, a: Activity) -> StorageModel {
    match a {
        Activity::Follow(f) => StorageModel {
            follows: m.follows.insert((f.actor@, f.object@), ()),
            ..m
        },
        Activity::UndoFollow(u) => StorageModel {
            follows: m.follows.remove((u.object.actor@, u.object.object@)),
            ..m
        },
        Activity::Vote(v) => StorageModel {
            votes: m.votes.insert((v.actor@, v.object@), v.kind),
            ..m
        },
        Activity::UndoVote(u) => StorageModel {
            votes: m.votes.remove((u.object.actor@, u.object.object@)),
            ..m
        },
        Activity::Delete(d) => StorageModel {
            deleted: m.deleted.insert(
                (d.object.spec_target(), Seq::empty()),
                DeleteFlags { deleted: true, moderation: d.summary is Some },
            ),
            ..m
        },
        Activity::UndoDelete(u) => StorageModel {
            deleted: m.deleted.remove((u.object.object.spec_target(), Seq::empty())),
            ..m
        },
        Activity::Block(b) => StorageModel {
            blocks: m.blocks.insert((b.object@, b.target@), ()),
            ..m
        },
        Activity::UndoBlock(u) => StorageModel {
            blocks: m.blocks.remove((u.object.object@, u.object.target@)),
            ..m
        },
        Activity::CreateOrUpdatePrivateMessage(c) => StorageModel {
            messages: m.messages.insert((c.object.id@, Seq::empty()), c.object.content),
            ..m
        },
        Activity::Accept(_) => m,
        Activity::Announce(_) => m,
    }
}

/// Applies one verified activity to the storage state.  The new model is
/// exactly `spec_apply` of the old one; the resolver cache is untouched;
/// the returned notification is the one `spec_notify` assigns.
pub fn apply(st: &mut Storage, a: &Activity) -> (n: Notification)
    requires
        old(st).wf(),
    ensures
        final(st).wf(),
        final(st).model() == spec_apply(old(st).model(), *a),
        final(st).cache.map() == old(st).cache.map(),
        n == spec_notify(*a),
{
    match a {
        Activity::Follow(f) => {
            st.follows.upsert(f.actor.clone(), f.object.clone(), ());
            proof {
                assert(final(st).model() =~= spec_apply(old(st).model(), *a));
            }
        },
        Activity::UndoFollow(u) => {
            st.follows.remove(&u.object.actor, &u.object.object);
            proof {
                assert(final(st).model() =~= spec_apply(old(st).model(), *a));
            }
        },
        Activity::Vote(v) => {
            st.votes.upsert(v.actor.clone(), v.object.clone(), v.kind);
            proof {
                assert(final(st).model() =~= spec_apply(old(st).model(), *a));
            }
        },
        Activity::UndoVote(u) => {
            st.votes.remove(&u.object.actor, &u.object.object);
            proof {
                assert(final(st).model() =~= spec_apply(old(st).model(), *a));
            }
        },
        Activity::Delete(d) => {
            let flags = DeleteFlags { deleted: true, moderation: d.summary.is_some() };
            st.deleted.upsert(d.object.target().clone(), String::new(), flags);
            proof {
                assert(final(st).model() =~= spec_apply(old(st).model(), *a));
            }
        },
        Activity::UndoDelete(u) => {
            let empty = String::new();
            st.deleted.remove(u.object.object.target(), &empty);
            proof {
                assert(final(st).model() =~= spec_apply(old(st).model(), *a));
            }
        },
        Activity::Block(b) => {
            st.blocks.upsert(b.object.clone(), b.target.clone(), ());
            proof {
                assert(final(st).model() =~= spec_apply(old(st).model(), *a));
            }
        },
        Activity::UndoBlock(u) => {
            st.blocks.remove(&u.object.object, &u.object.target);
            proof {
                assert(final(st).model() =~= spec_apply(old(st).model(), *a));
            }
        },
        Activity::CreateOrUpdatePrivateMessage(c) => {
            st.messages.upsert(c.object.id.clone(), String::new(), c.object.content.clone());
            proof {
                assert(final(st).model() =~= spec_apply(old(st).model(), *a));
            }
        },
        Activity::Accept(_) => {
            proof {
                assert(final(st).model() =~= spec_apply(old(st).model(), *a));
            }
        },
        Activity::Announce(_) => {
            proof {
                assert(final(st).model() =~= spec_apply(old(st).model(), *a));
            }
        },
    }
    notification_for(a)
}

/// Idempotence: applying the same activity twice leaves exactly the state
/// one application leaves, for every activity kind.  Activity ids are
/// never reused, so a redelivered id carries the same activity.
pub proof fn lemma_apply_idempotent(m: StorageModel, a: Activity)
    ensures
        spec_apply(spec_apply(m, a), a) == spec_apply(m, a),
{
    assert(spec_apply(spec_apply(m, a), a) =~= spec_apply(m, a));
}

/// Inverse: an undo of a follow, after that follow, removes the edge; no
/// other component moves.
pub proof fn lemma_undo_follow_removes_edge(
    m: StorageModel,
    f: crate::envelope::Follow,
    u: crate::envelope::UndoFollow,
)
    requires
        u.object == f,
    ensures
        spec_apply(spec_apply(m, Activity::Follow(f)), Activity::UndoFollow(u)) == (StorageModel {
            follows: m.follows.remove((f.actor@, f.object@)),
            ..m
        }),
{
    assert(spec_apply(spec_apply(m, Activity::Follow(f)), Activity::UndoFollow(u))
        =~= (StorageModel { follows: m.follows.remove((f.actor@, f.object@)), ..m }));
}

/// Inverse: an undo of a vote, after that vote, removes the score record
/// for the voter/target pair; no other component moves.
pub proof fn lemma_undo_vote_removes_record(
    m: StorageModel,
    v: crate::envelope::Vote,
    u: crate::envelope::UndoVote,
)
    requires
        u.object == v,
    ensures
        spec_apply(spec_apply(m, Activity::Vote(v)), Activity::UndoVote(u)) == (StorageModel {
            votes: m.votes.remove((v.actor@, v.object@)),
            ..m
        }),
{
    assert(spec_apply(spec_apply(m, Activity::Vote(v)), Activity::UndoVote(u)) =~= (StorageModel {
        votes: m.votes.remove((v.actor@, v.object@)),
        ..m
    }));
}

/// Inverse: an undo of a deletion, after that deletion, restores the
/// pre-deletion state, provided the target carried no deletion record
/// before.
pub proof fn lemma_undo_delete_restores(
    m: StorageModel,
    d: crate::envelope::Delete,
    u: crate::envelope::UndoDeletePostOrComment,
)
    requires
        u.object == d,
        !m.deleted.dom().contains((d.object.spec_target(), Seq::<char>::empty())),
    ensures
        spec_apply(spec_apply(m, Activity::Delete(d)), Activity::UndoDelete(u)) == m,
{
    assert(spec_apply(spec_apply(m, Activity::Delete(d)), Activity::UndoDelete(u)) =~= m);
}

/// An undo of a deletion always clears both flags, whichever were set.
pub proof fn lemma_undo_delete_clears_flags(m: StorageModel, u: crate::envelope::UndoDeletePostOrComment)
    ensures
        spec_apply(m, Activity::UndoDelete(u)).flags_of(u.object.object.spec_target())
            == (DeleteFlags { deleted: false, moderation: false }),
{
}

} // verus!
