//! The typed activity vocabulary.
//!
//! An inbound payload decodes into one of a closed set of activity kinds;
//! every kind carries the common envelope: a globally unique `id` URL, the
//! originating `actor` URL, optional recipient lists, and an extension bag
//! (`Unparsed`) holding unrecognized fields so that re-serialization is
//! lossless.

use vstd::prelude::*;

verus! {

/// A recipient field as it stands on the wire: absent, a single URL, or a
/// list of URLs.  Peers send either form; `to_list` normalizes to a list.
#[derive(Debug, PartialEq, Eq)]
pub enum Recipients {
    Absent,
    One(String),
    Many(Vec<String>),
}

impl Recipients {
    /// A present list is non-empty.
    pub open spec fn wf(&self) -> bool {
        match self {
            Recipients::Many(l) => l@.len() > 0,
            _ => true,
        }
    }

    /// The recipients as a list of URL views.
    pub open spec fn spec_list(&self) -> Seq<Seq<char>> {
        match self {
            Recipients::Absent => Seq::empty(),
            Recipients::One(u) => seq![u@],
            Recipients::Many(l) => l.deep_view(),
        }
    }

    /// The first recipient, if any: for community-scoped activities the
    /// protocol addresses the community there.
    pub open spec fn spec_first(&self) -> Option<String> {
        match *self {
            Recipients::Absent => None,
            Recipients::One(u) => Some(u),
            Recipients::Many(l) => if l@.len() > 0 {
                Some(l@[0])
            } else {
                None
            },
        }
    }

    /// The first recipient, if any.
    pub fn first(&self) -> (r: Option<&String>)
        ensures
            match r {
                Some(u) => self.spec_first() == Some(*u),
                None => self.spec_first() is None,
            },
    {
        match self {
            Recipients::Absent => None,
            Recipients::One(u) => Some(u),
            Recipients::Many(l) => if l.len() > 0 {
                Some(&l[0])
            } else {
                None
            },
        }
    }

    /// Normalizes the wire form to a list.
    pub fn to_list(&self) -> (r: Vec<String>)
        ensures
            r.deep_view() == self.spec_list(),
    {
        match self {
            Recipients::Absent => {
                let r: Vec<String> = Vec::new();
                proof {
                    assert(r.deep_view() =~= self.spec_list());
                }
                r
            },
            Recipients::One(u) => {
                let mut r: Vec<String> = Vec::new();
                r.push(u.clone());
                proof {
                    assert(r.deep_view() =~= self.spec_list());
                }
                r
            },
            Recipients::Many(l) => {
                let r = l.clone();
                proof {
                    assert(r.deep_view() =~= l.deep_view());
                }
                r
            },
        }
    }
}

/// Unrecognized object-level fields, preserved verbatim: federated peers
/// evolve the vocabulary independently, and dropping their fields would
/// corrupt re-broadcast.
#[derive(Debug, PartialEq, Eq)]
pub struct Unparsed {
    pub fields: Vec<(String, String)>,
}

/// A vote's direction on the wire.
#[derive(Clone, Copy, Debug, PartialEq, Eq, Structural)]
pub enum VoteType {
    Like,
    Dislike,
}

/// Create versus update of the same object kind.
#[derive(Clone, Copy, Debug, PartialEq, Eq, Structural)]
pub enum CreateOrUpdateType {
    Create,
    Update,
}

/// The one type tag a chat message object may carry.
#[derive(Clone, Copy, Debug, PartialEq, Eq, Structural)]
pub enum ChatMessageType {
    ChatMessage,
}

/// A subscription request: `actor` asks to follow `object`.
#[derive(Debug, PartialEq, Eq)]
pub struct Follow {
    pub id: String,
    pub actor: String,
    pub to: Recipients,
    pub object: String,
    pub unparsed: Unparsed,
}

/// Acceptance of a follow request, referencing it by id.
#[derive(Debug, PartialEq, Eq)]
pub struct Accept {
    pub id: String,
    pub actor: String,
    pub to: Recipients,
    pub object: String,
    pub unparsed: Unparsed,
}

/// A re-broadcast of another activity, referenced by id.
#[derive(Debug, PartialEq, Eq)]
pub struct Announce {
    pub id: String,
    pub actor: String,
    pub to: Recipients,
    pub cc: Recipients,
    pub object: String,
    pub unparsed: Unparsed,
}

/// A deletion target referenced by a bare id on older peers, or by a
/// minimal tombstone object on newer ones.
#[derive(Debug, PartialEq, Eq)]
pub enum IdOrNestedObject {
    Id(String),
    Nested(MinimalTombstone),
}

/// The minimal tombstone form of a deleted object.
#[derive(Debug, PartialEq, Eq)]
pub struct MinimalTombstone {
    pub id: String,
}

impl MinimalTombstone {
    /// The URL of the deleted object.
    pub fn id(&self) -> (r: &String)
        ensures
            r@ == self.id@,
    {
        &self.id
    }
}

impl IdOrNestedObject {
    /// The URL of the deletion target, whichever form carried it.
    pub open spec fn target_string(&self) -> String {
        match *self {
            IdOrNestedObject::Id(u) => u,
            IdOrNestedObject::Nested(t) => t.id,
        }
    }

    /// The view of the deletion target's URL.
    pub open spec fn spec_target(&self) -> Seq<char> {
        self.target_string()@
    }

    /// The URL of the deletion target.
    pub fn target(&self) -> (r: &String)
        ensures
            *r == self.target_string(),
            r@ == self.spec_target(),
    {
        match self {
            IdOrNestedObject::Id(u) => u,
            IdOrNestedObject::Nested(t) => &t.id,
        }
    }
}

/// Deletion of the object named by `object`.  A present `summary` marks a
/// moderator removal; an absent one marks a self-deletion.  The wire
/// carries one deletion kind for every target — posts, comments and
/// direct messages alike — so this one type covers them all and the
/// apply engine sets the same deletion flags for each.
#[derive(Debug, PartialEq, Eq)]
pub struct Delete {
    pub id: String,
    pub actor: String,
    pub to: Recipients,
    pub cc: Recipients,
    pub object: IdOrNestedObject,
    pub summary: Option<String>,
    pub unparsed: Unparsed,
}

/// A score on the object named by `object`, keyed by the voting actor.
#[derive(Debug, PartialEq, Eq)]
pub struct Vote {
    pub id: String,
    pub actor: String,
    pub to: Recipients,
    pub object: String,
    pub kind: VoteType,
    pub unparsed: Unparsed,
}

/// Retraction of an earlier follow, embedded as `object`.
#[derive(Debug, PartialEq, Eq)]
pub struct UndoFollow {
    pub id: String,
    pub actor: String,
    pub to: Recipients,
    pub cc: Recipients,
    pub object: Follow,
    pub unparsed: Unparsed,
}

/// Retraction of an earlier vote, embedded as `object`.
#[derive(Debug, PartialEq, Eq)]
pub struct UndoVote {
    pub id: String,
    pub actor: String,
    pub to: Recipients,
    pub cc: Recipients,
    pub object: Vote,
    pub unparsed: Unparsed,
}

/// Reversal of an earlier deletion, embedded as `object`.
#[derive(Debug, PartialEq, Eq)]
pub struct UndoDeletePostOrComment {
    pub id: String,
    pub actor: String,
    pub to: Recipients,
    pub cc: Recipients,
    pub object: Delete,
    pub unparsed: Unparsed,
}

/// Exclusion of the person named by `object` from the community named by
/// `target`.
#[derive(Debug, PartialEq, Eq)]
pub struct BlockUserFromCommunity {
    pub id: String,
    pub actor: String,
    pub to: Recipients,
    pub object: String,
    pub target: String,
    pub unparsed: Unparsed,
}

/// Reversal of an earlier exclusion, embedded as `object`.
#[derive(Debug, PartialEq, Eq)]
pub struct UndoBlockUserFromCommunity {
    pub id: String,
    pub actor: String,
    pub to: Recipients,
    pub cc: Recipients,
    pub object: BlockUserFromCommunity,
    pub unparsed: Unparsed,
}

/// A direct message object carried inside a create or update activity.
#[derive(Debug, PartialEq, Eq)]
pub struct ChatMessage {
    pub kind: ChatMessageType,
    pub id: String,
    pub attributed_to: String,
    pub to: String,
    pub content: String,
    pub published: Option<i64>,
    pub unparsed: Unparsed,
}

/// Creation or edit of a direct message.
#[derive(Debug, PartialEq, Eq)]
pub struct CreateOrUpdatePrivateMessage {
    pub id: String,
    pub actor: String,
    pub to: Recipients,
    pub object: ChatMessage,
    pub kind: CreateOrUpdateType,
    pub unparsed: Unparsed,
}

/// The closed set of activity kinds this pipeline processes.  Anything
/// else on the wire is rejected at decode time.
#[derive(Debug, PartialEq, Eq)]
pub enum Activity {
    Follow(Follow),
    Accept(Accept),
    Announce(Announce),
    Delete(Delete),
    Vote(Vote),
    UndoFollow(UndoFollow),
    UndoVote(UndoVote),
    UndoDelete(UndoDeletePostOrComment),
    Block(BlockUserFromCommunity),
    UndoBlock(UndoBlockUserFromCommunity),
    CreateOrUpdatePrivateMessage(CreateOrUpdatePrivateMessage),
}

impl Activity {
    /// The envelope id: the activity's primary key and canonical address.
    pub open spec fn spec_id(&self) -> Seq<char> {
        match self {
            Activity::Follow(a) => a.id@,
            Activity::Accept(a) => a.id@,
            Activity::Announce(a) => a.id@,
            Activity::Delete(a) => a.id@,
            Activity::Vote(a) => a.id@,
            Activity::UndoFollow(a) => a.id@,
            Activity::UndoVote(a) => a.id@,
            Activity::UndoDelete(a) => a.id@,
            Activity::Block(a) => a.id@,
            Activity::UndoBlock(a) => a.id@,
            Activity::CreateOrUpdatePrivateMessage(a) => a.id@,
        }
    }

    /// The originating actor's URL.
    pub open spec fn spec_actor(&self) -> Seq<char> {
        match self {
            Activity::Follow(a) => a.actor@,
            Activity::Accept(a) => a.actor@,
            Activity::Announce(a) => a.actor@,
            Activity::Delete(a) => a.actor@,
            Activity::Vote(a) => a.actor@,
            Activity::UndoFollow(a) => a.actor@,
            Activity::UndoVote(a) => a.actor@,
            Activity::UndoDelete(a) => a.actor@,
            Activity::Block(a) => a.actor@,
            Activity::UndoBlock(a) => a.actor@,
            Activity::CreateOrUpdatePrivateMessage(a) => a.actor@,
        }
    }

    /// The actor of the embedded activity, for the undo kinds.
    pub open spec fn spec_inner_actor(&self) -> Option<Seq<char>> {
        match self {
            Activity::UndoFollow(a) => Some(a.object.actor@),
            Activity::UndoVote(a) => Some(a.object.actor@),
            Activity::UndoDelete(a) => Some(a.object.actor@),
            Activity::UndoBlock(a) => Some(a.object.actor@),
            _ => None,
        }
    }

    /// The envelope id.
    pub fn id(&self) -> (r: &String)
        ensures
            r@ == self.spec_id(),
    {
        match self {
            Activity::Follow(a) => &a.id,
            Activity::Accept(a) => &a.id,
            Activity::Announce(a) => &a.id,
            Activity::Delete(a) => &a.id,
            Activity::Vote(a) => &a.id,
            Activity::UndoFollow(a) => &a.id,
            Activity::UndoVote(a) => &a.id,
            Activity::UndoDelete(a) => &a.id,
            Activity::Block(a) => &a.id,
            Activity::UndoBlock(a) => &a.id,
            Activity::CreateOrUpdatePrivateMessage(a) => &a.id,
        }
    }

    /// The originating actor's URL.
    pub fn actor(&self) -> (r: &String)
        ensures
            r@ == self.spec_actor(),
    {
        match self {
            Activity::Follow(a) => &a.actor,
            Activity::Accept(a) => &a.actor,
            Activity::Announce(a) => &a.actor,
            Activity::Delete(a) => &a.actor,
            Activity::Vote(a) => &a.actor,
            Activity::UndoFollow(a) => &a.actor,
            Activity::UndoVote(a) => &a.actor,
            Activity::UndoDelete(a) => &a.actor,
            Activity::Block(a) => &a.actor,
            Activity::UndoBlock(a) => &a.actor,
            Activity::CreateOrUpdatePrivateMessage(a) => &a.actor,
        }
    }

    /// The actor of the embedded activity, for the undo kinds.
    pub fn inner_actor(&self) -> (r: Option<&String>)
        ensures
            match r {
                Some(s) => self.spec_inner_actor() == Some(s@),
                None => self.spec_inner_actor() is None,
            },
    {
        match self {
            Activity::UndoFollow(a) => Some(&a.object.actor),
            Activity::UndoVote(a) => Some(&a.object.actor),
            Activity::UndoDelete(a) => Some(&a.object.actor),
            Activity::UndoBlock(a) => Some(&a.object.actor),
            _ => None,
        }
    }

    /// Well-formedness of the envelope: every present recipient list is
    /// non-empty, down to the embedded activity of an undo.
    pub open spec fn wf(&self) -> bool {
        match self {
            Activity::Follow(a) => a.to.wf(),
            Activity::Accept(a) => a.to.wf(),
            Activity::Announce(a) => a.to.wf() && a.cc.wf(),
            Activity::Delete(a) => a.to.wf() && a.cc.wf(),
            Activity::Vote(a) => a.to.wf(),
            Activity::UndoFollow(a) => a.to.wf() && a.cc.wf() && a.object.to.wf(),
            Activity::UndoVote(a) => a.to.wf() && a.cc.wf() && a.object.to.wf(),
            Activity::UndoDelete(a) => a.to.wf() && a.cc.wf() && a.object.to.wf()
                && a.object.cc.wf(),
            Activity::Block(a) => a.to.wf(),
            Activity::UndoBlock(a) => a.to.wf() && a.cc.wf() && a.object.to.wf(),
            Activity::CreateOrUpdatePrivateMessage(a) => a.to.wf(),
        }
    }
}

} // verus!
