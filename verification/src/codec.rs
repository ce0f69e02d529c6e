//! Decoding the wire payload into the closed set of activity kinds, and
//! encoding activities back to the wire.
//!
//! `Raw` is the typed image of one wire object: the `"type"` discriminator,
//! the envelope fields a payload may carry, at most one nested object, and
//! the extension bag of unrecognized fields.  `decode` selects the activity
//! kind from the discriminator and rejects unknown top-level kinds;
//! `encode` is its right inverse on well-formed activities
//! (`lemma_round_trip`), extension bag included.

use crate::envelope::{
    Accept, Activity, Announce, BlockUserFromCommunity, ChatMessage, ChatMessageType,
    CreateOrUpdatePrivateMessage, CreateOrUpdateType, Delete, Follow, IdOrNestedObject,
    MinimalTombstone, Recipients, UndoBlockUserFromCommunity, UndoDeletePostOrComment, UndoFollow,
    UndoVote, Unparsed, Vote, VoteType,
};
use crate::FederationError;
use vstd::prelude::*;

verus! {

/// The `"type"` discriminator of a wire object.  `Unknown` stands for any
/// string outside the recognized vocabulary.
#[derive(Clone, Copy, Debug, PartialEq, Eq, Structural)]
pub enum KindTag {
    Follow,
    Accept,
    Announce,
    Delete,
    Undo,
    Like,
    Dislike,
    Create,
    Update,
    Block,
    Tombstone,
    ChatMessage,
    Unknown,
}

/// The `object` field of a nested wire object: absent, a bare URL, or a
/// tombstone carrying the deleted object's URL.
#[derive(Debug, PartialEq, Eq)]
pub enum InnerObject {
    Missing,
    Id(String),
    Tombstone(String),
}

/// A wire object nested one level down (the `object` of an undo, a create
/// or a delete).
#[derive(Debug, PartialEq, Eq)]
pub struct InnerRaw {
    pub kind: KindTag,
    pub id: Option<String>,
    pub actor: Option<String>,
    pub to: Recipients,
    pub cc: Recipients,
    pub object: InnerObject,
    pub target: Option<String>,
    pub summary: Option<String>,
    pub content: Option<String>,
    pub attributed_to: Option<String>,
    pub published: Option<i64>,
    pub unparsed: Unparsed,
}

/// The `object` field of a top-level wire object.
#[derive(Debug, PartialEq, Eq)]
pub enum RawObject {
    Missing,
    Id(String),
    Tombstone(String),
    Nested(InnerRaw),
}

/// A top-level wire object, after transport framing but before kind
/// dispatch.
#[derive(Debug, PartialEq, Eq)]
pub struct Raw {
    pub kind: KindTag,
    pub id: Option<String>,
    pub actor: Option<String>,
    pub to: Recipients,
    pub cc: Recipients,
    pub object: RawObject,
    pub target: Option<String>,
    pub summary: Option<String>,
    pub content: Option<String>,
    pub attributed_to: Option<String>,
    pub published: Option<i64>,
    pub unparsed: Unparsed,
}

// ---------------------------------------------------------------------
// Decoding, specification level.

/// A top-level object with its `object` field lowered to the nested form;
/// `None` where the field holds a nested object (which only the undo and
/// create kinds accept, and they do not go through this lowering).
pub open spec fn spec_to_inner(r: Raw) -> Option<InnerRaw> {
    match r.object {
        RawObject::Nested(_) => None,
        _ => Some(
            InnerRaw {
                kind: r.kind,
                id: r.id,
                actor: r.actor,
                to: r.to,
                cc: r.cc,
                object: match r.object {
                    RawObject::Missing => InnerObject::Missing,
                    RawObject::Id(u) => InnerObject::Id(u),
                    RawObject::Tombstone(t) => InnerObject::Tombstone(t),
                    RawObject::Nested(_) => InnerObject::Missing,
                },
                target: r.target,
                summary: r.summary,
                content: r.content,
                attributed_to: r.attributed_to,
                published: r.published,
                unparsed: r.unparsed,
            },
        ),
    }
}

pub open spec fn spec_decode_follow(i: InnerRaw) -> Result<Follow, FederationError> {
    if i.id is Some && i.actor is Some && i.object is Id && i.to.wf() {
        Ok(
            Follow {
                id: i.id->Some_0,
                actor: i.actor->Some_0,
                to: i.to,
                object: i.object->Id_0,
                unparsed: i.unparsed,
            },
        )
    } else {
        Err(FederationError::MalformedEnvelope)
    }
}

pub open spec fn spec_decode_accept(i: InnerRaw) -> Result<Accept, FederationError> {
    if i.id is Some && i.actor is Some && i.object is Id && i.to.wf() {
        Ok(
            Accept {
                id: i.id->Some_0,
                actor: i.actor->Some_0,
                to: i.to,
                object: i.object->Id_0,
                unparsed: i.unparsed,
            },
        )
    } else {
        Err(FederationError::MalformedEnvelope)
    }
}

pub open spec fn spec_decode_announce(i: InnerRaw) -> Result<Announce, FederationError> {
    if i.id is Some && i.actor is Some && i.object is Id && i.to.wf() && i.cc.wf() {
        Ok(
            Announce {
                id: i.id->Some_0,
                actor: i.actor->Some_0,
                to: i.to,
                cc: i.cc,
                object: i.object->Id_0,
                unparsed: i.unparsed,
            },
        )
    } else {
        Err(FederationError::MalformedEnvelope)
    }
}

pub open spec fn spec_decode_delete(i: InnerRaw) -> Result<Delete, FederationError> {
    if i.id is Some && i.actor is Some && i.to.wf() && i.cc.wf() {
        match i.object {
            InnerObject::Missing => Err(FederationError::MalformedEnvelope),
            InnerObject::Id(u) => Ok(
                Delete {
                    id: i.id->Some_0,
                    actor: i.actor->Some_0,
                    to: i.to,
                    cc: i.cc,
                    object: IdOrNestedObject::Id(u),
                    summary: i.summary,
                    unparsed: i.unparsed,
                },
            ),
            InnerObject::Tombstone(t) => Ok(
                Delete {
                    id: i.id->Some_0,
                    actor: i.actor->Some_0,
                    to: i.to,
                    cc: i.cc,
                    object: IdOrNestedObject::Nested(MinimalTombstone { id: t }),
                    summary: i.summary,
                    unparsed: i.unparsed,
                },
            ),
        }
    } else {
        Err(FederationError::MalformedEnvelope)
    }
}

pub open spec fn spec_decode_vote(i: InnerRaw) -> Result<Vote, FederationError> {
    if i.id is Some && i.actor is Some && i.object is Id && i.to.wf() && (i.kind is Like
        || i.kind is Dislike) {
        Ok(
            Vote {
                id: i.id->Some_0,
                actor: i.actor->Some_0,
                to: i.to,
                object: i.object->Id_0,
                kind: if i.kind is Like {
                    VoteType::Like
                } else {
                    VoteType::Dislike
                },
                unparsed: i.unparsed,
            },
        )
    } else {
        Err(FederationError::MalformedEnvelope)
    }
}

pub open spec fn spec_decode_block(i: InnerRaw) -> Result<
    BlockUserFromCommunity,
    FederationError,
> {
    if i.id is Some && i.actor is Some && i.object is Id && i.target is Some && i.to.wf() {
        Ok(
            BlockUserFromCommunity {
                id: i.id->Some_0,
                actor: i.actor->Some_0,
                to: i.to,
                object: i.object->Id_0,
                target: i.target->Some_0,
                unparsed: i.unparsed,
            },
        )
    } else {
        Err(FederationError::MalformedEnvelope)
    }
}

pub open spec fn spec_decode_chat(i: InnerRaw) -> Result<ChatMessage, FederationError> {
    if i.kind is ChatMessage && i.id is Some && i.attributed_to is Some && i.to is One
        && i.content is Some {
        Ok(
            ChatMessage {
                kind: ChatMessageType::ChatMessage,
                id: i.id->Some_0,
                attributed_to: i.attributed_to->Some_0,
                to: i.to->One_0,
                content: i.content->Some_0,
                published: i.published,
                unparsed: i.unparsed,
            },
        )
    } else {
        Err(FederationError::MalformedEnvelope)
    }
}

pub open spec fn spec_decode_undo(r: Raw) -> Result<Activity, FederationError> {
    if r.id is Some && r.actor is Some && r.object is Nested && r.to.wf() && r.cc.wf() {
        let i = r.object->Nested_0;
        match i.kind {
            KindTag::Follow => match spec_decode_follow(i) {
                Ok(f) => Ok(
                    Activity::UndoFollow(
                        UndoFollow {
                            id: r.id->Some_0,
                            actor: r.actor->Some_0,
                            to: r.to,
                            cc: r.cc,
                            object: f,
                            unparsed: r.unparsed,
                        },
                    ),
                ),
                Err(e) => Err(e),
            },
            KindTag::Like | KindTag::Dislike => match spec_decode_vote(i) {
                Ok(v) => Ok(
                    Activity::UndoVote(
                        UndoVote {
                            id: r.id->Some_0,
                            actor: r.actor->Some_0,
                            to: r.to,
                            cc: r.cc,
                            object: v,
                            unparsed: r.unparsed,
                        },
                    ),
                ),
                Err(e) => Err(e),
            },
            KindTag::Delete => match spec_decode_delete(i) {
                Ok(d) => Ok(
                    Activity::UndoDelete(
                        UndoDeletePostOrComment {
                            id: r.id->Some_0,
                            actor: r.actor->Some_0,
                            to: r.to,
                            cc: r.cc,
                            object: d,
                            unparsed: r.unparsed,
                        },
                    ),
                ),
                Err(e) => Err(e),
            },
            KindTag::Block => match spec_decode_block(i) {
                Ok(b) => Ok(
                    Activity::UndoBlock(
                        UndoBlockUserFromCommunity {
                            id: r.id->Some_0,
                            actor: r.actor->Some_0,
                            to: r.to,
                            cc: r.cc,
                            object: b,
                            unparsed: r.unparsed,
                        },
                    ),
                ),
                Err(e) => Err(e),
            },
            _ => Err(FederationError::MalformedEnvelope),
        }
    } else {
        Err(FederationError::MalformedEnvelope)
    }
}

pub open spec fn spec_decode_create_or_update(r: Raw) -> Result<Activity, FederationError> {
    if r.id is Some && r.actor is Some && r.object is Nested && r.to.wf() {
        match spec_decode_chat(r.object->Nested_0) {
            Ok(m) => Ok(
                Activity::CreateOrUpdatePrivateMessage(
                    CreateOrUpdatePrivateMessage {
                        id: r.id->Some_0,
                        actor: r.actor->Some_0,
                        to: r.to,
                        object: m,
                        kind: if r.kind is Create {
                            CreateOrUpdateType::Create
                        } else {
                            CreateOrUpdateType::Update
                        },
                        unparsed: r.unparsed,
                    },
                ),
            ),
            Err(e) => Err(e),
        }
    } else {
        Err(FederationError::MalformedEnvelope)
    }
}

/// What `decode` returns: the activity selected by the type discriminator,
/// or `MalformedEnvelope` where a required field is missing, a present
/// recipient list is empty, or the top-level kind is unknown.
pub open spec fn spec_decode(r: Raw) -> Result<Activity, FederationError> {
    match r.kind {
        KindTag::Follow => match spec_to_inner(r) {
            Some(i) => match spec_decode_follow(i) {
                Ok(a) => Ok(Activity::Follow(a)),
                Err(e) => Err(e),
            },
            None => Err(FederationError::MalformedEnvelope),
        },
        KindTag::Accept => match spec_to_inner(r) {
            Some(i) => match spec_decode_accept(i) {
                Ok(a) => Ok(Activity::Accept(a)),
                Err(e) => Err(e),
            },
            None => Err(FederationError::MalformedEnvelope),
        },
        KindTag::Announce => match spec_to_inner(r) {
            Some(i) => match spec_decode_announce(i) {
                Ok(a) => Ok(Activity::Announce(a)),
                Err(e) => Err(e),
            },
            None => Err(FederationError::MalformedEnvelope),
        },
        KindTag::Delete => match spec_to_inner(r) {
            Some(i) => match spec_decode_delete(i) {
                Ok(a) => Ok(Activity::Delete(a)),
                Err(e) => Err(e),
            },
            None => Err(FederationError::MalformedEnvelope),
        },
        KindTag::Like | KindTag::Dislike => match spec_to_inner(r) {
            Some(i) => match spec_decode_vote(i) {
                Ok(a) => Ok(Activity::Vote(a)),
                Err(e) => Err(e),
            },
            None => Err(FederationError::MalformedEnvelope),
        },
        KindTag::Block => match spec_to_inner(r) {
            Some(i) => match spec_decode_block(i) {
                Ok(a) => Ok(Activity::Block(a)),
                Err(e) => Err(e),
            },
            None => Err(FederationError::MalformedEnvelope),
        },
        KindTag::Undo => spec_decode_undo(r),
        KindTag::Create | KindTag::Update => spec_decode_create_or_update(r),
        _ => Err(FederationError::MalformedEnvelope),
    }
}

// ---------------------------------------------------------------------
// Encoding, specification level.

pub open spec fn spec_encode_follow(f: Follow) -> InnerRaw {
    InnerRaw {
        kind: KindTag::Follow,
        id: Some(f.id),
        actor: Some(f.actor),
        to: f.to,
        cc: Recipients::Absent,
        object: InnerObject::Id(f.object),
        target: None,
        summary: None,
        content: None,
        attributed_to: None,
        published: None,
        unparsed: f.unparsed,
    }
}

pub open spec fn spec_encode_accept(a: Accept) -> InnerRaw {
    InnerRaw {
        kind: KindTag::Accept,
        id: Some(a.id),
        actor: Some(a.actor),
        to: a.to,
        cc: Recipients::Absent,
        object: InnerObject::Id(a.object),
        target: None,
        summary: None,
        content: None,
        attributed_to: None,
        published: None,
        unparsed: a.unparsed,
    }
}

pub open spec fn spec_encode_announce(a: Announce) -> InnerRaw {
    InnerRaw {
        kind: KindTag::Announce,
        id: Some(a.id),
        actor: Some(a.actor),
        to: a.to,
        cc: a.cc,
        object: InnerObject::Id(a.object),
        target: None,
        summary: None,
        content: None,
        attributed_to: None,
        published: None,
        unparsed: a.unparsed,
    }
}

pub open spec fn spec_encode_delete(d: Delete) -> InnerRaw {
    InnerRaw {
        kind: KindTag::Delete,
        id: Some(d.id),
        actor: Some(d.actor),
        to: d.to,
        cc: d.cc,
        object: match d.object {
            IdOrNestedObject::Id(u) => InnerObject::Id(u),
            IdOrNestedObject::Nested(t) => InnerObject::Tombstone(t.id),
        },
        target: None,
        summary: d.summary,
        content: None,
        attributed_to: None,
        published: None,
        unparsed: d.unparsed,
    }
}

pub open spec fn spec_encode_vote(v: Vote) -> InnerRaw {
    InnerRaw {
        kind: match v.kind {
            VoteType::Like => KindTag::Like,
            VoteType::Dislike => KindTag::Dislike,
        },
        id: Some(v.id),
        actor: Some(v.actor),
        to: v.to,
        cc: Recipients::Absent,
        object: InnerObject::Id(v.object),
        target: None,
        summary: None,
        content: None,
        attributed_to: None,
        published: None,
        unparsed: v.unparsed,
    }
}

pub open spec fn spec_encode_block(b: BlockUserFromCommunity) -> InnerRaw {
    InnerRaw {
        kind: KindTag::Block,
        id: Some(b.id),
        actor: Some(b.actor),
        to: b.to,
        cc: Recipients::Absent,
        object: InnerObject::Id(b.object),
        target: Some(b.target),
        summary: None,
        content: None,
        attributed_to: None,
        published: None,
        unparsed: b.unparsed,
    }
}

pub open spec fn spec_encode_chat(m: ChatMessage) -> InnerRaw {
    InnerRaw {
        kind: KindTag::ChatMessage,
        id: Some(m.id),
        actor: None,
        to: Recipients::One(m.to),
        cc: Recipients::Absent,
        object: InnerObject::Missing,
        target: None,
        summary: None,
        content: Some(m.content),
        attributed_to: Some(m.attributed_to),
        published: m.published,
        unparsed: m.unparsed,
    }
}

/// Lifts a nested-form object to the top level.
pub open spec fn spec_inner_to_raw(i: InnerRaw) -> Raw {
    Raw {
        kind: i.kind,
        id: i.id,
        actor: i.actor,
        to: i.to,
        cc: i.cc,
        object: match i.object {
            InnerObject::Missing => RawObject::Missing,
            InnerObject::Id(u) => RawObject::Id(u),
            InnerObject::Tombstone(t) => RawObject::Tombstone(t),
        },
        target: i.target,
        summary: i.summary,
        content: i.content,
        attributed_to: i.attributed_to,
        published: i.published,
        unparsed: i.unparsed,
    }
}

/// What `encode` emits for each activity kind.
pub open spec fn spec_encode(a: Activity) -> Raw {
    match a {
        Activity::Follow(f) => spec_inner_to_raw(spec_encode_follow(f)),
        Activity::Accept(x) => spec_inner_to_raw(spec_encode_accept(x)),
        Activity::Announce(x) => spec_inner_to_raw(spec_encode_announce(x)),
        Activity::Delete(d) => spec_inner_to_raw(spec_encode_delete(d)),
        Activity::Vote(v) => spec_inner_to_raw(spec_encode_vote(v)),
        Activity::Block(b) => spec_inner_to_raw(spec_encode_block(b)),
        Activity::UndoFollow(u) => Raw {
            kind: KindTag::Undo,
            id: Some(u.id),
            actor: Some(u.actor),
            to: u.to,
            cc: u.cc,
            object: RawObject::Nested(spec_encode_follow(u.object)),
            target: None,
            summary: None,
            content: None,
            attributed_to: None,
            published: None,
            unparsed: u.unparsed,
        },
        Activity::UndoVote(u) => Raw {
            kind: KindTag::Undo,
            id: Some(u.id),
            actor: Some(u.actor),
            to: u.to,
            cc: u.cc,
            object: RawObject::Nested(spec_encode_vote(u.object)),
            target: None,
            summary: None,
            content: None,
            attributed_to: None,
            published: None,
            unparsed: u.unparsed,
        },
        Activity::UndoDelete(u) => Raw {
            kind: KindTag::Undo,
            id: Some(u.id),
            actor: Some(u.actor),
            to: u.to,
            cc: u.cc,
            object: RawObject::Nested(spec_encode_delete(u.object)),
            target: None,
            summary: None,
            content: None,
            attributed_to: None,
            published: None,
            unparsed: u.unparsed,
        },
        Activity::UndoBlock(u) => Raw {
            kind: KindTag::Undo,
            id: Some(u.id),
            actor: Some(u.actor),
            to: u.to,
            cc: u.cc,
            object: RawObject::Nested(spec_encode_block(u.object)),
            target: None,
            summary: None,
            content: None,
            attributed_to: None,
            published: None,
            unparsed: u.unparsed,
        },
        Activity::CreateOrUpdatePrivateMessage(c) => Raw {
            kind: match c.kind {
                CreateOrUpdateType::Create => KindTag::Create,
                CreateOrUpdateType::Update => KindTag::Update,
            },
            id: Some(c.id),
            actor: Some(c.actor),
            to: c.to,
            cc: Recipients::Absent,
            object: RawObject::Nested(spec_encode_chat(c.object)),
            target: None,
            summary: None,
            content: None,
            attributed_to: None,
            published: None,
            unparsed: c.unparsed,
        },
    }
}

/// Round trip: decoding what `encode` emitted reproduces the activity,
/// extension-bag fields included, for every well-formed activity of every
/// supported kind.
pub proof fn lemma_round_trip(a: Activity)
    requires
        a.wf(),
    ensures
        spec_decode(spec_encode(a)) == Ok::<Activity, FederationError>(a),
{
    match a {
        Activity::Follow(f) => {
            assert(spec_decode_follow(spec_encode_follow(f)) == Ok::<
                Follow,
                FederationError,
            >(f));
        },
        Activity::Accept(x) => {
            assert(spec_decode_accept(spec_encode_accept(x)) == Ok::<
                Accept,
                FederationError,
            >(x));
        },
        Activity::Announce(x) => {
            assert(spec_decode_announce(spec_encode_announce(x)) == Ok::<
                Announce,
                FederationError,
            >(x));
        },
        Activity::Delete(d) => {
            assert(spec_decode_delete(spec_encode_delete(d)) == Ok::<
                Delete,
                FederationError,
            >(d));
        },
        Activity::Vote(v) => {
            assert(spec_decode_vote(spec_encode_vote(v)) == Ok::<Vote, FederationError>(v));
        },
        Activity::Block(b) => {
            assert(spec_decode_block(spec_encode_block(b)) == Ok::<
                BlockUserFromCommunity,
                FederationError,
            >(b));
        },
        Activity::UndoFollow(u) => {
            assert(spec_decode_follow(spec_encode_follow(u.object)) == Ok::<
                Follow,
                FederationError,
            >(u.object));
        },
        Activity::UndoVote(u) => {
            assert(spec_decode_vote(spec_encode_vote(u.object)) == Ok::<
                Vote,
                FederationError,
            >(u.object));
        },
        Activity::UndoDelete(u) => {
            assert(spec_decode_delete(spec_encode_delete(u.object)) == Ok::<
                Delete,
                FederationError,
            >(u.object));
        },
        Activity::UndoBlock(u) => {
            assert(spec_decode_block(spec_encode_block(u.object)) == Ok::<
                BlockUserFromCommunity,
                FederationError,
            >(u.object));
        },
        Activity::CreateOrUpdatePrivateMessage(c) => {
            assert(spec_decode_chat(spec_encode_chat(c.object)) == Ok::<
                ChatMessage,
                FederationError,
            >(c.object));
        },
    }
}

// ---------------------------------------------------------------------
// Executable codec.

/// Whether a present recipient list is non-empty.
fn recipients_ok(r: &Recipients) -> (b: bool)
    ensures
        b == r.wf(),
{
    match r {
        Recipients::Many(l) => l.len() > 0,
        _ => true,
    }
}

fn to_inner(r: Raw) -> (res: Option<InnerRaw>)
    ensures
        res == spec_to_inner(r),
{
    let Raw { kind, id, actor, to, cc, object, target, summary, content, attributed_to, published, unparsed } =
        r;
    let inner_object = match object {
        RawObject::Missing => InnerObject::Missing,
        RawObject::Id(u) => InnerObject::Id(u),
        RawObject::Tombstone(t) => InnerObject::Tombstone(t),
        RawObject::Nested(_) => {
            return None;
        },
    };
    Some(
        InnerRaw {
            kind,
            id,
            actor,
            to,
            cc,
            object: inner_object,
            target,
            summary,
            content,
            attributed_to,
            published,
            unparsed,
        },
    )
}

fn decode_follow(i: InnerRaw) -> (res: Result<Follow, FederationError>)
    ensures
        res == spec_decode_follow(i),
{
    if !recipients_ok(&i.to) {
        return Err(FederationError::MalformedEnvelope);
    }
    match (i.id, i.actor, i.object) {
        (Some(id), Some(actor), InnerObject::Id(object)) => Ok(
            Follow { id, actor, to: i.to, object, unparsed: i.unparsed },
        ),
        _ => Err(FederationError::MalformedEnvelope),
    }
}

fn decode_accept(i: InnerRaw) -> (res: Result<Accept, FederationError>)
    ensures
        res == spec_decode_accept(i),
{
    if !recipients_ok(&i.to) {
        return Err(FederationError::MalformedEnvelope);
    }
    match (i.id, i.actor, i.object) {
        (Some(id), Some(actor), InnerObject::Id(object)) => Ok(
            Accept { id, actor, to: i.to, object, unparsed: i.unparsed },
        ),
        _ => Err(FederationError::MalformedEnvelope),
    }
}

fn decode_announce(i: InnerRaw) -> (res: Result<Announce, FederationError>)
    ensures
        res == spec_decode_announce(i),
{
    if !recipients_ok(&i.to) || !recipients_ok(&i.cc) {
        return Err(FederationError::MalformedEnvelope);
    }
    match (i.id, i.actor, i.object) {
        (Some(id), Some(actor), InnerObject::Id(object)) => Ok(
            Announce { id, actor, to: i.to, cc: i.cc, object, unparsed: i.unparsed },
        ),
        _ => Err(FederationError::MalformedEnvelope),
    }
}

fn decode_delete(i: InnerRaw) -> (res: Result<Delete, FederationError>)
    ensures
        res == spec_decode_delete(i),
{
    if !recipients_ok(&i.to) || !recipients_ok(&i.cc) {
        return Err(FederationError::MalformedEnvelope);
    }
    match (i.id, i.actor) {
        (Some(id), Some(actor)) => {
            let object = match i.object {
                InnerObject::Id(u) => IdOrNestedObject::Id(u),
                InnerObject::Tombstone(t) => IdOrNestedObject::Nested(MinimalTombstone { id: t }),
                InnerObject::Missing => {
                    return Err(FederationError::MalformedEnvelope);
                },
            };
            Ok(
                Delete {
                    id,
                    actor,
                    to: i.to,
                    cc: i.cc,
                    object,
                    summary: i.summary,
                    unparsed: i.unparsed,
                },
            )
        },
        _ => Err(FederationError::MalformedEnvelope),
    }
}

fn decode_vote(i: InnerRaw) -> (res: Result<Vote, FederationError>)
    ensures
        res == spec_decode_vote(i),
{
    if !recipients_ok(&i.to) {
        return Err(FederationError::MalformedEnvelope);
    }
    let kind = match i.kind {
        KindTag::Like => VoteType::Like,
        KindTag::Dislike => VoteType::Dislike,
        _ => {
            return Err(FederationError::MalformedEnvelope);
        },
    };
    match (i.id, i.actor, i.object) {
        (Some(id), Some(actor), InnerObject::Id(object)) => Ok(
            Vote { id, actor, to: i.to, object, kind, unparsed: i.unparsed },
        ),
        _ => Err(FederationError::MalformedEnvelope),
    }
}

fn decode_block(i: InnerRaw) -> (res: Result<BlockUserFromCommunity, FederationError>)
    ensures
        res == spec_decode_block(i),
{
    if !recipients_ok(&i.to) {
        return Err(FederationError::MalformedEnvelope);
    }
    match (i.id, i.actor, i.object, i.target) {
        (Some(id), Some(actor), InnerObject::Id(object), Some(target)) => Ok(
            BlockUserFromCommunity { id, actor, to: i.to, object, target, unparsed: i.unparsed },
        ),
        _ => Err(FederationError::MalformedEnvelope),
    }
}

fn decode_chat(i: InnerRaw) -> (res: Result<ChatMessage, FederationError>)
    ensures
        res == spec_decode_chat(i),
{
    match i.kind {
        KindTag::ChatMessage => {},
        _ => {
            return Err(FederationError::MalformedEnvelope);
        },
    }
    match (i.id, i.attributed_to, i.to, i.content) {
        (Some(id), Some(attributed_to), Recipients::One(to), Some(content)) => Ok(
            ChatMessage {
                kind: ChatMessageType::ChatMessage,
                id,
                attributed_to,
                to,
                content,
                published: i.published,
                unparsed: i.unparsed,
            },
        ),
        _ => Err(FederationError::MalformedEnvelope),
    }
}

/// Decodes one wire object into an activity of the closed kind set.
/// Returns `MalformedEnvelope` exactly where `spec_decode` says so:
/// unknown top-level kind, a missing required field, or an empty present
/// recipient list.
pub fn decode(r: Raw) -> (res: Result<Activity, FederationError>)
    ensures
        res == spec_decode(r),
{
    match r.kind {
        KindTag::Follow => match to_inner(r) {
            Some(i) => match decode_follow(i) {
                Ok(a) => Ok(Activity::Follow(a)),
                Err(e) => Err(e),
            },
            None => Err(FederationError::MalformedEnvelope),
        },
        KindTag::Accept => match to_inner(r) {
            Some(i) => match decode_accept(i) {
                Ok(a) => Ok(Activity::Accept(a)),
                Err(e) => Err(e),
            },
            None => Err(FederationError::MalformedEnvelope),
        },
        KindTag::Announce => match to_inner(r) {
            Some(i) => match decode_announce(i) {
                Ok(a) => Ok(Activity::Announce(a)),
                Err(e) => Err(e),
            },
            None => Err(FederationError::MalformedEnvelope),
        },
        KindTag::Delete => match to_inner(r) {
            Some(i) => match decode_delete(i) {
                Ok(a) => Ok(Activity::Delete(a)),
                Err(e) => Err(e),
            },
            None => Err(FederationError::MalformedEnvelope),
        },
        KindTag::Like | KindTag::Dislike => match to_inner(r) {
            Some(i) => match decode_vote(i) {
                Ok(a) => Ok(Activity::Vote(a)),
                Err(e) => Err(e),
            },
            None => Err(FederationError::MalformedEnvelope),
        },
        KindTag::Block => match to_inner(r) {
            Some(i) => match decode_block(i) {
                Ok(a) => Ok(Activity::Block(a)),
                Err(e) => Err(e),
            },
            None => Err(FederationError::MalformedEnvelope),
        },
        KindTag::Undo => decode_undo(r),
        KindTag::Create | KindTag::Update => decode_create_or_update(r),
        _ => Err(FederationError::MalformedEnvelope),
    }
}

fn decode_undo(r: Raw) -> (res: Result<Activity, FederationError>)
    requires
        r.kind is Undo,
    ensures
        res == spec_decode_undo(r),
{
    if !recipients_ok(&r.to) || !recipients_ok(&r.cc) {
        return Err(FederationError::MalformedEnvelope);
    }
    match (r.id, r.actor, r.object) {
        (Some(id), Some(actor), RawObject::Nested(i)) => match i.kind {
            KindTag::Follow => match decode_follow(i) {
                Ok(f) => Ok(
                    Activity::UndoFollow(
                        UndoFollow {
                            id,
                            actor,
                            to: r.to,
                            cc: r.cc,
                            object: f,
                            unparsed: r.unparsed,
                        },
                    ),
                ),
                Err(e) => Err(e),
            },
            KindTag::Like | KindTag::Dislike => match decode_vote(i) {
                Ok(v) => Ok(
                    Activity::UndoVote(
                        UndoVote {
                            id,
                            actor,
                            to: r.to,
                            cc: r.cc,
                            object: v,
                            unparsed: r.unparsed,
                        },
                    ),
                ),
                Err(e) => Err(e),
            },
            KindTag::Delete => match decode_delete(i) {
                Ok(d) => Ok(
                    Activity::UndoDelete(
                        UndoDeletePostOrComment {
                            id,
                            actor,
                            to: r.to,
                            cc: r.cc,
                            object: d,
                            unparsed: r.unparsed,
                        },
                    ),
                ),
                Err(e) => Err(e),
            },
            KindTag::Block => match decode_block(i) {
                Ok(b) => Ok(
                    Activity::UndoBlock(
                        UndoBlockUserFromCommunity {
                            id,
                            actor,
                            to: r.to,
                            cc: r.cc,
                            object: b,
                            unparsed: r.unparsed,
                        },
                    ),
                ),
                Err(e) => Err(e),
            },
            _ => Err(FederationError::MalformedEnvelope),
        },
        _ => Err(FederationError::MalformedEnvelope),
    }
}

fn decode_create_or_update(r: Raw) -> (res: Result<Activity, FederationError>)
    requires
        r.kind is Create || r.kind is Update,
    ensures
        res == spec_decode_create_or_update(r),
{
    if !recipients_ok(&r.to) {
        return Err(FederationError::MalformedEnvelope);
    }
    let kind = match r.kind {
        KindTag::Create => CreateOrUpdateType::Create,
        _ => CreateOrUpdateType::Update,
    };
    match (r.id, r.actor, r.object) {
        (Some(id), Some(actor), RawObject::Nested(i)) => match decode_chat(i) {
            Ok(m) => Ok(
                Activity::CreateOrUpdatePrivateMessage(
                    CreateOrUpdatePrivateMessage {
                        id,
                        actor,
                        to: r.to,
                        object: m,
                        kind,
                        unparsed: r.unparsed,
                    },
                ),
            ),
            Err(e) => Err(e),
        },
        _ => Err(FederationError::MalformedEnvelope),
    }
}

fn encode_follow(f: Follow) -> (r: InnerRaw)
    ensures
        r == spec_encode_follow(f),
{
    InnerRaw {
        kind: KindTag::Follow,
        id: Some(f.id),
        actor: Some(f.actor),
        to: f.to,
        cc: Recipients::Absent,
        object: InnerObject::Id(f.object),
        target: None,
        summary: None,
        content: None,
        attributed_to: None,
        published: None,
        unparsed: f.unparsed,
    }
}

fn encode_accept(a: Accept) -> (r: InnerRaw)
    ensures
        r == spec_encode_accept(a),
{
    InnerRaw {
        kind: KindTag::Accept,
        id: Some(a.id),
        actor: Some(a.actor),
        to: a.to,
        cc: Recipients::Absent,
        object: InnerObject::Id(a.object),
        target: None,
        summary: None,
        content: None,
        attributed_to: None,
        published: None,
        unparsed: a.unparsed,
    }
}

fn encode_announce(a: Announce) -> (r: InnerRaw)
    ensures
        r == spec_encode_announce(a),
{
    InnerRaw {
        kind: KindTag::Announce,
        id: Some(a.id),
        actor: Some(a.actor),
        to: a.to,
        cc: a.cc,
        object: InnerObject::Id(a.object),
        target: None,
        summary: None,
        content: None,
        attributed_to: None,
        published: None,
        unparsed: a.unparsed,
    }
}

fn encode_delete(d: Delete) -> (r: InnerRaw)
    ensures
        r == spec_encode_delete(d),
{
    InnerRaw {
        kind: KindTag::Delete,
        id: Some(d.id),
        actor: Some(d.actor),
        to: d.to,
        cc: d.cc,
        object: match d.object {
            IdOrNestedObject::Id(u) => InnerObject::Id(u),
            IdOrNestedObject::Nested(t) => InnerObject::Tombstone(t.id),
        },
        target: None,
        summary: d.summary,
        content: None,
        attributed_to: None,
        published: None,
        unparsed: d.unparsed,
    }
}

fn encode_vote(v: Vote) -> (r: InnerRaw)
    ensures
        r == spec_encode_vote(v),
{
    InnerRaw {
        kind: match v.kind {
            VoteType::Like => KindTag::Like,
            VoteType::Dislike => KindTag::Dislike,
        },
        id: Some(v.id),
        actor: Some(v.actor),
        to: v.to,
        cc: Recipients::Absent,
        object: InnerObject::Id(v.object),
        target: None,
        summary: None,
        content: None,
        attributed_to: None,
        published: None,
        unparsed: v.unparsed,
    }
}

fn encode_block(b: BlockUserFromCommunity) -> (r: InnerRaw)
    ensures
        r == spec_encode_block(b),
{
    InnerRaw {
        kind: KindTag::Block,
        id: Some(b.id),
        actor: Some(b.actor),
        to: b.to,
        cc: Recipients::Absent,
        object: InnerObject::Id(b.object),
        target: Some(b.target),
        summary: None,
        content: None,
        attributed_to: None,
        published: None,
        unparsed: b.unparsed,
    }
}

fn encode_chat(m: ChatMessage) -> (r: InnerRaw)
    ensures
        r == spec_encode_chat(m),
{
    InnerRaw {
        kind: KindTag::ChatMessage,
        id: Some(m.id),
        actor: None,
        to: Recipients::One(m.to),
        cc: Recipients::Absent,
        object: InnerObject::Missing,
        target: None,
        summary: None,
        content: Some(m.content),
        attributed_to: Some(m.attributed_to),
        published: m.published,
        unparsed: m.unparsed,
    }
}

fn inner_to_raw(i: InnerRaw) -> (r: Raw)
    ensures
        r == spec_inner_to_raw(i),
{
    Raw {
        kind: i.kind,
        id: i.id,
        actor: i.actor,
        to: i.to,
        cc: i.cc,
        object: match i.object {
            InnerObject::Missing => RawObject::Missing,
            InnerObject::Id(u) => RawObject::Id(u),
            InnerObject::Tombstone(t) => RawObject::Tombstone(t),
        },
        target: i.target,
        summary: i.summary,
        content: i.content,
        attributed_to: i.attributed_to,
        published: i.published,
        unparsed: i.unparsed,
    }
}

fn undo_raw(id: String, actor: String, to: Recipients, cc: Recipients, object: InnerRaw, unparsed: Unparsed) -> (r: Raw)
    ensures
        (r == Raw {
            kind: KindTag::Undo,
            id: Some(id),
            actor: Some(actor),
            to: to,
            cc: cc,
            object: RawObject::Nested(object),
            target: None::<String>,
            summary: None::<String>,
            content: None::<String>,
            attributed_to: None::<String>,
            published: None::<i64>,
            unparsed: unparsed,
        }),
{
    Raw {
        kind: KindTag::Undo,
        id: Some(id),
        actor: Some(actor),
        to,
        cc,
        object: RawObject::Nested(object),
        target: None,
        summary: None,
        content: None,
        attributed_to: None,
        published: None,
        unparsed,
    }
}

/// Encodes an activity back to its wire object.  `lemma_round_trip`
/// states that `decode` recovers the activity from this image.
pub fn encode(a: Activity) -> (r: Raw)
    ensures
        r == spec_encode(a),
{
    match a {
        Activity::Follow(f) => inner_to_raw(encode_follow(f)),
        Activity::Accept(x) => inner_to_raw(encode_accept(x)),
        Activity::Announce(x) => inner_to_raw(encode_announce(x)),
        Activity::Delete(d) => inner_to_raw(encode_delete(d)),
        Activity::Vote(v) => inner_to_raw(encode_vote(v)),
        Activity::Block(b) => inner_to_raw(encode_block(b)),
        Activity::UndoFollow(u) => undo_raw(
            u.id,
            u.actor,
            u.to,
            u.cc,
            encode_follow(u.object),
            u.unparsed,
        ),
        Activity::UndoVote(u) => undo_raw(
            u.id,
            u.actor,
            u.to,
            u.cc,
            encode_vote(u.object),
            u.unparsed,
        ),
        Activity::UndoDelete(u) => undo_raw(
            u.id,
            u.actor,
            u.to,
            u.cc,
            encode_delete(u.object),
            u.unparsed,
        ),
        Activity::UndoBlock(u) => undo_raw(
            u.id,
            u.actor,
            u.to,
            u.cc,
            encode_block(u.object),
            u.unparsed,
        ),
        Activity::CreateOrUpdatePrivateMessage(c) => Raw {
            kind: match c.kind {
                CreateOrUpdateType::Create => KindTag::Create,
                CreateOrUpdateType::Update => KindTag::Update,
            },
            id: Some(c.id),
            actor: Some(c.actor),
            to: c.to,
            cc: Recipients::Absent,
            object: RawObject::Nested(encode_chat(c.object)),
            target: None,
            summary: None,
            content: None,
            attributed_to: None,
            published: None,
            unparsed: c.unparsed,
        },
    }
}

} // verus!
