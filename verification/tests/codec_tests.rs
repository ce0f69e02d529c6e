//! Round-trip and rejection behavior of the wire codec.

use federation::codec::{decode, encode, InnerObject, KindTag, Raw, RawObject};
use federation::envelope::{
    Accept, Activity, Announce, BlockUserFromCommunity, ChatMessage, ChatMessageType,
    CreateOrUpdatePrivateMessage, CreateOrUpdateType, Delete, Follow, IdOrNestedObject,
    MinimalTombstone, Recipients, UndoBlockUserFromCommunity, UndoDeletePostOrComment, UndoFollow,
    UndoVote, Unparsed, Vote, VoteType,
};
use federation::FederationError;

fn s(x: &str) -> String {
    x.to_string()
}

fn ext() -> Unparsed {
    Unparsed {
        fields: vec![(s("litePub:directMessage"), s("true")), (s("sensitive"), s("false"))],
    }
}

fn no_ext() -> Unparsed {
    Unparsed { fields: vec![] }
}

fn mk_follow() -> Activity {
    Activity::Follow(Follow {
        id: s("https://a.example/activities/follow/1"),
        actor: s("https://a.example/u/alice"),
        to: Recipients::One(s("https://b.example/c/rust")),
        object: s("https://b.example/c/rust"),
        unparsed: ext(),
    })
}

fn mk_accept() -> Activity {
    Activity::Accept(Accept {
        id: s("https://b.example/activities/accept/1"),
        actor: s("https://b.example/c/rust"),
        to: Recipients::One(s("https://a.example/u/alice")),
        object: s("https://a.example/activities/follow/1"),
        unparsed: no_ext(),
    })
}

fn mk_announce() -> Activity {
    Activity::Announce(Announce {
        id: s("https://b.example/activities/announce/1"),
        actor: s("https://b.example/c/rust"),
        to: Recipients::Many(vec![s("https://www.w3.org/ns/activitystreams#Public")]),
        cc: Recipients::Absent,
        object: s("https://a.example/post/7"),
        unparsed: ext(),
    })
}

fn mk_delete(summary: Option<String>) -> Activity {
    Activity::Delete(Delete {
        id: s("https://a.example/activities/delete/1"),
        actor: s("https://a.example/u/alice"),
        to: Recipients::Many(vec![s("https://www.w3.org/ns/activitystreams#Public")]),
        cc: Recipients::Absent,
        object: IdOrNestedObject::Nested(MinimalTombstone {
            id: s("https://a.example/post/7"),
        }),
        summary,
        unparsed: ext(),
    })
}

fn mk_vote() -> Activity {
    Activity::Vote(Vote {
        id: s("https://a.example/activities/like/1"),
        actor: s("https://a.example/u/alice"),
        to: Recipients::Absent,
        object: s("https://b.example/post/9"),
        kind: VoteType::Like,
        unparsed: no_ext(),
    })
}

fn mk_undo_follow() -> Activity {
    let Activity::Follow(f) = mk_follow() else { unreachable!() };
    Activity::UndoFollow(UndoFollow {
        id: s("https://a.example/activities/undo/2"),
        actor: s("https://a.example/u/alice"),
        to: Recipients::One(s("https://b.example/c/rust")),
        cc: Recipients::Many(vec![s("https://b.example/c/rust")]),
        object: f,
        unparsed: no_ext(),
    })
}

fn mk_undo_vote() -> Activity {
    let Activity::Vote(v) = mk_vote() else { unreachable!() };
    Activity::UndoVote(UndoVote {
        id: s("https://a.example/activities/undo/3"),
        actor: s("https://a.example/u/alice"),
        to: Recipients::Absent,
        cc: Recipients::Many(vec![s("https://b.example/c/rust")]),
        object: v,
        unparsed: ext(),
    })
}

fn mk_undo_delete() -> Activity {
    let Activity::Delete(d) = mk_delete(Some(s("spam"))) else { unreachable!() };
    Activity::UndoDelete(UndoDeletePostOrComment {
        id: s("https://a.example/activities/undo/4"),
        actor: s("https://a.example/u/alice"),
        to: Recipients::Many(vec![s("https://www.w3.org/ns/activitystreams#Public")]),
        cc: Recipients::Absent,
        object: d,
        unparsed: no_ext(),
    })
}

fn mk_block() -> Activity {
    Activity::Block(BlockUserFromCommunity {
        id: s("https://b.example/activities/block/1"),
        actor: s("https://b.example/u/mod"),
        to: Recipients::One(s("https://a.example/u/alice")),
        object: s("https://a.example/u/alice"),
        target: s("https://b.example/c/rust"),
        unparsed: no_ext(),
    })
}

fn mk_undo_block() -> Activity {
    let Activity::Block(b) = mk_block() else { unreachable!() };
    Activity::UndoBlock(UndoBlockUserFromCommunity {
        id: s("https://b.example/activities/undo/5"),
        actor: s("https://b.example/u/mod"),
        to: Recipients::One(s("https://a.example/u/alice")),
        cc: Recipients::One(s("https://b.example/c/rust")),
        object: b,
        unparsed: ext(),
    })
}

fn mk_chat() -> Activity {
    Activity::CreateOrUpdatePrivateMessage(CreateOrUpdatePrivateMessage {
        id: s("https://a.example/activities/create/1"),
        actor: s("https://a.example/u/alice"),
        to: Recipients::One(s("https://b.example/u/bob")),
        object: ChatMessage {
            kind: ChatMessageType::ChatMessage,
            id: s("https://a.example/private_message/1"),
            attributed_to: s("https://a.example/u/alice"),
            to: s("https://b.example/u/bob"),
            content: s("hello over the wire"),
            published: Some(1_650_000_000),
            unparsed: ext(),
        },
        kind: CreateOrUpdateType::Create,
        unparsed: no_ext(),
    })
}

#[test]
fn round_trip_every_kind() {
    let make: Vec<fn() -> Activity> = vec![
        mk_follow,
        mk_accept,
        mk_announce,
        || mk_delete(Some("spam".to_string())),
        || mk_delete(None),
        mk_vote,
        mk_undo_follow,
        mk_undo_vote,
        mk_undo_delete,
        mk_block,
        mk_undo_block,
        mk_chat,
    ];
    for mk in make {
        let a = mk();
        let b = mk();
        assert_eq!(decode(encode(a)), Ok(b));
    }
}

#[test]
fn round_trip_keeps_extension_bag() {
    let Activity::Follow(f) = decode(encode(mk_follow())).unwrap() else {
        panic!("wrong kind");
    };
    assert_eq!(f.unparsed, ext());
}

#[test]
fn unknown_top_level_kind_rejected() {
    let r = Raw {
        kind: KindTag::Unknown,
        id: Some(s("https://a.example/x/1")),
        actor: Some(s("https://a.example/u/alice")),
        to: Recipients::Absent,
        cc: Recipients::Absent,
        object: RawObject::Id(s("https://a.example/y/2")),
        target: None,
        summary: None,
        content: None,
        attributed_to: None,
        published: None,
        unparsed: Unparsed { fields: vec![] },
    };
    assert_eq!(decode(r), Err(FederationError::MalformedEnvelope));
}

#[test]
fn missing_required_field_rejected() {
    let r = Raw {
        kind: KindTag::Follow,
        id: Some(s("https://a.example/x/1")),
        actor: None,
        to: Recipients::Absent,
        cc: Recipients::Absent,
        object: RawObject::Id(s("https://a.example/y/2")),
        target: None,
        summary: None,
        content: None,
        attributed_to: None,
        published: None,
        unparsed: Unparsed { fields: vec![] },
    };
    assert_eq!(decode(r), Err(FederationError::MalformedEnvelope));
}

#[test]
fn empty_present_recipient_list_rejected() {
    let r = Raw {
        kind: KindTag::Follow,
        id: Some(s("https://a.example/x/1")),
        actor: Some(s("https://a.example/u/alice")),
        to: Recipients::Many(vec![]),
        cc: Recipients::Absent,
        object: RawObject::Id(s("https://a.example/y/2")),
        target: None,
        summary: None,
        content: None,
        attributed_to: None,
        published: None,
        unparsed: Unparsed { fields: vec![] },
    };
    assert_eq!(decode(r), Err(FederationError::MalformedEnvelope));
}

#[test]
fn singular_recipient_accepted_and_normalized() {
    let r = Raw {
        kind: KindTag::Follow,
        id: Some(s("https://a.example/x/1")),
        actor: Some(s("https://a.example/u/alice")),
        to: Recipients::One(s("https://b.example/c/rust")),
        cc: Recipients::Absent,
        object: RawObject::Id(s("https://b.example/c/rust")),
        target: None,
        summary: None,
        content: None,
        attributed_to: None,
        published: None,
        unparsed: Unparsed { fields: vec![] },
    };
    let Activity::Follow(f) = decode(r).unwrap() else {
        panic!("wrong kind");
    };
    assert_eq!(f.to.to_list(), vec![s("https://b.example/c/rust")]);
    assert_eq!(Recipients::Absent.to_list(), Vec::<String>::new());
    assert_eq!(
        Recipients::Many(vec![s("a"), s("b")]).to_list(),
        vec![s("a"), s("b")]
    );
}

#[test]
fn undo_embeds_nested_wire_object() {
    let raw = encode(mk_undo_vote());
    assert!(matches!(raw.kind, KindTag::Undo));
    match &raw.object {
        RawObject::Nested(i) => {
            assert!(matches!(i.kind, KindTag::Like));
            assert!(matches!(&i.object, InnerObject::Id(u) if u == "https://b.example/post/9"));
        }
        other => panic!("expected nested object, got {:?}", other),
    }
}
