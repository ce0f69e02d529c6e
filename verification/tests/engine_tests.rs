//! Behavior of the apply engine, the verification engine, the resolver,
//! the dispatch planner, the transport gate and the whole pipeline, on
//! concrete values.

use federation::apply::apply;
use federation::codec::encode;
use federation::dispatch::{inbox_targets, next_retry, DeliveryFailure, RetryDecision};
use federation::envelope::{
    Activity, BlockUserFromCommunity, Delete, Follow, IdOrNestedObject, Recipients,
    UndoDeletePostOrComment, UndoFollow, UndoVote, Unparsed, Vote, VoteType,
};
use federation::gate::{verify_digest, InboxRequestGuard};
use sha2::Digest;
use federation::local_user::{LocalUser, LocalUserForm};
use federation::pipeline::{process_inbound, InboundRequest, Outcome};
use federation::resolver::{resolve, Entity, Resolution};
use federation::storage::{DeleteFlags, Storage};
use federation::table::Table;
use federation::verify::verify;
use federation::FederationError;

fn s(x: &str) -> String {
    x.to_string()
}

fn no_ext() -> Unparsed {
    Unparsed { fields: vec![] }
}

fn sha256(bytes: &[u8]) -> Vec<u8> {
    sha2::Sha256::digest(bytes).to_vec()
}

const ALICE: &str = "https://a.example/u/alice";
const RUST: &str = "https://b.example/c/rust";
const POST: &str = "https://b.example/post/9";

fn follow(id: &str) -> Follow {
    Follow {
        id: s(id),
        actor: s(ALICE),
        to: Recipients::One(s(RUST)),
        object: s(RUST),
        unparsed: no_ext(),
    }
}

fn vote(id: &str, kind: VoteType) -> Vote {
    Vote {
        id: s(id),
        actor: s(ALICE),
        to: Recipients::Absent,
        object: s(POST),
        kind,
        unparsed: no_ext(),
    }
}

fn delete(id: &str, target: &str, summary: Option<String>) -> Delete {
    Delete {
        id: s(id),
        actor: s(ALICE),
        to: Recipients::Absent,
        cc: Recipients::Absent,
        object: IdOrNestedObject::Id(s(target)),
        summary,
        unparsed: no_ext(),
    }
}

#[test]
fn follow_creates_edge_and_undo_removes_it() {
    let mut st = Storage::new();
    let alice = s(ALICE);
    apply(&mut st, &Activity::Follow(follow("https://a.example/act/u1")));
    assert_eq!(st.subscriptions(&alice), vec![s(RUST)]);
    let u = UndoFollow {
        id: s("https://a.example/act/u2"),
        actor: s(ALICE),
        to: Recipients::One(s(RUST)),
        cc: Recipients::Absent,
        object: follow("https://a.example/act/u1"),
        unparsed: no_ext(),
    };
    apply(&mut st, &Activity::UndoFollow(u));
    assert_eq!(st.subscriptions(&alice), Vec::<String>::new());
}

#[test]
fn apply_is_idempotent_for_every_transition() {
    let mut st = Storage::new();
    let alice = s(ALICE);
    let post = s(POST);
    let acts = vec![
        Activity::Follow(follow("https://a.example/act/1")),
        Activity::Vote(vote("https://a.example/act/2", VoteType::Like)),
        Activity::Delete(delete("https://a.example/act/3", POST, Some(s("spam")))),
    ];
    for a in &acts {
        apply(&mut st, a);
    }
    let subs_once = st.subscriptions(&alice);
    let vote_once = st.vote_of(&alice, &post);
    let flags_once = st.flags_of(&post);
    for a in &acts {
        apply(&mut st, a);
    }
    assert_eq!(st.subscriptions(&alice), subs_once);
    assert_eq!(st.vote_of(&alice, &post), vote_once);
    assert_eq!(st.flags_of(&post), flags_once);

    let undos = vec![
        Activity::UndoFollow(UndoFollow {
            id: s("https://a.example/act/4"),
            actor: s(ALICE),
            to: Recipients::Absent,
            cc: Recipients::Absent,
            object: follow("https://a.example/act/1"),
            unparsed: no_ext(),
        }),
        Activity::UndoVote(UndoVote {
            id: s("https://a.example/act/5"),
            actor: s(ALICE),
            to: Recipients::Absent,
            cc: Recipients::Absent,
            object: vote("https://a.example/act/2", VoteType::Like),
            unparsed: no_ext(),
        }),
        Activity::UndoDelete(UndoDeletePostOrComment {
            id: s("https://a.example/act/6"),
            actor: s(ALICE),
            to: Recipients::Absent,
            cc: Recipients::Absent,
            object: delete("https://a.example/act/3", POST, Some(s("spam"))),
            unparsed: no_ext(),
        }),
    ];
    for a in &undos {
        apply(&mut st, a);
        apply(&mut st, a);
    }
    assert_eq!(st.subscriptions(&alice), Vec::<String>::new());
    assert_eq!(st.vote_of(&alice, &post), None);
    assert_eq!(
        st.flags_of(&post),
        DeleteFlags { deleted: false, moderation: false }
    );
}

#[test]
fn vote_upsert_replaces_prior_vote_and_undo_removes_it() {
    let mut st = Storage::new();
    let alice = s(ALICE);
    let post = s(POST);
    apply(&mut st, &Activity::Vote(vote("https://a.example/act/10", VoteType::Like)));
    assert_eq!(st.vote_of(&alice, &post), Some(VoteType::Like));
    apply(&mut st, &Activity::Vote(vote("https://a.example/act/11", VoteType::Dislike)));
    assert_eq!(st.vote_of(&alice, &post), Some(VoteType::Dislike));
    apply(
        &mut st,
        &Activity::UndoVote(UndoVote {
            id: s("https://a.example/act/12"),
            actor: s(ALICE),
            to: Recipients::Absent,
            cc: Recipients::Absent,
            object: vote("https://a.example/act/11", VoteType::Dislike),
            unparsed: no_ext(),
        }),
    );
    assert_eq!(st.vote_of(&alice, &post), None);
}

#[test]
fn delete_reason_sets_moderation_flag_and_undo_clears_both() {
    let mut st = Storage::new();
    let p1 = s("https://b.example/post/1");
    let p2 = s("https://b.example/post/2");
    apply(
        &mut st,
        &Activity::Delete(delete("https://a.example/act/20", "https://b.example/post/1", Some(s("spam")))),
    );
    apply(
        &mut st,
        &Activity::Delete(delete("https://a.example/act/21", "https://b.example/post/2", None)),
    );
    assert_eq!(st.flags_of(&p1), DeleteFlags { deleted: true, moderation: true });
    assert_eq!(st.flags_of(&p2), DeleteFlags { deleted: true, moderation: false });
    for (act, target) in [("https://a.example/act/22", &p1), ("https://a.example/act/23", &p2)] {
        apply(
            &mut st,
            &Activity::UndoDelete(UndoDeletePostOrComment {
                id: s(act),
                actor: s(ALICE),
                to: Recipients::Absent,
                cc: Recipients::Absent,
                object: delete("x", target, None),
                unparsed: no_ext(),
            }),
        );
    }
    assert_eq!(st.flags_of(&p1), DeleteFlags { deleted: false, moderation: false });
    assert_eq!(st.flags_of(&p2), DeleteFlags { deleted: false, moderation: false });
}

#[test]
fn verify_rejects_cross_authority_and_foreign_undo() {
    let st = Storage::new();
    let now = 1_650_000_000;
    assert_eq!(
        verify(&Activity::Follow(follow("https://a.example/act/1")), &st, now),
        Ok(())
    );
    let mut f = follow("https://a.example/act/1");
    f.id = s("https://evil.example/act/1");
    assert_eq!(
        verify(&Activity::Follow(f), &st, now),
        Err(FederationError::AuthorizationFailure)
    );
    let mut u = UndoFollow {
        id: s("https://a.example/act/2"),
        actor: s(ALICE),
        to: Recipients::Absent,
        cc: Recipients::Absent,
        object: follow("https://a.example/act/1"),
        unparsed: no_ext(),
    };
    u.object.actor = s("https://a.example/u/eve");
    assert_eq!(
        verify(&Activity::UndoFollow(u), &st, now),
        Err(FederationError::AuthorizationFailure)
    );
    let bad = Follow {
        id: s("not a url"),
        actor: s(ALICE),
        to: Recipients::Absent,
        object: s(RUST),
        unparsed: no_ext(),
    };
    assert_eq!(
        verify(&Activity::Follow(bad), &st, now),
        Err(FederationError::MalformedEnvelope)
    );
}

#[test]
fn verify_rejects_blocked_follower() {
    let mut st = Storage::new();
    let now = 1_650_000_000;
    apply(
        &mut st,
        &Activity::Block(BlockUserFromCommunity {
            id: s("https://b.example/act/b1"),
            actor: s("https://b.example/u/mod"),
            to: Recipients::Absent,
            object: s(ALICE),
            target: s(RUST),
            unparsed: no_ext(),
        }),
    );
    assert!(st.is_blocked(&s(ALICE), &s(RUST)));
    assert_eq!(
        verify(&Activity::Follow(follow("https://a.example/act/1")), &st, now),
        Err(FederationError::AuthorizationFailure)
    );
}

#[test]
fn verify_rejects_undo_and_delete_from_barred_actor() {
    let mut st = Storage::new();
    let now = 1_650_000_000;
    apply(
        &mut st,
        &Activity::Block(BlockUserFromCommunity {
            id: s("https://b.example/act/b2"),
            actor: s("https://b.example/u/mod"),
            to: Recipients::Absent,
            object: s(ALICE),
            target: s(RUST),
            unparsed: no_ext(),
        }),
    );
    let mut d = delete("https://a.example/act/40", POST, None);
    d.cc = Recipients::One(s(RUST));
    assert_eq!(
        verify(&Activity::Delete(d), &st, now),
        Err(FederationError::AuthorizationFailure)
    );
    let mut ud = UndoDeletePostOrComment {
        id: s("https://a.example/act/41"),
        actor: s(ALICE),
        to: Recipients::Absent,
        cc: Recipients::One(s(RUST)),
        object: delete("https://a.example/act/40", POST, None),
        unparsed: no_ext(),
    };
    ud.object.cc = Recipients::One(s(RUST));
    assert_eq!(
        verify(&Activity::UndoDelete(ud), &st, now),
        Err(FederationError::AuthorizationFailure)
    );
    let unrelated = delete("https://a.example/act/42", POST, None);
    assert_eq!(verify(&Activity::Delete(unrelated), &st, now), Ok(()));
}

#[test]
fn cyclic_object_graph_exhausts_budget_and_stops() {
    let st = Storage::new();
    let mut table: Table<Entity> = Table::new();
    let a = s("https://x.example/comment/a");
    let b = s("https://x.example/post/b");
    table.upsert(
        a.clone(),
        String::new(),
        Entity::Comment { id: a.clone(), post: b.clone() },
    );
    table.upsert(
        b.clone(),
        String::new(),
        Entity::Post { id: b.clone(), community: a.clone() },
    );
    let budget: u32 = 7;
    let (res, remaining) = resolve(&st, &table, &a, budget);
    assert_eq!(res, Resolution::Exceeded);
    assert_eq!(remaining, 0);
}

#[test]
fn resolution_needs_fetch_then_succeeds() {
    let st = Storage::new();
    let mut table: Table<Entity> = Table::new();
    let c = s("https://x.example/comment/c");
    let p = s("https://x.example/post/p");
    let community = s("https://x.example/c/q");
    table.upsert(c.clone(), String::new(), Entity::Comment { id: c.clone(), post: p.clone() });
    let (res, _) = resolve(&st, &table, &c, 10);
    assert_eq!(res, Resolution::NeedFetch(p.clone()));
    table.upsert(
        p.clone(),
        String::new(),
        Entity::Post { id: p.clone(), community: community.clone() },
    );
    table.upsert(community.clone(), String::new(), Entity::Community { id: community.clone() });
    let (res, remaining) = resolve(&st, &table, &c, 10);
    assert_eq!(res, Resolution::Found);
    assert_eq!(remaining, 7);
}

#[test]
fn cached_resolution_costs_no_budget() {
    let mut st = Storage::new();
    let table: Table<Entity> = Table::new();
    let p = s("https://x.example/post/p");
    st.cache_put(p.clone(), Entity::Post { id: p.clone(), community: s("https://x.example/c/q") });
    let (res, remaining) = resolve(&st, &table, &p, 0);
    assert_eq!(res, Resolution::Found);
    assert_eq!(remaining, 0);
}

#[test]
fn pipeline_reports_recursion_exceeded() {
    let mut st = Storage::new();
    let mut table: Table<Entity> = Table::new();
    let p1 = s("https://b.example/post/9");
    let p2 = s("https://b.example/post/8");
    table.upsert(p1.clone(), String::new(), Entity::Comment { id: p1.clone(), post: p2.clone() });
    table.upsert(p2.clone(), String::new(), Entity::Comment { id: p2.clone(), post: p1.clone() });
    let body = vec![9u8; 4];
    let req = InboundRequest {
        method_post: true,
        content_type: Some(b"application/activity+json".to_vec()),
        digest: sha256(&body),
        body,
        envelope: encode(Activity::Vote(vote("https://a.example/act/30", VoteType::Like))),
    };
    let r = process_inbound(req, &mut st, &table, 1_650_000_000, 3);
    assert_eq!(r, Err(FederationError::RecursionExceeded));
    assert_eq!(st.vote_of(&s(ALICE), &s(POST)), None);
}

#[test]
fn pipeline_caches_a_resolved_target() {
    let mut st = Storage::new();
    let mut table: Table<Entity> = Table::new();
    let post = s(POST);
    table.upsert(post.clone(), String::new(), Entity::Post { id: post.clone(), community: s(RUST) });
    table.upsert(s(RUST), String::new(), Entity::Community { id: s(RUST) });
    let body = vec![5u8; 4];
    let mk_req = || InboundRequest {
        method_post: true,
        content_type: Some(b"application/activity+json".to_vec()),
        digest: sha256(&[5u8; 4]),
        body: body.clone(),
        envelope: encode(Activity::Vote(vote("https://a.example/act/50", VoteType::Like))),
    };
    let r = process_inbound(mk_req(), &mut st, &table, 1_650_000_000, 2);
    assert!(matches!(r, Ok(Outcome::Accepted(_))));
    // the target is cached now: an empty table and no budget still resolve it
    let empty_table: Table<Entity> = Table::new();
    let (res, remaining) = resolve(&st, &empty_table, &post, 0);
    assert_eq!(res, Resolution::Found);
    assert_eq!(remaining, 0);
}

#[test]
fn tampered_body_never_reaches_the_apply_engine() {
    let mut st = Storage::new();
    let table: Table<Entity> = Table::new();
    let body = vec![123u8, 34, 116, 121, 112, 101, 34, 125];
    let digest = sha256(&body);
    let mk_req = |body: Vec<u8>, digest: Vec<u8>| InboundRequest {
        method_post: true,
        content_type: Some(b"application/activity+json".to_vec()),
        digest,
        body,
        envelope: encode(Activity::Follow(follow("https://a.example/act/u1"))),
    };

    let mut tampered = body.clone();
    tampered[0] ^= 0xff;
    let r = process_inbound(mk_req(tampered, digest.clone()), &mut st, &table, 1_650_000_000, 5);
    assert_eq!(r, Err(FederationError::AuthenticationFailure));
    assert_eq!(st.subscriptions(&s(ALICE)), Vec::<String>::new());

    let r = process_inbound(mk_req(body, digest), &mut st, &table, 1_650_000_000, 5);
    match r {
        Ok(Outcome::Accepted(_)) => {}
        other => panic!("expected acceptance, got {:?}", other),
    }
    assert_eq!(st.subscriptions(&s(ALICE)), vec![s(RUST)]);
}

#[test]
fn follow_then_undo_through_the_pipeline_leaves_no_subscription() {
    let mut st = Storage::new();
    let table: Table<Entity> = Table::new();
    let now = 1_650_000_000;
    let deliver = |st: &mut Storage, a: Activity| {
        let body = vec![0u8; 16];
        let digest = sha256(&body);
        let req = InboundRequest {
            method_post: true,
            content_type: Some(b"application/activity+json".to_vec()),
            digest,
            body,
            envelope: encode(a),
        };
        process_inbound(req, st, &table, now, 5)
    };
    let r = deliver(&mut st, Activity::Follow(follow("https://a.example/act/u1")));
    assert!(matches!(r, Ok(Outcome::Accepted(_))));
    assert_eq!(st.subscriptions(&s(ALICE)), vec![s(RUST)]);
    let undo = Activity::UndoFollow(UndoFollow {
        id: s("https://a.example/act/u2"),
        actor: s(ALICE),
        to: Recipients::One(s(RUST)),
        cc: Recipients::Absent,
        object: follow("https://a.example/act/u1"),
        unparsed: no_ext(),
    });
    let r = deliver(&mut st, undo);
    assert!(matches!(r, Ok(Outcome::Accepted(_))));
    assert_eq!(st.subscriptions(&s(ALICE)), Vec::<String>::new());
}

#[test]
fn digest_check_accepts_only_the_true_digest() {
    let body = vec![1u8, 2, 3, 4];
    let good = sha256(&body);
    assert_eq!(verify_digest(&good, &body), Ok(()));
    let mut bad = good.clone();
    bad[0] ^= 1;
    assert_eq!(
        verify_digest(&bad, &body),
        Err(FederationError::AuthenticationFailure)
    );
}

#[test]
fn inbox_guard_filters_non_federation_requests() {
    let ct = |x: &str| Some(x.as_bytes().to_vec());
    assert!(InboxRequestGuard::check(true, &ct("application/activity+json")));
    assert!(InboxRequestGuard::check(true, &ct("application/ld+json")));
    assert!(!InboxRequestGuard::check(false, &ct("application/activity+json")));
    assert!(!InboxRequestGuard::check(true, &ct("text/html")));
    assert!(!InboxRequestGuard::check(true, &None));
}

#[test]
fn dispatch_targets_deduplicate_and_include_followers() {
    let mut st = Storage::new();
    for (follower, act) in [
        ("https://a.example/u/alice", "https://a.example/act/f1"),
        ("https://c.example/u/carol", "https://c.example/act/f2"),
    ] {
        apply(
            &mut st,
            &Activity::Follow(Follow {
                id: s(act),
                actor: s(follower),
                to: Recipients::Absent,
                object: s(RUST),
                unparsed: no_ext(),
            }),
        );
    }
    let to = vec![s("https://a.example/u/alice"), s("https://d.example/u/dan")];
    let cc = vec![s("https://d.example/u/dan")];
    let community = Some(s(RUST));
    let mut r = inbox_targets(&st, &to, &cc, &community);
    r.sort();
    assert_eq!(
        r,
        vec![
            s("https://a.example/u/alice"),
            s("https://c.example/u/carol"),
            s("https://d.example/u/dan"),
        ]
    );
}

#[test]
fn retry_policy_backs_off_and_gives_up() {
    assert_eq!(next_retry(1, DeliveryFailure::Transient), RetryDecision::Retry(60));
    assert_eq!(next_retry(2, DeliveryFailure::Transient), RetryDecision::Retry(120));
    assert_eq!(next_retry(3, DeliveryFailure::Transient), RetryDecision::Retry(240));
    assert_eq!(next_retry(4, DeliveryFailure::Transient), RetryDecision::Retry(480));
    assert_eq!(next_retry(5, DeliveryFailure::Transient), RetryDecision::GiveUp);
    assert_eq!(next_retry(2, DeliveryFailure::Permanent), RetryDecision::MarkBroken);
}

#[test]
fn error_status_classes() {
    assert_eq!(FederationError::MalformedEnvelope.http_status(), 400);
    assert_eq!(FederationError::AuthenticationFailure.http_status(), 400);
    assert_eq!(FederationError::AuthorizationFailure.http_status(), 400);
    assert_eq!(FederationError::RecursionExceeded.http_status(), 400);
    assert_eq!(FederationError::ResolutionFailure.http_status(), 500);
    assert_eq!(FederationError::StorageFailure.http_status(), 500);
}

#[test]
fn registration_stores_a_real_bcrypt_hash() {
    let form = LocalUserForm {
        email: Some(s("alice@a.example")),
        password_encrypted: s("SECRET-REDACTED"),
    };
    let stored = LocalUser::register(form).unwrap();
    assert_eq!(stored.email, Some(s("alice@a.example")));
    assert_ne!(stored.password_encrypted, s("SECRET-REDACTED"));
    assert_eq!(stored.password_encrypted.len(), 60);
    assert!(stored.password_encrypted.starts_with("$2b$12$"));
    assert!(bcrypt::verify("SECRET-REDACTED", &stored.password_encrypted).unwrap());
}

#[test]
fn password_update_resets_validator_time() {
    let user = LocalUser {
        id: 7,
        email: None,
        password_encrypted: s("old-hash"),
        validator_time: 1,
    };
    let updated = user.update_password(&s("SECRET-REDACTED"), 99).unwrap();
    assert_eq!(updated.id, 7);
    assert_eq!(updated.validator_time, 99);
    assert_eq!(updated.password_encrypted.len(), 60);
    assert!(updated.password_encrypted.starts_with("$2b$12$"));
    assert!(bcrypt::verify("SECRET-REDACTED", &updated.password_encrypted).unwrap());
}
