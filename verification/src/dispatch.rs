//! The dispatch engine: planning outbound delivery.
//!
//! For a locally-originated activity this computes the destination inbox
//! set — the explicit `to`/`cc` recipients plus, for community-scoped
//! activities, the community's current followers — deduplicated by
//! destination URL so several recipients behind one shared inbox get one
//! delivery.  Retry of transient failures is bounded with exponential
//! backoff; a permanent failure marks the subscription broken instead of
//! retrying forever.  The deliveries themselves (signing, posting) are
//! I/O and stay with the caller; one destination's failure concerns only
//! that destination's retry state.

use crate::storage::{Storage, StorageModel};
use crate::table::{distinct_strs, seq_contains_str};
use vstd::prelude::*;

verus! {

/// A transient failure may be retried; a permanent one may not.
#[derive(Clone, Copy, Debug, PartialEq, Eq, Structural)]
pub enum DeliveryFailure {
    /// Timeout or remote server error: the remote may recover.
    Transient,
    /// The remote reports the inbox no longer exists.
    Permanent,
}

/// What to do after a failed delivery attempt.
#[derive(Clone, Copy, Debug, PartialEq, Eq, Structural)]
pub enum RetryDecision {
    /// Try again after the carried delay in seconds.
    Retry(u64),
    /// Attempts are exhausted: dead-letter the activity.
    GiveUp,
    /// The inbox is gone: mark the subscription broken, do not retry.
    MarkBroken,
}

/// How many delivery attempts one destination gets.
pub const MAX_DELIVERY_ATTEMPTS: u32 = 5;

/// The backoff delay after the first failed attempt, in seconds.
pub const RETRY_BASE_SECS: u64 = 60;

/// Two to the `n`th.
pub open spec fn pow2(n: nat) -> nat
    decreases n,
{
    if n == 0 {
        1
    } else {
        2 * pow2((n - 1) as nat)
    }
}

/// The retry policy: permanent failures mark the subscription broken;
/// transient ones retry with exponential backoff until the attempt bound
/// is reached, then give up.  `attempt` counts the attempts already made
/// (at least one, since a failure is in hand).
pub open spec fn spec_next_retry(attempt: u32, f: DeliveryFailure) -> RetryDecision {
    match f {
        DeliveryFailure::Permanent => RetryDecision::MarkBroken,
        DeliveryFailure::Transient => if attempt >= MAX_DELIVERY_ATTEMPTS {
            RetryDecision::GiveUp
        } else {
            RetryDecision::Retry((RETRY_BASE_SECS * pow2((attempt - 1) as nat)) as u64)
        },
    }
}

/// Decides what a failed delivery attempt leads to: exactly the policy
/// `spec_next_retry` states.
pub fn next_retry(attempt: u32, f: DeliveryFailure) -> (r: RetryDecision)
    requires
        attempt >= 1,
    ensures
        r == spec_next_retry(attempt, f),
{
    match f {
        DeliveryFailure::Permanent => RetryDecision::MarkBroken,
        DeliveryFailure::Transient => {
            if attempt >= MAX_DELIVERY_ATTEMPTS {
                RetryDecision::GiveUp
            } else {
                let mut delay: u64 = RETRY_BASE_SECS;
                let mut i: u32 = 1;
                while i < attempt
                    invariant
                        1 <= i <= attempt,
                        attempt < MAX_DELIVERY_ATTEMPTS,
                        delay == RETRY_BASE_SECS * pow2((i - 1) as nat),
                        delay <= RETRY_BASE_SECS * 8,
                    decreases attempt - i,
                {
                    proof {
                        assert(pow2((i - 1) as nat) <= 8) by {
                            assert(delay == RETRY_BASE_SECS * pow2((i - 1) as nat));
                        }
                    }
                    delay = delay * 2;
                    i = i + 1;
                    proof {
                        assert(pow2((i - 1) as nat) == 2 * pow2((i - 2) as nat));
                        assert(i - 1 <= 3);
                        assert(pow2(0) == 1 && pow2(1) == 2 && pow2(2) == 4 && pow2(3) == 8);
                    }
                }
                RetryDecision::Retry(delay)
            }
        },
    }
}

/// Membership in the destination set: an explicit recipient, or a
/// follower of the addressed community.
pub open spec fn is_destination(
    m: StorageModel,
    to: Seq<String>,
    cc: Seq<String>,
    community: Option<String>,
    x: Seq<char>,
) -> bool {
    seq_contains_str(to, x) || seq_contains_str(cc, x) || (match community {
        Some(c) => m.follows.dom().contains((x, c@)),
        None => false,
    })
}

/// Whether `v` holds a string whose view is `s@`.
fn vec_contains_str(v: &Vec<String>, s: &String) -> (r: bool)
    ensures
        r == seq_contains_str(v@, s@),
{
    let n = v.len();
    let mut i: usize = 0;
    while i < n
        invariant
            n == v@.len(),
            i <= n,
            forall|j: int| 0 <= j < i ==> v@[j]@ != s@,
        decreases n - i,
    {
        if v[i] == *s {
            return true;
        }
        i = i + 1;
    }
    false
}

/// Appends `s` unless an equal destination is already planned.
fn push_unique(acc: &mut Vec<String>, s: &String)
    requires
        distinct_strs(old(acc)@),
    ensures
        distinct_strs(final(acc)@),
        forall|x: Seq<char>| #[trigger]
            seq_contains_str(final(acc)@, x) <==> (seq_contains_str(old(acc)@, x) || x == s@),
{
    let ghost prev = acc@;
    if !vec_contains_str(acc, s) {
        acc.push(s.clone());
        proof {
            assert forall|x: Seq<char>| #[trigger]
                seq_contains_str(acc@, x) <==> (seq_contains_str(prev, x) || x == s@) by {
                if seq_contains_str(acc@, x) {
                    let w = choose|w: int| 0 <= w < acc@.len() && acc@[w]@ == x;
                    if w < prev.len() {
                        assert(seq_contains_str(prev, x));
                    } else {
                        assert(x == s@);
                    }
                }
                if seq_contains_str(prev, x) {
                    let w = choose|w: int| 0 <= w < prev.len() && prev[w]@ == x;
                    assert(acc@[w]@ == x);
                }
                if x == s@ {
                    assert(acc@[acc@.len() - 1]@ == x);
                }
            }
            assert forall|m: int, n: int| 0 <= m < n < acc@.len() implies acc@[m]@ != acc@[n]@ by {
                if n == acc@.len() - 1 {
                    assert(0 <= m < prev.len() && prev[m]@ == prev[m]@);
                    assert(seq_contains_str(prev, prev[m]@));
                    assert(acc@[m] == prev[m]);
                } else {
                    assert(acc@[m] == prev[m]);
                    assert(acc@[n] == prev[n]);
                }
            }
        }
    }
}

/// Folds every element of `src` into `acc`, keeping destinations
/// distinct.
fn merge_unique(acc: &mut Vec<String>, src: &Vec<String>)
    requires
        distinct_strs(old(acc)@),
    ensures
        distinct_strs(final(acc)@),
        forall|x: Seq<char>| #[trigger]
            seq_contains_str(final(acc)@, x) <==> (seq_contains_str(old(acc)@, x)
                || seq_contains_str(src@, x)),
{
    let n = src.len();
    let mut i: usize = 0;
    while i < n
        invariant
            n == src@.len(),
            i <= n,
            distinct_strs(acc@),
            forall|x: Seq<char>| #[trigger]
                seq_contains_str(acc@, x) <==> (seq_contains_str(old(acc)@, x) || (exists|j: int|
                    0 <= j < i && src@[j]@ == x)),
        decreases n - i,
    {
        push_unique(acc, &src[i]);
        proof {
            assert forall|x: Seq<char>| #[trigger]
                seq_contains_str(acc@, x) <==> (seq_contains_str(old(acc)@, x) || (exists|j: int|
                    0 <= j < i + 1 && src@[j]@ == x)) by {
                if x == src@[i as int]@ {
                    assert(0 <= i < i + 1 && src@[i as int]@ == x);
                }
            }
        }
        i = i + 1;
    }
}

/// Computes the destination inbox set of one outbound activity: the
/// explicit recipients plus the followers of the addressed community,
/// each destination once.
pub fn inbox_targets(
    st: &Storage,
    to: &Vec<String>,
    cc: &Vec<String>,
    community: &Option<String>,
) -> (r: Vec<String>)
    requires
        st.wf(),
    ensures
        distinct_strs(r@),
        forall|x: Seq<char>| #[trigger]
            seq_contains_str(r@, x) <==> is_destination(st.model(), to@, cc@, *community, x),
{
    let mut acc: Vec<String> = Vec::new();
    merge_unique(&mut acc, to);
    merge_unique(&mut acc, cc);
    match community {
        Some(c) => {
            let fs = st.followers(c);
            merge_unique(&mut acc, &fs);
        },
        None => {},
    }
    acc
}

} // verus!
