//! The state the apply engine transitions.
//!
//! The storage collaborator owns subscription edges, vote records,
//! deletion flags, block edges, direct messages, and the resolver cache.
//! Its mathematical model (`StorageModel`) is a record of maps, so every
//! transition of the apply engine is a map update and the idempotence and
//! inverse laws are statements about maps.
//!
//! Single-keyed tables (deletion flags, messages, the cache) use an empty
//! second key component.

use crate::envelope::VoteType;
use crate::resolver::Entity;
use crate::table::Table;
use vstd::prelude::*;

verus! {

/// The deletion state of one object: whether it is deleted, and whether
/// by a moderator (`moderation`) rather than by its own author.
#[derive(Clone, Copy, Debug, PartialEq, Eq, Structural)]
pub struct DeleteFlags {
    pub deleted: bool,
    pub moderation: bool,
}

/// The target state the pipeline reads and writes.
pub struct Storage {
    /// Subscription edges, keyed (follower, community).
    pub follows: Table<()>,
    /// Score records, keyed (voter, target).
    pub votes: Table<VoteType>,
    /// Deletion flags, keyed by target.
    pub deleted: Table<DeleteFlags>,
    /// Block edges, keyed (person, community).
    pub blocks: Table<()>,
    /// Direct messages, keyed by message id; the value is the content.
    pub messages: Table<String>,
    /// Resolved remote objects, keyed by id.  Not part of the model:
    /// caching a resolution is not a state transition.
    pub cache: Table<Entity>,
}

/// The model of the storage state: one map per table, keyed by views.
#[verifier::ext_equal]
pub struct StorageModel {
    pub follows: Map<(Seq<char>, Seq<char>), ()>,
    pub votes: Map<(Seq<char>, Seq<char>), VoteType>,
    pub deleted: Map<(Seq<char>, Seq<char>), DeleteFlags>,
    pub blocks: Map<(Seq<char>, Seq<char>), ()>,
    pub messages: Map<(Seq<char>, Seq<char>), String>,
}

impl StorageModel {
    /// The deletion flags of `target`, defaulting to not deleted.
    pub open spec fn flags_of(&self, target: Seq<char>) -> DeleteFlags {
        if self.deleted.dom().contains((target, Seq::empty())) {
            self.deleted[(target, Seq::empty())]
        } else {
            DeleteFlags { deleted: false, moderation: false }
        }
    }
}

impl Storage {
    /// Every table keeps its keys pairwise distinct.
    pub open spec fn wf(&self) -> bool {
        self.follows.wf() && self.votes.wf() && self.deleted.wf() && self.blocks.wf()
            && self.messages.wf() && self.cache.wf()
    }

    /// The storage state as a record of maps.
    pub open spec fn model(&self) -> StorageModel {
        StorageModel {
            follows: self.follows.map(),
            votes: self.votes.map(),
            deleted: self.deleted.map(),
            blocks: self.blocks.map(),
            messages: self.messages.map(),
        }
    }

    /// An empty state: no edges, no votes, nothing deleted.
    pub fn new() -> (s: Storage)
        ensures
            s.wf(),
            s.model().follows == Map::<(Seq<char>, Seq<char>), ()>::empty(),
            s.model().votes == Map::<(Seq<char>, Seq<char>), VoteType>::empty(),
            s.model().deleted == Map::<(Seq<char>, Seq<char>), DeleteFlags>::empty(),
            s.model().blocks == Map::<(Seq<char>, Seq<char>), ()>::empty(),
            s.model().messages == Map::<(Seq<char>, Seq<char>), String>::empty(),
            s.cache.map() == Map::<(Seq<char>, Seq<char>), Entity>::empty(),
    {
        Storage {
            follows: Table::new(),
            votes: Table::new(),
            deleted: Table::new(),
            blocks: Table::new(),
            messages: Table::new(),
            cache: Table::new(),
        }
    }

    /// The communities `actor` subscribes to.
    pub fn subscriptions(&self, actor: &String) -> (r: Vec<String>)
        requires
            self.wf(),
        ensures
            forall|x: Seq<char>| #[trigger]
                crate::table::seq_contains_str(r@, x) <==> self.model().follows.dom().contains(
                    (actor@, x),
                ),
            crate::table::distinct_strs(r@),
    {
        self.follows.keys_with_first(actor)
    }

    /// The followers of `community`.
    pub fn followers(&self, community: &String) -> (r: Vec<String>)
        requires
            self.wf(),
        ensures
            forall|x: Seq<char>| #[trigger]
                crate::table::seq_contains_str(r@, x) <==> self.model().follows.dom().contains(
                    (x, community@),
                ),
            crate::table::distinct_strs(r@),
    {
        self.follows.keys_with_second(community)
    }

    /// Whether `person` is blocked from `community`.
    pub fn is_blocked(&self, person: &String, community: &String) -> (r: bool)
        ensures
            r == self.model().blocks.dom().contains((person@, community@)),
    {
        self.blocks.contains(person, community)
    }

    /// The deletion flags of `target`, defaulting to not deleted.
    pub fn flags_of(&self, target: &String) -> (r: DeleteFlags)
        ensures
            r == self.model().flags_of(target@),
    {
        let empty = String::new();
        match self.deleted.get(target, &empty) {
            Some(f) => {
                proof {
                    assert(self.model().deleted.dom().contains((target@, Seq::<char>::empty())));
                }
                *f
            },
            None => {
                proof {
                    assert(!self.model().deleted.dom().contains((target@, Seq::<char>::empty())));
                }
                DeleteFlags { deleted: false, moderation: false }
            },
        }
    }

    /// Records a successful resolution of `id` so repeated references hit
    /// the cache.  Caching is not a state transition: the model is
    /// unchanged.
    pub fn cache_put(&mut self, id: String, e: Entity)
        requires
            old(self).wf(),
        ensures
            final(self).wf(),
            final(self).model() == old(self).model(),
            final(self).cache.map() == old(self).cache.map().insert((id@, Seq::<char>::empty()), e),
    {
        self.cache.upsert(id, String::new(), e);
    }

    /// The recorded vote of `voter` on `target`, if any.
    pub fn vote_of(&self, voter: &String, target: &String) -> (r: Option<VoteType>)
        ensures
            r is Some <==> self.model().votes.dom().contains((voter@, target@)),
            r is Some ==> r->Some_0 == self.model().votes[(voter@, target@)],
    {
        match self.votes.get(voter, target) {
            Some(v) => Some(*v),
            None => None,
        }
    }
}

} // verus!
