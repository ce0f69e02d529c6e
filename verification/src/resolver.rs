//! Resolution of object ids to typed entities under a recursion budget.
//!
//! An id resolves from the local cache, or else from the table of fetched
//! responses; a fetched entity may embed a further reference (a comment
//! needs its post, a post its community), and each such hop consumes one
//! unit of the budget.  The budget is the defense against unbounded or
//! cyclic remote object graphs: it can never go negative, and exhausting
//! it aborts with `Exceeded` rather than looping
//! (`lemma_bounded_resolution`).
//!
//! Fetching itself is I/O and stays with the caller: a `NeedFetch` result
//! names the id whose response must be added to the table before
//! resolution can continue.

use crate::storage::Storage;
use crate::table::Table;
use vstd::prelude::*;

verus! {

/// A resolved remote object, reduced to what the pipeline reads: its id
/// and the one reference that must also resolve for the object to be
/// meaningful locally.
#[derive(Debug, PartialEq, Eq)]
pub enum Entity {
    Person { id: String },
    Community { id: String },
    Post { id: String, community: String },
    Comment { id: String, post: String },
}

impl Entity {
    /// The embedded reference that must resolve in turn, if any.
    pub open spec fn spec_ref(&self) -> Option<Seq<char>> {
        match self {
            Entity::Person { .. } => None,
            Entity::Community { .. } => None,
            Entity::Post { community, .. } => Some(community@),
            Entity::Comment { post, .. } => Some(post@),
        }
    }

    /// A copy of the entity, field for field, for storing in the cache.
    pub fn duplicate(&self) -> (e: Entity)
        ensures
            e == *self,
    {
        match self {
            Entity::Person { id } => Entity::Person { id: id.clone() },
            Entity::Community { id } => Entity::Community { id: id.clone() },
            Entity::Post { id, community } => Entity::Post {
                id: id.clone(),
                community: community.clone(),
            },
            Entity::Comment { id, post } => Entity::Comment {
                id: id.clone(),
                post: post.clone(),
            },
        }
    }

    /// The embedded reference that must resolve in turn, if any.
    pub fn embedded_ref(&self) -> (r: Option<&String>)
        ensures
            match r {
                Some(s) => self.spec_ref() == Some(s@),
                None => self.spec_ref() is None,
            },
    {
        match self {
            Entity::Person { .. } => None,
            Entity::Community { .. } => None,
            Entity::Post { community, .. } => Some(community),
            Entity::Comment { post, .. } => Some(post),
        }
    }
}

/// The outcome of one resolution attempt.
#[derive(Debug, PartialEq, Eq)]
pub enum Resolution {
    /// The id and everything it needs are resolved.
    Found,
    /// The named id has no fetched response yet: the caller must fetch it
    /// and retry.
    NeedFetch(String),
    /// The chain needed more hops than the budget allows.
    Exceeded,
}

/// The outcome with its carried id taken as a view.
pub enum ResolutionModel {
    Found,
    NeedFetch(Seq<char>),
    Exceeded,
}

/// The view of an outcome.
pub open spec fn resolution_view(r: Resolution) -> ResolutionModel {
    match r {
        Resolution::Found => ResolutionModel::Found,
        Resolution::NeedFetch(s) => ResolutionModel::NeedFetch(s@),
        Resolution::Exceeded => ResolutionModel::Exceeded,
    }
}

/// What one resolution attempt returns and how much budget is left.
/// A cache hit is free; a miss with a fetched response costs one hop and
/// continues along the embedded reference.
pub open spec fn spec_resolve(
    cache: Map<(Seq<char>, Seq<char>), Entity>,
    table: Map<(Seq<char>, Seq<char>), Entity>,
    id: Seq<char>,
    budget: nat,
) -> (ResolutionModel, nat)
    decreases budget,
{
    if cache.dom().contains((id, Seq::empty())) {
        (ResolutionModel::Found, budget)
    } else if !table.dom().contains((id, Seq::empty())) {
        (ResolutionModel::NeedFetch(id), budget)
    } else if budget == 0 {
        (ResolutionModel::Exceeded, 0)
    } else {
        match table[(id, Seq::empty())].spec_ref() {
            None => (ResolutionModel::Found, (budget - 1) as nat),
            Some(rid) => spec_resolve(cache, table, rid, (budget - 1) as nat),
        }
    }
}

/// Bounded recursion: however cyclic the fetched graph, an attempt never
/// makes more hops than the budget it was given, and the budget never
/// goes negative.
pub proof fn lemma_bounded_resolution(
    cache: Map<(Seq<char>, Seq<char>), Entity>,
    table: Map<(Seq<char>, Seq<char>), Entity>,
    id: Seq<char>,
    budget: nat,
)
    ensures
        spec_resolve(cache, table, id, budget).1 <= budget,
    decreases budget,
{
    if !cache.dom().contains((id, Seq::empty())) && table.dom().contains((id, Seq::empty()))
        && budget > 0 {
        match table[(id, Seq::empty())].spec_ref() {
            None => {},
            Some(rid) => {
                lemma_bounded_resolution(cache, table, rid, (budget - 1) as nat);
            },
        }
    }
}

/// Resolves `id` against the cache in `st` and the fetched responses in
/// `table`, spending at most `budget` hops.
pub fn resolve(st: &Storage, table: &Table<Entity>, id: &String, budget: u32) -> (r: (
    Resolution,
    u32,
))
    ensures
        resolution_view(r.0) == spec_resolve(st.cache.map(), table.map(), id@, budget as nat).0,
        r.1 as nat == spec_resolve(st.cache.map(), table.map(), id@, budget as nat).1,
        r.1 <= budget,
    decreases budget,
{
    proof {
        lemma_bounded_resolution(st.cache.map(), table.map(), id@, budget as nat);
    }
    let empty = String::new();
    if st.cache.contains(id, &empty) {
        return (Resolution::Found, budget);
    }
    match table.get(id, &empty) {
        None => {
            proof {
                assert(!table.map().dom().contains((id@, Seq::<char>::empty())));
            }
            (Resolution::NeedFetch(id.clone()), budget)
        },
        Some(e) => {
            proof {
                assert(table.map().dom().contains((id@, Seq::<char>::empty())));
                assert(table.map()[(id@, Seq::<char>::empty())] == *e);
            }
            if budget == 0 {
                (Resolution::Exceeded, 0)
            } else {
                match e.embedded_ref() {
                    None => (Resolution::Found, budget - 1),
                    Some(rid) => resolve(st, table, rid, budget - 1),
                }
            }
        },
    }
}

} // verus!
