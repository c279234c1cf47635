//! Requests to the datastore, and a model of what a datastore makes of them.
//!
//! The handlers never talk to the datastore. They say which [`Query`] to
//! put to it, and they turn what comes back into a reply. [`Store`] is the
//! datastore as the laws of this crate see it: the table of listings in the
//! order of their ids, and the set of tag associations.

use crate::property::PropertyView;
use vstd::prelude::*;

verus! {

/// A request to the datastore.
#[derive(Clone, Copy, Debug, PartialEq, Eq, Structural)]
pub enum Query {
    /// Fetch the association of a listing with a tag, if there is one.
    TagLookup { property_id: i32, tag_id: i32 },
    /// Associate a listing with a tag.
    TagInsert { property_id: i32, tag_id: i32 },
    /// Remove the association of a listing with a tag, if there is one.
    TagDelete { property_id: i32, tag_id: i32 },
    /// Fetch the tags of a listing.
    TagList { property_id: i32 },
    /// Fetch at most `limit` listings, skipping the first `offset`.
    PropertyPage { offset: i64, limit: i64 },
    /// Fetch the listing with the id `id`.
    PropertyLookup { id: i32 },
    /// Remove the listing with the id `id`, and nothing that refers to it.
    PropertyDelete { id: i32 },
}

/// The datastore as a mathematical value.
pub struct Store {
    /// The listings, in the order in which the datastore hands them out.
    pub listings: Seq<PropertyView>,
    /// The associations `(property_id, tag_id)`.
    pub tags: Set<(i32, i32)>,
}

impl Store {
    /// No two listings share an id.
    pub open spec fn well_formed(self) -> bool {
        forall|i: int, j: int|
            0 <= i < j < self.listings.len() ==> (#[trigger] self.listings[i]).id != (
            #[trigger] self.listings[j]).id
    }

    /// The store after `query` was carried out. An association that is
    /// inserted twice is there once.
    pub open spec fn after(self, query: Query) -> Store {
        match query {
            Query::TagInsert { property_id, tag_id } => Store {
                tags: self.tags.insert((property_id, tag_id)),
                ..self
            },
            Query::TagDelete { property_id, tag_id } => Store {
                tags: self.tags.remove((property_id, tag_id)),
                ..self
            },
            Query::PropertyDelete { id } => Store {
                listings: self.listings.filter(|listing: PropertyView| listing.id != id),
                ..self
            },
            _ => self,
        }
    }

    /// What a lookup fetches: the association that the query names, if it
    /// is there.
    pub open spec fn found(self, query: Query) -> Option<(i32, i32)> {
        match query {
            Query::TagLookup { property_id, tag_id } => if self.tags.contains(
                (property_id, tag_id),
            ) {
                Some((property_id, tag_id))
            } else {
                None
            },
            _ => None,
        }
    }

    /// What a query for a page fetches: the listings from position `offset`
    /// on, `limit` of them at most. A datastore turns a negative offset
    /// down; nothing is said of one here.
    pub open spec fn listed(self, query: Query) -> Seq<PropertyView> {
        match query {
            Query::PropertyPage { offset, limit } => {
                let len = self.listings.len() as int;
                let from = if offset < len {
                    offset as int
                } else {
                    len
                };
                let to = if offset + limit < len {
                    offset + limit
                } else {
                    len
                };
                self.listings.subrange(from, to)
            },
            _ => Seq::empty(),
        }
    }
}

} // verus!
