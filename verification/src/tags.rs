//! The tags of a listing.
//!
//! A tag association is a pair of a listing's id and a tag's id, with
//! nothing else to it. Each operation puts one query to the datastore and
//! turns the outcome into a reply.

use crate::reply::{items_view, outcome_view, Body, BodyView, Reply, ReplyView, Status};
use crate::store::{Query, Store};
use vstd::prelude::*;

verus! {

/// The body of the reply to a lookup that found nothing.
pub const NOT_FOUND: &'static str = "Not found";

/// The body of the reply to a change that was made.
pub const DONE: &'static str = "OK";

/// The reply to a lookup of an association: found with an empty body, not
/// found, or the failure of the datastore.
pub open spec fn read_tag_reply(found: Result<Option<(i32, i32)>, Seq<char>>) -> ReplyView {
    match found {
        Ok(Some(_)) => ReplyView::text(Status::Success, Seq::empty()),
        Ok(None) => ReplyView::text(Status::NotFound, NOT_FOUND@),
        Err(message) => ReplyView::store_failure(message),
    }
}

/// The reply to a change of the associations.
pub open spec fn change_reply(outcome: Result<(), Seq<char>>) -> ReplyView {
    match outcome {
        Ok(()) => ReplyView::text(Status::Success, DONE@),
        Err(message) => ReplyView::store_failure(message),
    }
}

/// The reply to a listing of tags.
pub open spec fn tags_reply(tags: Result<Seq<i32>, Seq<char>>) -> ReplyView {
    match tags {
        Ok(tags) => ReplyView::json(BodyView::Tags(tags)),
        Err(message) => ReplyView::store_failure(message),
    }
}

/// The query that looks the association of `id` with `tag_id` up.
pub fn read_tag_by_id_query(id: i32, tag_id: i32) -> (query: Query)
    ensures
        query == (Query::TagLookup { property_id: id, tag_id }),
{
    Query::TagLookup { property_id: id, tag_id }
}

/// The reply to the lookup of an association.
pub fn read_tag_by_id_reply(found: Result<Option<(i32, i32)>, String>) -> (reply: Reply)
    ensures
        reply@ == read_tag_reply(outcome_view(found)),
{
    match found {
        Ok(Some(_)) => Reply::text(Status::Success, String::new()),
        Ok(None) => Reply::fixed(Status::NotFound, NOT_FOUND),
        Err(message) => Reply::text(Status::InternalServerError, message),
    }
}

/// The query that associates `id` with `tag_id`.
pub fn add_tag_by_id_query(id: i32, tag_id: i32) -> (query: Query)
    ensures
        query == (Query::TagInsert { property_id: id, tag_id }),
{
    Query::TagInsert { property_id: id, tag_id }
}

/// The reply to the insertion of an association.
pub fn add_tag_by_id_reply(outcome: Result<(), String>) -> (reply: Reply)
    ensures
        reply@ == change_reply(outcome_view(outcome)),
{
    match outcome {
        Ok(()) => Reply::fixed(Status::Success, DONE),
        Err(message) => Reply::text(Status::InternalServerError, message),
    }
}

/// The query that removes the association of `id` with `tag_id`.
pub fn delete_tag_by_id_query(id: i32, tag_id: i32) -> (query: Query)
    ensures
        query == (Query::TagDelete { property_id: id, tag_id }),
{
    Query::TagDelete { property_id: id, tag_id }
}

/// The reply to the removal of an association. Removing what is not there
/// is no failure.
pub fn delete_tag_by_id_reply(outcome: Result<(), String>) -> (reply: Reply)
    ensures
        reply@ == change_reply(outcome_view(outcome)),
{
    match outcome {
        Ok(()) => Reply::fixed(Status::Success, DONE),
        Err(message) => Reply::text(Status::InternalServerError, message),
    }
}

/// The query that fetches the tags of the listing `id`.
pub fn tags_list_query(id: i32) -> (query: Query)
    ensures
        query == (Query::TagList { property_id: id }),
{
    Query::TagList { property_id: id }
}

/// The reply to a listing of tags: the tags as they were fetched.
pub fn tags_list_reply(tags: Result<Vec<i32>, String>) -> (reply: Reply)
    ensures
        reply@ == tags_reply(items_view(tags)),
{
    match tags {
        Ok(tags) => Reply::json(Body::Tags(tags)),
        Err(message) => Reply::text(Status::InternalServerError, message),
    }
}

/// An association that was added is found, and one that was removed is not:
/// against any store, the lookup of a pair right after its insertion is
/// answered with success, and right after its removal with not-found.
pub proof fn lemma_tag_round_trip(store: Store, id: i32, tag_id: i32)
    ensures
        ({
            let lookup = Query::TagLookup { property_id: id, tag_id };
            let added = store.after(Query::TagInsert { property_id: id, tag_id });
            read_tag_reply(Ok(added.found(lookup))) == ReplyView::text(
                Status::Success,
                Seq::empty(),
            )
        }),
        ({
            let lookup = Query::TagLookup { property_id: id, tag_id };
            let added = store.after(Query::TagInsert { property_id: id, tag_id });
            let removed = added.after(Query::TagDelete { property_id: id, tag_id });
            read_tag_reply(Ok(removed.found(lookup))) == ReplyView::text(
                Status::NotFound,
                NOT_FOUND@,
            )
        }),
{
}

} // verus!
