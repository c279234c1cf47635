//! Listing, reading, updating and deleting listings.

use crate::property::{Property, PropertyView};
use crate::reply::{outcome_view, Body, BodyView, Reply, ReplyView, Status};
use crate::store::{Query, Store};
use crate::text::{append_decimal, decimal};
use vstd::prelude::*;
use vstd::string::StringExecFns;

verus! {

/// The number of listings on a page.
pub const PAGE_SIZE: i64 = 20;

/// What precedes the id in the reply to an update.
pub const UPDATE_PROPERTY: &'static str = "update property ";

/// The body of the reply to a static file that could not be served.
pub const INTERNAL_SERVER_ERROR: &'static str = "Internal server error";

/// The number of listings that come before page `page`. Pages count from
/// zero, and no page means the first.
pub open spec fn page_offset(page: Option<i64>) -> int {
    match page {
        Some(page) => page * PAGE_SIZE,
        None => 0,
    }
}

/// Whether the offset of `page` can be put to the datastore, which takes a
/// 64-bit offset.
pub open spec fn page_fits(page: Option<i64>) -> bool {
    i64::MIN <= page_offset(page) <= i64::MAX
}

/// The query for page `page`.
pub open spec fn page_query(page: Option<i64>) -> Query {
    Query::PropertyPage { offset: page_offset(page) as i64, limit: PAGE_SIZE }
}

/// The reply to a fetch of listings.
pub open spec fn page_reply(listings: Result<Seq<PropertyView>, Seq<char>>) -> ReplyView {
    match listings {
        Ok(listings) => ReplyView::json(BodyView::Page(listings)),
        Err(message) => ReplyView::store_failure(message),
    }
}

/// The reply to a fetch of one listing. A listing that is not there comes
/// back as a failure of the datastore, and is answered as one.
pub open spec fn record_reply(listing: Result<PropertyView, Seq<char>>) -> ReplyView {
    match listing {
        Ok(listing) => ReplyView::json(BodyView::Record(listing)),
        Err(message) => ReplyView::store_failure(message),
    }
}

/// The reply to the removal of a listing.
pub open spec fn removal_reply(outcome: Result<(), Seq<char>>) -> ReplyView {
    match outcome {
        Ok(()) => ReplyView::text(Status::Success, Seq::empty()),
        Err(message) => ReplyView::store_failure(message),
    }
}

/// The query for page `page`, if its offset can be put to the datastore.
pub fn checked_property_list_query(page: Option<i64>) -> (query: Option<Query>)
    ensures
        page_fits(page) <==> query is Some,
        query matches Some(query) ==> query == page_query(page),
{
    match page {
        None => Some(Query::PropertyPage { offset: 0, limit: PAGE_SIZE }),
        Some(page) => match page.checked_mul(PAGE_SIZE) {
            Some(offset) => Some(Query::PropertyPage { offset, limit: PAGE_SIZE }),
            None => None,
        },
    }
}

/// The query for page `page`. Negative pages are let through: it is the
/// datastore that turns them down.
pub fn property_list_query(page: Option<i64>) -> (query: Query)
    requires
        page_fits(page),
    ensures
        query == page_query(page),
{
    match page {
        None => Query::PropertyPage { offset: 0, limit: PAGE_SIZE },
        Some(page) => Query::PropertyPage { offset: page * PAGE_SIZE, limit: PAGE_SIZE },
    }
}

/// The reply to a fetch of a page: the listings as they were fetched.
pub fn property_list_reply(listings: Result<Vec<Property>, String>) -> (reply: Reply)
    ensures
        reply@ == page_reply(outcome_view(listings)),
{
    match listings {
        Ok(listings) => Reply::json(Body::Page(listings)),
        Err(message) => Reply::text(Status::InternalServerError, message),
    }
}

/// The query that fetches the listing `id`.
pub fn property_read_query(id: i32) -> (query: Query)
    ensures
        query == (Query::PropertyLookup { id }),
{
    Query::PropertyLookup { id }
}

/// The reply to a fetch of one listing.
pub fn property_read_reply(listing: Result<Property, String>) -> (reply: Reply)
    ensures
        reply@ == record_reply(outcome_view(listing)),
{
    match listing {
        Ok(listing) => Reply::json(Body::Record(listing)),
        Err(message) => Reply::text(Status::InternalServerError, message),
    }
}

/// The query that removes the listing `id`. Its tags and its gallery stay.
pub fn property_delete_query(id: i32) -> (query: Query)
    ensures
        query == (Query::PropertyDelete { id }),
{
    Query::PropertyDelete { id }
}

/// The reply to the removal of a listing.
pub fn property_delete_reply(outcome: Result<(), String>) -> (reply: Reply)
    ensures
        reply@ == removal_reply(outcome_view(outcome)),
{
    match outcome {
        Ok(()) => Reply::text(Status::Success, String::new()),
        Err(message) => Reply::text(Status::InternalServerError, message),
    }
}

/// The reply to an update of the listing `id`. Updates are not carried out
/// yet: the reply only names the listing.
pub fn property_update(id: u64) -> (reply: Reply)
    ensures
        reply@ == ReplyView::text(Status::Success, UPDATE_PROPERTY@ + decimal(id as nat)),
{
    let mut message = String::from_str(UPDATE_PROPERTY);
    append_decimal(&mut message, id);
    Reply::text(Status::Success, message)
}

/// The reply to a static file that could not be served, whatever the reason.
pub fn static_serve_error() -> (reply: Reply)
    ensures
        reply@ == ReplyView::text(Status::InternalServerError, INTERNAL_SERVER_ERROR@),
{
    Reply::fixed(Status::InternalServerError, INTERNAL_SERVER_ERROR)
}

/// No page holds more listings than a page has room for.
pub proof fn lemma_page_is_bounded(store: Store, page: Option<i64>)
    requires
        page_fits(page),
        0 <= page_offset(page),
    ensures
        store.listed(page_query(page)).len() <= PAGE_SIZE,
{
}

/// Two different pages share no listing: against any store in which no two
/// listings have the same id, no id comes up on both.
pub proof fn lemma_pages_are_disjoint(store: Store, first: Option<i64>, second: Option<i64>)
    requires
        store.well_formed(),
        page_fits(first),
        page_fits(second),
        0 <= page_offset(first) < page_offset(second),
    ensures
        ({
            let early = store.listed(page_query(first));
            let late = store.listed(page_query(second));
            forall|i: int, j: int|
                0 <= i < early.len() && 0 <= j < late.len() ==> (#[trigger] early[i]).id != (
                #[trigger] late[j]).id
        }),
{
    let early = store.listed(page_query(first));
    let late = store.listed(page_query(second));
    assert forall|i: int, j: int| 0 <= i < early.len() && 0 <= j < late.len() implies (
    #[trigger] early[i]).id != (#[trigger] late[j]).id by {
        let a = page_offset(first) + i;
        let b = page_offset(second) + j;
        assert(early[i] == store.listings[a]);
        assert(late[j] == store.listings[b]);
        assert(a < b);
    }
}

/// With more listings than one page holds, the first page is full and the
/// second is not empty.
pub proof fn lemma_second_page_exists(store: Store)
    requires
        store.listings.len() > PAGE_SIZE,
    ensures
        store.listed(page_query(None)).len() == PAGE_SIZE,
        store.listed(page_query(Some(0))).len() == PAGE_SIZE,
        store.listed(page_query(Some(1))).len() > 0,
{
}

} // verus!
