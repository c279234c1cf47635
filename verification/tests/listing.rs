use property_api::listing::{
    checked_property_list_query, property_delete_query, property_delete_reply,
    property_list_query, property_list_reply, property_read_query, property_read_reply,
    property_update, static_serve_error, PAGE_SIZE,
};
use property_api::property::{PostingDate, Property};
use property_api::reply::{Body, Reply, Status};
use property_api::store::Query;

fn text(status: Status, message: &str) -> Reply {
    Reply { status, body: Body::Text(message.to_string()) }
}

fn listing(id: i32) -> Property {
    Property {
        id,
        name: format!("Flat {}", id),
        location: 1,
        area: 50 + id,
        property_type: 0,
        wc: 1,
        floor: 2,
        tothesea: 3,
        furniture: true,
        appliances: false,
        price: 100000,
        posting_date: Some(PostingDate { seconds: 1_656_676_800 + id as i64, nanoseconds: 0 }),
        gallery_location: Some(format!("gallery-{}", id)),
    }
}

fn fetch(table: &[Property], query: Query) -> Vec<Property> {
    match query {
        Query::PropertyPage { offset, limit } => {
            table.iter().skip(offset as usize).take(limit as usize).cloned().collect()
        }
        other => panic!("not a page: {:?}", other),
    }
}

#[test]
fn a_page_has_twenty_listings() {
    assert_eq!(PAGE_SIZE, 20);
}

#[test]
fn offset_is_twenty_times_the_page() {
    assert_eq!(property_list_query(None), Query::PropertyPage { offset: 0, limit: 20 });
    assert_eq!(property_list_query(Some(0)), Query::PropertyPage { offset: 0, limit: 20 });
    assert_eq!(property_list_query(Some(1)), Query::PropertyPage { offset: 20, limit: 20 });
    assert_eq!(property_list_query(Some(7)), Query::PropertyPage { offset: 140, limit: 20 });
}

#[test]
fn negative_pages_are_not_turned_down() {
    assert_eq!(property_list_query(Some(-1)), Query::PropertyPage { offset: -20, limit: 20 });
    assert_eq!(
        checked_property_list_query(Some(-3)),
        Some(Query::PropertyPage { offset: -60, limit: 20 })
    );
}

#[test]
fn checked_query_knows_the_largest_page() {
    let largest = i64::MAX / 20;
    assert_eq!(
        checked_property_list_query(Some(largest)),
        Some(Query::PropertyPage { offset: 9_223_372_036_854_775_800, limit: 20 })
    );
    assert_eq!(checked_property_list_query(Some(largest + 1)), None);
    assert_eq!(checked_property_list_query(Some(i64::MAX)), None);
    assert_eq!(checked_property_list_query(Some(i64::MIN)), None);
    assert_eq!(
        checked_property_list_query(Some(i64::MIN / 20)),
        Some(Query::PropertyPage { offset: -9_223_372_036_854_775_800, limit: 20 })
    );
    assert_eq!(
        checked_property_list_query(None),
        Some(Query::PropertyPage { offset: 0, limit: 20 })
    );
}

#[test]
fn first_two_pages_of_twenty_five_listings_are_disjoint() {
    let table: Vec<Property> = (1..=25).map(listing).collect();
    let first = fetch(&table, property_list_query(Some(0)));
    let second = fetch(&table, property_list_query(Some(1)));
    assert_eq!(fetch(&table, property_list_query(None)), first);
    assert_eq!(first.len(), 20);
    assert_eq!(second.len(), 5);
    for early in &first {
        for late in &second {
            assert_ne!(early.id, late.id);
        }
    }
    assert_eq!(first[0].id, 1);
    assert_eq!(first[19].id, 20);
    assert_eq!(second[0].id, 21);
    assert!(fetch(&table, property_list_query(Some(2))).is_empty());
}

#[test]
fn page_is_sent_as_it_was_fetched() {
    let rows = vec![listing(4), listing(2)];
    assert_eq!(
        property_list_reply(Ok(rows.clone())),
        Reply { status: Status::Success, body: Body::Page(rows) }
    );
    assert_eq!(
        property_list_reply(Ok(vec![])),
        Reply { status: Status::Success, body: Body::Page(vec![]) }
    );
    assert_eq!(
        property_list_reply(Err("pool timed out".to_string())),
        text(Status::InternalServerError, "pool timed out")
    );
}

#[test]
fn one_listing_is_read_by_its_id() {
    assert_eq!(property_read_query(12), Query::PropertyLookup { id: 12 });
    assert_eq!(
        property_read_reply(Ok(listing(12))),
        Reply { status: Status::Success, body: Body::Record(listing(12)) }
    );
}

#[test]
fn missing_listing_is_answered_as_a_failure_of_the_datastore() {
    let message = "no rows returned by a query that expected to return at least one row";
    assert_eq!(
        property_read_reply(Err(message.to_string())),
        text(Status::InternalServerError, message)
    );
}

#[test]
fn listing_is_deleted_by_its_id() {
    assert_eq!(property_delete_query(12), Query::PropertyDelete { id: 12 });
    assert_eq!(property_delete_reply(Ok(())), text(Status::Success, ""));
    assert_eq!(
        property_delete_reply(Err("connection refused".to_string())),
        text(Status::InternalServerError, "connection refused")
    );
}

#[test]
fn update_names_the_listing() {
    assert_eq!(property_update(0), text(Status::Success, "update property 0"));
    assert_eq!(property_update(7), text(Status::Success, "update property 7"));
    assert_eq!(property_update(10), text(Status::Success, "update property 10"));
    assert_eq!(property_update(1905), text(Status::Success, "update property 1905"));
    assert_eq!(
        property_update(u64::MAX),
        text(Status::Success, "update property 18446744073709551615")
    );
}

#[test]
fn unserved_file_is_an_internal_error() {
    assert_eq!(static_serve_error(), text(Status::InternalServerError, "Internal server error"));
}

#[test]
fn statuses_have_their_codes() {
    assert_eq!(Status::Success.code(), 200);
    assert_eq!(Status::BadRequest.code(), 400);
    assert_eq!(Status::NotFound.code(), 404);
    assert_eq!(Status::InternalServerError.code(), 500);
}
