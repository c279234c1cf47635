use property_api::reply::{Body, Reply, Status};
use property_api::store::Query;
use property_api::tags::{
    add_tag_by_id_query, add_tag_by_id_reply, delete_tag_by_id_query, delete_tag_by_id_reply,
    read_tag_by_id_query, read_tag_by_id_reply, tags_list_query, tags_list_reply,
};

fn text(status: Status, message: &str) -> Reply {
    Reply { status, body: Body::Text(message.to_string()) }
}

#[test]
fn tag_queries_name_the_listing_first_and_the_tag_second() {
    assert_eq!(read_tag_by_id_query(3, 8), Query::TagLookup { property_id: 3, tag_id: 8 });
    assert_eq!(add_tag_by_id_query(3, 8), Query::TagInsert { property_id: 3, tag_id: 8 });
    assert_eq!(delete_tag_by_id_query(3, 8), Query::TagDelete { property_id: 3, tag_id: 8 });
    assert_eq!(tags_list_query(3), Query::TagList { property_id: 3 });
}

#[test]
fn added_tag_is_found_and_removed_tag_is_not() {
    let mut table: Vec<(i32, i32)> = vec![(1, 1)];
    let lookup = |table: &Vec<(i32, i32)>, query: Query| match query {
        Query::TagLookup { property_id, tag_id } => {
            table.iter().copied().find(|pair| *pair == (property_id, tag_id))
        }
        other => panic!("not a lookup: {:?}", other),
    };

    assert_eq!(read_tag_by_id_reply(Ok(lookup(&table, read_tag_by_id_query(4, 9)))).status, Status::NotFound);

    match add_tag_by_id_query(4, 9) {
        Query::TagInsert { property_id, tag_id } => table.push((property_id, tag_id)),
        other => panic!("not an insert: {:?}", other),
    }
    assert_eq!(add_tag_by_id_reply(Ok(())), text(Status::Success, "OK"));
    assert_eq!(
        read_tag_by_id_reply(Ok(lookup(&table, read_tag_by_id_query(4, 9)))),
        text(Status::Success, "")
    );
    assert_eq!(read_tag_by_id_reply(Ok(lookup(&table, read_tag_by_id_query(9, 4)))).status, Status::NotFound);

    match delete_tag_by_id_query(4, 9) {
        Query::TagDelete { property_id, tag_id } => {
            table.retain(|pair| *pair != (property_id, tag_id))
        }
        other => panic!("not a delete: {:?}", other),
    }
    assert_eq!(delete_tag_by_id_reply(Ok(())), text(Status::Success, "OK"));
    assert_eq!(
        read_tag_by_id_reply(Ok(lookup(&table, read_tag_by_id_query(4, 9)))),
        text(Status::NotFound, "Not found")
    );
    assert_eq!(
        read_tag_by_id_reply(Ok(lookup(&table, read_tag_by_id_query(1, 1)))),
        text(Status::Success, "")
    );
}

#[test]
fn tag_failures_echo_the_message_of_the_datastore() {
    let message = "error returned from database: relation \"property_tags\" does not exist";
    assert_eq!(
        read_tag_by_id_reply(Err(message.to_string())),
        text(Status::InternalServerError, message)
    );
    assert_eq!(
        add_tag_by_id_reply(Err(message.to_string())),
        text(Status::InternalServerError, message)
    );
    assert_eq!(
        delete_tag_by_id_reply(Err(message.to_string())),
        text(Status::InternalServerError, message)
    );
    assert_eq!(
        tags_list_reply(Err(message.to_string())),
        text(Status::InternalServerError, message)
    );
}

#[test]
fn tags_are_listed_as_they_were_fetched() {
    assert_eq!(
        tags_list_reply(Ok(vec![5, 2, 9])),
        Reply { status: Status::Success, body: Body::Tags(vec![5, 2, 9]) }
    );
    assert_eq!(
        tags_list_reply(Ok(vec![])),
        Reply { status: Status::Success, body: Body::Tags(vec![]) }
    );
}
