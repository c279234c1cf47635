use property_api::create::{property_create, CreateAction, CreateEvent, CreateState, CreateStep};
use property_api::gallery::has_identifier_shape;
use property_api::listing::property_read_reply;
use property_api::part::PartHead;
use property_api::property::{PostingDate, Property};
use property_api::reply::{Body, Reply, Status};
use property_api::upload::{UploadAction, UploadEvent, UploadState};

const FLAT_A: &str = "{\"name\":\"Flat A\",\"location\":1,\"area\":50,\"property_type\":0,\"wc\":1,\"floor\":2,\"tothesea\":3,\"furniture\":true,\"appliances\":false,\"price\":100000}";

const GALLERY: &str = "0f8fad5b-d9cb-469f-a165-70867728950e";

fn number(value: &serde_json::Value, member: &str) -> i32 {
    value[member].as_i64().unwrap() as i32
}

fn decode(text: &str) -> Property {
    let value: serde_json::Value = serde_json::from_str(text).unwrap();
    Property {
        id: 0,
        name: value["name"].as_str().unwrap().to_string(),
        location: number(&value, "location"),
        area: number(&value, "area"),
        property_type: number(&value, "property_type"),
        wc: number(&value, "wc"),
        floor: number(&value, "floor"),
        tothesea: number(&value, "tothesea"),
        furniture: value["furniture"].as_bool().unwrap(),
        appliances: value["appliances"].as_bool().unwrap(),
        price: number(&value, "price"),
        posting_date: None,
        gallery_location: None,
    }
}

fn flat_a() -> Property {
    decode(FLAT_A)
}

fn json_head() -> PartHead {
    PartHead { content_type: Some("application/json".to_string()), file_name: None }
}

fn file_head(name: &str) -> PartHead {
    PartHead { content_type: Some("image/jpeg".to_string()), file_name: Some(name.to_string()) }
}

fn text(status: Status, message: &str) -> Reply {
    Reply { status, body: Body::Text(message.to_string()) }
}

fn state_of(step: CreateStep) -> CreateState {
    match step {
        CreateStep::Continue { state, .. } => state,
        CreateStep::Finish { reply, .. } => panic!("finished early with {:?}", reply),
    }
}

fn uploading() -> CreateState {
    CreateState::Uploading {
        payload: flat_a(),
        gallery: GALLERY.to_string(),
        upload: UploadState::AwaitingPart,
    }
}

#[test]
fn request_begins_with_the_first_part() {
    assert_eq!(
        property_create(),
        CreateStep::Continue {
            state: CreateState::AwaitingFirstPart,
            action: CreateAction::FirstPart
        }
    );
}

#[test]
fn flat_a_with_one_photo_is_created() {
    let state = state_of(property_create());

    let step = state.step(CreateEvent::FirstPart(Ok(Some(json_head()))));
    assert_eq!(
        step,
        CreateStep::Continue {
            state: CreateState::AwaitingPayload,
            action: CreateAction::ReadPayload
        }
    );

    let step = state_of(step).step(CreateEvent::Payload(Ok(flat_a())));
    let gallery = match &step {
        CreateStep::Continue { action: CreateAction::CreateDirectory { gallery }, .. } => {
            gallery.clone()
        }
        other => panic!("no directory asked for: {:?}", other),
    };
    assert!(has_identifier_shape(&gallery));
    assert_eq!(
        step,
        CreateStep::Continue {
            state: CreateState::AwaitingDirectory { payload: flat_a(), gallery: gallery.clone() },
            action: CreateAction::CreateDirectory { gallery: gallery.clone() },
        }
    );

    let step = state_of(step).step(CreateEvent::DirectoryCreated(Ok(())));
    assert_eq!(
        step,
        CreateStep::Continue {
            state: CreateState::Uploading {
                payload: flat_a(),
                gallery: gallery.clone(),
                upload: UploadState::AwaitingPart
            },
            action: CreateAction::Upload {
                gallery: gallery.clone(),
                action: UploadAction::NextPart
            },
        }
    );

    let step = state_of(step)
        .step(CreateEvent::Upload(UploadEvent::Part(Ok(Some(file_head("photo.jpg"))))));
    assert_eq!(
        step,
        CreateStep::Continue {
            state: CreateState::Uploading {
                payload: flat_a(),
                gallery: gallery.clone(),
                upload: UploadState::AwaitingBytes { file_name: "photo.jpg".to_string() }
            },
            action: CreateAction::Upload {
                gallery: gallery.clone(),
                action: UploadAction::ReadBytes
            },
        }
    );

    let step =
        state_of(step).step(CreateEvent::Upload(UploadEvent::Bytes(Ok(vec![0xff, 0xd8, 0xff]))));
    assert_eq!(
        step,
        CreateStep::Continue {
            state: CreateState::Uploading {
                payload: flat_a(),
                gallery: gallery.clone(),
                upload: UploadState::AwaitingWrite
            },
            action: CreateAction::Upload {
                gallery: gallery.clone(),
                action: UploadAction::WriteFile {
                    file_name: "photo.jpg".to_string(),
                    data: vec![0xff, 0xd8, 0xff]
                }
            },
        }
    );

    let step = state_of(step).step(CreateEvent::Upload(UploadEvent::Written(Ok(()))));
    assert_eq!(
        step,
        CreateStep::Continue {
            state: CreateState::Uploading {
                payload: flat_a(),
                gallery: gallery.clone(),
                upload: UploadState::AwaitingPart
            },
            action: CreateAction::Upload {
                gallery: gallery.clone(),
                action: UploadAction::NextPart
            },
        }
    );

    let step = state_of(step).step(CreateEvent::Upload(UploadEvent::Part(Ok(None))));
    let mut record = flat_a();
    record.gallery_location = Some(gallery.clone());
    assert_eq!(
        step,
        CreateStep::Continue {
            state: CreateState::AwaitingInsert { gallery: gallery.clone() },
            action: CreateAction::InsertRow { record: record.clone() },
        }
    );

    let step = state_of(step).step(CreateEvent::Inserted(Ok(7)));
    assert_eq!(
        step,
        CreateStep::Finish {
            cleanup: None,
            reply: Reply { status: Status::Success, body: Body::Id(7) }
        }
    );

    let mut stored = record;
    stored.id = 7;
    stored.posting_date = Some(PostingDate { seconds: 1_656_676_800, nanoseconds: 0 });
    let read = property_read_reply(Ok(stored.clone()));
    assert_eq!(read.status, Status::Success);
    match read.body {
        Body::Record(listing) => {
            assert_eq!(listing.name, "Flat A");
            assert_eq!(listing.location, 1);
            assert_eq!(listing.area, 50);
            assert_eq!(listing.property_type, 0);
            assert_eq!(listing.wc, 1);
            assert_eq!(listing.floor, 2);
            assert_eq!(listing.tothesea, 3);
            assert!(listing.furniture);
            assert!(!listing.appliances);
            assert_eq!(listing.price, 100000);
            assert_eq!(listing.gallery_location, Some(gallery));
            assert_eq!(listing.id, 7);
        }
        other => panic!("not a record: {:?}", other),
    }
}

#[test]
fn two_photos_are_written_in_order_before_the_insert() {
    let mut state = uploading();
    let mut written = Vec::new();
    let photos = vec![("a.jpg", vec![1u8, 2]), ("b.png", vec![3u8])];
    for (name, data) in photos {
        let step = state.step(CreateEvent::Upload(UploadEvent::Part(Ok(Some(file_head(name))))));
        let step = state_of(step).step(CreateEvent::Upload(UploadEvent::Bytes(Ok(data))));
        match &step {
            CreateStep::Continue {
                action:
                    CreateAction::Upload { gallery, action: UploadAction::WriteFile { file_name, data } },
                ..
            } => {
                assert_eq!(gallery, GALLERY);
                written.push((file_name.clone(), data.clone()));
            }
            other => panic!("no write asked for: {:?}", other),
        }
        state = state_of(state_of(step).step(CreateEvent::Upload(UploadEvent::Written(Ok(())))));
    }
    assert_eq!(
        written,
        vec![("a.jpg".to_string(), vec![1u8, 2]), ("b.png".to_string(), vec![3u8])]
    );
    match state.step(CreateEvent::Upload(UploadEvent::Part(Ok(None)))) {
        CreateStep::Continue { action: CreateAction::InsertRow { record }, .. } => {
            assert_eq!(record.gallery_location, Some(GALLERY.to_string()));
        }
        other => panic!("no insert asked for: {:?}", other),
    }
}

#[test]
fn request_without_photos_goes_straight_to_the_insert() {
    let step = uploading().step(CreateEvent::Upload(UploadEvent::Part(Ok(None))));
    let mut record = flat_a();
    record.gallery_location = Some(GALLERY.to_string());
    assert_eq!(
        step,
        CreateStep::Continue {
            state: CreateState::AwaitingInsert { gallery: GALLERY.to_string() },
            action: CreateAction::InsertRow { record },
        }
    );
}

#[test]
fn server_managed_fields_of_the_client_are_dropped() {
    let mut payload = flat_a();
    payload.id = 99;
    payload.posting_date = Some(PostingDate { seconds: 5, nanoseconds: 6 });
    payload.gallery_location = Some("elsewhere".to_string());
    let draft = payload.drafted(GALLERY.to_string());
    let mut expected = flat_a();
    expected.gallery_location = Some(GALLERY.to_string());
    assert_eq!(draft, expected);
    assert_eq!(draft.id, 0);
    assert_eq!(draft.posting_date, None);
}

#[test]
fn unreadable_body_is_a_bad_request() {
    let step = CreateState::AwaitingFirstPart
        .step(CreateEvent::FirstPart(Err("failed to read stream".to_string())));
    assert_eq!(
        step,
        CreateStep::Finish {
            cleanup: None,
            reply: text(Status::BadRequest, "failed to read stream")
        }
    );
}

#[test]
fn body_without_parts_is_a_bad_request() {
    let step = CreateState::AwaitingFirstPart.step(CreateEvent::FirstPart(Ok(None)));
    assert_eq!(
        step,
        CreateStep::Finish { cleanup: None, reply: text(Status::BadRequest, "Multipart is empty") }
    );
}

#[test]
fn first_part_of_another_type_is_a_bad_request() {
    let head = PartHead { content_type: Some("text/plain".to_string()), file_name: None };
    let step = CreateState::AwaitingFirstPart.step(CreateEvent::FirstPart(Ok(Some(head))));
    assert_eq!(
        step,
        CreateStep::Finish {
            cleanup: None,
            reply: text(Status::BadRequest, "Wrong content type text/plain")
        }
    );
}

#[test]
fn first_part_without_a_type_is_a_bad_request() {
    let head = PartHead { content_type: None, file_name: Some("listing.json".to_string()) };
    let step = CreateState::AwaitingFirstPart.step(CreateEvent::FirstPart(Ok(Some(head))));
    assert_eq!(
        step,
        CreateStep::Finish {
            cleanup: None,
            reply: text(Status::BadRequest, "Missing content type")
        }
    );
}

#[test]
fn json_with_parameters_is_accepted() {
    let head = PartHead {
        content_type: Some("application/json; charset=utf-8".to_string()),
        file_name: None,
    };
    let step = CreateState::AwaitingFirstPart.step(CreateEvent::FirstPart(Ok(Some(head))));
    assert_eq!(
        step,
        CreateStep::Continue {
            state: CreateState::AwaitingPayload,
            action: CreateAction::ReadPayload
        }
    );
}

#[test]
fn malformed_json_stores_nothing() {
    let decoded: Result<serde_json::Value, serde_json::Error> =
        serde_json::from_str("{\"name\":\"Flat A\",");
    let message = decoded.unwrap_err().to_string();
    let step = CreateState::AwaitingPayload.step(CreateEvent::Payload(Err(message.clone())));
    assert_eq!(
        step,
        CreateStep::Finish { cleanup: None, reply: text(Status::BadRequest, &message) }
    );
}

#[test]
fn failed_directory_leaves_nothing_to_clean_up() {
    let state =
        CreateState::AwaitingDirectory { payload: flat_a(), gallery: GALLERY.to_string() };
    let step = state.step(CreateEvent::DirectoryCreated(Err("File exists".to_string())));
    assert_eq!(
        step,
        CreateStep::Finish {
            cleanup: None,
            reply: text(Status::InternalServerError, "File exists")
        }
    );
}

#[test]
fn part_without_a_file_name_removes_the_directory() {
    let head = PartHead { content_type: Some("image/jpeg".to_string()), file_name: None };
    let step = uploading().step(CreateEvent::Upload(UploadEvent::Part(Ok(Some(head)))));
    assert_eq!(
        step,
        CreateStep::Finish {
            cleanup: Some(GALLERY.to_string()),
            reply: text(Status::BadRequest, "Empty filename")
        }
    );
}

#[test]
fn nameless_part_after_a_written_photo_removes_the_directory() {
    let step = uploading()
        .step(CreateEvent::Upload(UploadEvent::Part(Ok(Some(file_head("photo.jpg"))))));
    let step = state_of(step).step(CreateEvent::Upload(UploadEvent::Bytes(Ok(vec![1, 2, 3]))));
    let step = state_of(step).step(CreateEvent::Upload(UploadEvent::Written(Ok(()))));
    let head = PartHead { content_type: None, file_name: None };
    let step = state_of(step).step(CreateEvent::Upload(UploadEvent::Part(Ok(Some(head)))));
    assert_eq!(
        step,
        CreateStep::Finish {
            cleanup: Some(GALLERY.to_string()),
            reply: text(Status::BadRequest, "Empty filename")
        }
    );
}

#[test]
fn broken_part_removes_the_directory() {
    let step = uploading()
        .step(CreateEvent::Upload(UploadEvent::Part(Err("incomplete field".to_string()))));
    assert_eq!(
        step,
        CreateStep::Finish {
            cleanup: Some(GALLERY.to_string()),
            reply: text(Status::BadRequest, "incomplete field")
        }
    );
}

#[test]
fn unreadable_photo_removes_the_directory() {
    let state = CreateState::Uploading {
        payload: flat_a(),
        gallery: GALLERY.to_string(),
        upload: UploadState::AwaitingBytes { file_name: "photo.jpg".to_string() },
    };
    let step = state.step(CreateEvent::Upload(UploadEvent::Bytes(Err("reset".to_string()))));
    assert_eq!(
        step,
        CreateStep::Finish {
            cleanup: Some(GALLERY.to_string()),
            reply: text(Status::BadRequest, "reset")
        }
    );
}

#[test]
fn failed_write_removes_the_directory() {
    let state = CreateState::Uploading {
        payload: flat_a(),
        gallery: GALLERY.to_string(),
        upload: UploadState::AwaitingWrite,
    };
    let step =
        state.step(CreateEvent::Upload(UploadEvent::Written(Err("No space left".to_string()))));
    assert_eq!(
        step,
        CreateStep::Finish {
            cleanup: Some(GALLERY.to_string()),
            reply: text(Status::InternalServerError, "No space left")
        }
    );
}

#[test]
fn failed_insert_removes_the_directory() {
    let state = CreateState::AwaitingInsert { gallery: GALLERY.to_string() };
    let step = state.step(CreateEvent::Inserted(Err("connection closed".to_string())));
    assert_eq!(
        step,
        CreateStep::Finish {
            cleanup: Some(GALLERY.to_string()),
            reply: text(Status::InternalServerError, "connection closed")
        }
    );
}

#[test]
fn report_out_of_turn_before_the_directory_cleans_nothing() {
    let step = CreateState::AwaitingFirstPart.step(CreateEvent::Inserted(Ok(1)));
    assert_eq!(
        step,
        CreateStep::Finish {
            cleanup: None,
            reply: text(Status::InternalServerError, "Unexpected event")
        }
    );
    let step = CreateState::AwaitingPayload.step(CreateEvent::DirectoryCreated(Ok(())));
    assert_eq!(
        step,
        CreateStep::Finish {
            cleanup: None,
            reply: text(Status::InternalServerError, "Unexpected event")
        }
    );
    let state =
        CreateState::AwaitingDirectory { payload: flat_a(), gallery: GALLERY.to_string() };
    let step = state.step(CreateEvent::Payload(Ok(flat_a())));
    assert_eq!(
        step,
        CreateStep::Finish {
            cleanup: None,
            reply: text(Status::InternalServerError, "Unexpected event")
        }
    );
}

#[test]
fn report_out_of_turn_after_the_directory_removes_it() {
    let step = uploading().step(CreateEvent::Inserted(Ok(1)));
    assert_eq!(
        step,
        CreateStep::Finish {
            cleanup: Some(GALLERY.to_string()),
            reply: text(Status::InternalServerError, "Unexpected event")
        }
    );
    let step = uploading().step(CreateEvent::Upload(UploadEvent::Written(Ok(()))));
    assert_eq!(
        step,
        CreateStep::Finish {
            cleanup: Some(GALLERY.to_string()),
            reply: text(Status::InternalServerError, "Unexpected event")
        }
    );
    let state = CreateState::AwaitingInsert { gallery: GALLERY.to_string() };
    let step = state.step(CreateEvent::FirstPart(Ok(None)));
    assert_eq!(
        step,
        CreateStep::Finish {
            cleanup: Some(GALLERY.to_string()),
            reply: text(Status::InternalServerError, "Unexpected event")
        }
    );
}

#[test]
fn only_an_accepted_payload_draws_an_identifier() {
    assert!(CreateState::AwaitingPayload.draws(&CreateEvent::Payload(Ok(flat_a()))));
    assert!(!CreateState::AwaitingPayload.draws(&CreateEvent::Payload(Err("bad".to_string()))));
    assert!(!CreateState::AwaitingFirstPart.draws(&CreateEvent::Payload(Ok(flat_a()))));
    assert!(!uploading().draws(&CreateEvent::Payload(Ok(flat_a()))));
}

#[test]
fn step_with_uses_the_identifier_it_is_given() {
    let step =
        CreateState::AwaitingPayload.step_with(CreateEvent::Payload(Ok(flat_a())), GALLERY.to_string());
    assert_eq!(
        step,
        CreateStep::Continue {
            state: CreateState::AwaitingDirectory { payload: flat_a(), gallery: GALLERY.to_string() },
            action: CreateAction::CreateDirectory { gallery: GALLERY.to_string() },
        }
    );
}

#[test]
fn drawn_identifiers_are_random_version_four_uuids() {
    let mut seen = Vec::new();
    for _ in 0..32 {
        let step = CreateState::AwaitingPayload.step(CreateEvent::Payload(Ok(flat_a())));
        let gallery = match step {
            CreateStep::Continue { action: CreateAction::CreateDirectory { gallery }, .. } => {
                gallery
            }
            other => panic!("no directory asked for: {:?}", other),
        };
        assert_eq!(gallery.len(), 36);
        assert!(has_identifier_shape(&gallery));
        let parsed = uuid::Uuid::parse_str(&gallery).unwrap();
        assert_eq!(parsed.get_version_num(), 4);
        assert_eq!(parsed.to_string(), gallery);
        assert!(!seen.contains(&gallery));
        seen.push(gallery);
    }
}
