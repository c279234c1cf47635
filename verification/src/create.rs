//! Creating a listing together with its gallery.
//!
//! A creation request is a multipart body: first a JSON part that describes
//! the listing, then one part per photo. The listing is stored only after
//! every photo has been written to a fresh directory, and that directory is
//! given up again if anything fails once it exists.
//!
//! The caller does the outside work (reading parts, touching the file system,
//! talking to the datastore) one step at a time. It starts with
//! [`property_create`], performs the action it is handed, reports the outcome
//! to [`CreateState::step`], and goes on until it is handed a
//! [`CreateStep::Finish`].

use crate::gallery::{is_identifier, random_identifier};
use crate::part::{announces_json, is_json, PartHead, PartHeadView};
use crate::property::{Property, PropertyView};
use crate::reply::{outcome_view, Body, BodyView, Reply, ReplyView, Status};
use crate::upload;
use crate::upload::{
    UploadAction, UploadActionView, UploadEvent, UploadEventView, UploadState, UploadStateView,
    UploadStep, UploadStepView, UNEXPECTED_EVENT,
};
use vstd::prelude::*;
use vstd::string::StringExecFns;

verus! {

/// The largest request body that is taken in, in bytes.
pub const MAX_BODY_BYTES: u64 = 1024 * 1024 * 100;

/// The message for a body without any part.
pub const MULTIPART_IS_EMPTY: &'static str = "Multipart is empty";

/// The message for a first part that announces no content type.
pub const MISSING_CONTENT_TYPE: &'static str = "Missing content type";

/// What precedes the offending content type in the message for a first part
/// that is not JSON.
pub const WRONG_CONTENT_TYPE: &'static str = "Wrong content type ";

/// What the caller reports.
#[derive(Debug, PartialEq, Eq)]
pub enum CreateEvent {
    /// The head of the first part, `None` if the body has no part.
    FirstPart(Result<Option<PartHead>, String>),
    /// The listing decoded from the text of the first part.
    Payload(Result<Property, String>),
    /// How creating the gallery's directory went.
    DirectoryCreated(Result<(), String>),
    /// A report on the upload of the photos.
    Upload(UploadEvent),
    /// The id that the datastore gave the new listing.
    Inserted(Result<i32, String>),
}

pub enum CreateEventView {
    FirstPart(Result<Option<PartHeadView>, Seq<char>>),
    Payload(Result<PropertyView, Seq<char>>),
    DirectoryCreated(Result<(), Seq<char>>),
    Upload(UploadEventView),
    Inserted(Result<i32, Seq<char>>),
}

impl View for CreateEvent {
    type V = CreateEventView;

    open spec fn view(&self) -> CreateEventView {
        match self {
            CreateEvent::FirstPart(part) => CreateEventView::FirstPart(outcome_view(*part)),
            CreateEvent::Payload(payload) => CreateEventView::Payload(outcome_view(*payload)),
            CreateEvent::DirectoryCreated(outcome) => CreateEventView::DirectoryCreated(
                outcome_view(*outcome),
            ),
            CreateEvent::Upload(event) => CreateEventView::Upload(event@),
            CreateEvent::Inserted(outcome) => CreateEventView::Inserted(outcome_view(*outcome)),
        }
    }
}

/// What the caller is asked to do.
#[derive(Clone, Debug, PartialEq, Eq)]
pub enum CreateAction {
    /// Read the head of the first part.
    FirstPart,
    /// Read the text of the first part and decode it as a listing.
    ReadPayload,
    /// Create the directory `gallery` under the upload root. It must not
    /// exist yet.
    CreateDirectory { gallery: String },
    /// Do `action` for the upload into the directory `gallery`.
    Upload { gallery: String, action: UploadAction },
    /// Insert `record` into the datastore and report the id it was given.
    InsertRow { record: Property },
}

pub enum CreateActionView {
    FirstPart,
    ReadPayload,
    CreateDirectory { gallery: Seq<char> },
    Upload { gallery: Seq<char>, action: UploadActionView },
    InsertRow { record: PropertyView },
}

impl View for CreateAction {
    type V = CreateActionView;

    open spec fn view(&self) -> CreateActionView {
        match self {
            CreateAction::FirstPart => CreateActionView::FirstPart,
            CreateAction::ReadPayload => CreateActionView::ReadPayload,
            CreateAction::CreateDirectory { gallery } => CreateActionView::CreateDirectory {
                gallery: gallery@,
            },
            CreateAction::Upload { gallery, action } => CreateActionView::Upload {
                gallery: gallery@,
                action: action@,
            },
            CreateAction::InsertRow { record } => CreateActionView::InsertRow { record: record@ },
        }
    }
}

impl CreateActionView {
    /// The gallery that the action is about, if it is about one.
    pub open spec fn gallery(self) -> Option<Seq<char>> {
        match self {
            CreateActionView::CreateDirectory { gallery } => Some(gallery),
            CreateActionView::Upload { gallery, .. } => Some(gallery),
            CreateActionView::InsertRow { record } => record.gallery_location,
            _ => None,
        }
    }
}

/// Where a creation request stands: which report it waits for, and what it
/// has to remember until then.
#[derive(Clone, Debug, PartialEq, Eq)]
pub enum CreateState {
    AwaitingFirstPart,
    AwaitingPayload,
    AwaitingDirectory { payload: Property, gallery: String },
    Uploading { payload: Property, gallery: String, upload: UploadState },
    AwaitingInsert { gallery: String },
}

pub enum CreateStateView {
    AwaitingFirstPart,
    AwaitingPayload,
    AwaitingDirectory { payload: PropertyView, gallery: Seq<char> },
    Uploading { payload: PropertyView, gallery: Seq<char>, upload: UploadStateView },
    AwaitingInsert { gallery: Seq<char> },
}

impl View for CreateState {
    type V = CreateStateView;

    open spec fn view(&self) -> CreateStateView {
        match self {
            CreateState::AwaitingFirstPart => CreateStateView::AwaitingFirstPart,
            CreateState::AwaitingPayload => CreateStateView::AwaitingPayload,
            CreateState::AwaitingDirectory { payload, gallery } => {
                CreateStateView::AwaitingDirectory { payload: payload@, gallery: gallery@ }
            },
            CreateState::Uploading { payload, gallery, upload } => CreateStateView::Uploading {
                payload: payload@,
                gallery: gallery@,
                upload: upload@,
            },
            CreateState::AwaitingInsert { gallery } => CreateStateView::AwaitingInsert {
                gallery: gallery@,
            },
        }
    }
}

/// What follows a report: more work, or the end of the request.
#[derive(Debug, PartialEq, Eq)]
pub enum CreateStep {
    Continue { state: CreateState, action: CreateAction },
    /// The request is over. The caller removes the directory `cleanup`, if
    /// one is named, with all that is in it, without regard to how that
    /// goes, and sends `reply`.
    Finish { cleanup: Option<String>, reply: Reply },
}

pub enum CreateStepView {
    Continue { state: CreateStateView, action: CreateActionView },
    Finish { cleanup: Option<Seq<char>>, reply: ReplyView },
}

impl View for CreateStep {
    type V = CreateStepView;

    open spec fn view(&self) -> CreateStepView {
        match self {
            CreateStep::Continue { state, action } => CreateStepView::Continue {
                state: state@,
                action: action@,
            },
            CreateStep::Finish { cleanup, reply } => CreateStepView::Finish {
                cleanup: cleanup.deep_view(),
                reply: reply@,
            },
        }
    }
}

impl CreateStepView {
    /// The request ends with an error reply, after `cleanup` is removed.
    pub open spec fn failed(
        cleanup: Option<Seq<char>>,
        status: Status,
        message: Seq<char>,
    ) -> CreateStepView {
        CreateStepView::Finish { cleanup, reply: ReplyView::text(status, message) }
    }

    /// Whether the step names no directory but the request's own gallery,
    /// and that by an identifier: the state is well formed, the action is
    /// about no other gallery than the state's, and what is to be removed
    /// is named by an identifier.
    pub open spec fn well_formed(self) -> bool {
        match self {
            CreateStepView::Continue { state, action } => {
                &&& state.well_formed()
                &&& action.gallery() matches Some(gallery) ==> state.gallery() == Some(gallery)
            },
            CreateStepView::Finish { cleanup, .. } => {
                cleanup matches Some(gallery) ==> is_identifier(gallery)
            },
        }
    }

    /// The identifier that this step asks a directory to be created under,
    /// the empty text if it asks for no directory.
    pub open spec fn drawn(self) -> Seq<char> {
        match self {
            CreateStepView::Continue {
                action: CreateActionView::CreateDirectory { gallery },
                ..
            } => gallery,
            _ => Seq::empty(),
        }
    }
}

impl CreateStateView {
    /// The directory that exists on behalf of the request in this state.
    pub open spec fn directory(self) -> Option<Seq<char>> {
        match self {
            CreateStateView::Uploading { gallery, .. } => Some(gallery),
            CreateStateView::AwaitingInsert { gallery } => Some(gallery),
            _ => None,
        }
    }

    /// The gallery that the request has drawn an identifier for, if it has.
    pub open spec fn gallery(self) -> Option<Seq<char>> {
        match self {
            CreateStateView::AwaitingDirectory { gallery, .. } => Some(gallery),
            CreateStateView::Uploading { gallery, .. } => Some(gallery),
            CreateStateView::AwaitingInsert { gallery } => Some(gallery),
            _ => None,
        }
    }

    /// Whether the gallery of the request, if it has one, is named by an
    /// identifier. Every state that [`property_create`] and
    /// [`CreateState::step`] lead to is well formed.
    pub open spec fn well_formed(self) -> bool {
        self.gallery() matches Some(gallery) ==> is_identifier(gallery)
    }

    /// Whether `event` makes the request draw a fresh gallery identifier.
    pub open spec fn draws(self, event: CreateEventView) -> bool {
        self is AwaitingPayload && event matches CreateEventView::Payload(Ok(_))
    }
}

/// The first step of every request.
pub open spec fn initial() -> CreateStepView {
    CreateStepView::Continue {
        state: CreateStateView::AwaitingFirstPart,
        action: CreateActionView::FirstPart,
    }
}

/// What follows the head of the first part.
pub open spec fn first_part_verdict(
    part: Result<Option<PartHeadView>, Seq<char>>,
) -> CreateStepView {
    match part {
        Err(message) => CreateStepView::failed(None, Status::BadRequest, message),
        Ok(None) => CreateStepView::failed(None, Status::BadRequest, MULTIPART_IS_EMPTY@),
        Ok(Some(head)) => match head.content_type {
            None => CreateStepView::failed(None, Status::BadRequest, MISSING_CONTENT_TYPE@),
            Some(content_type) => if announces_json(content_type) {
                CreateStepView::Continue {
                    state: CreateStateView::AwaitingPayload,
                    action: CreateActionView::ReadPayload,
                }
            } else {
                CreateStepView::failed(
                    None,
                    Status::BadRequest,
                    WRONG_CONTENT_TYPE@ + content_type,
                )
            },
        },
    }
}

/// What follows a step of the upload into the directory `gallery`.
pub open spec fn upload_verdict(
    payload: PropertyView,
    gallery: Seq<char>,
    step: UploadStepView,
) -> CreateStepView {
    match step {
        UploadStepView::Continue { state, action } => CreateStepView::Continue {
            state: CreateStateView::Uploading { payload, gallery, upload: state },
            action: CreateActionView::Upload { gallery, action },
        },
        UploadStepView::Done { outcome: Ok(()) } => CreateStepView::Continue {
            state: CreateStateView::AwaitingInsert { gallery },
            action: CreateActionView::InsertRow { record: payload.drafted(gallery) },
        },
        UploadStepView::Done { outcome: Err(reply) } => CreateStepView::Finish {
            cleanup: Some(gallery),
            reply,
        },
    }
}

/// The step that follows `event` in `state`. `fresh` is the identifier that
/// the request draws when it accepts a payload; no other step looks at it.
///
/// Until the directory exists, a failure ends the request and leaves nothing
/// to clean up. From then on every failure names the directory for removal.
/// Only the id of the inserted row ends the request in success. A report that
/// does not answer the work asked for ends the request as a server fault.
pub open spec fn transition(
    state: CreateStateView,
    event: CreateEventView,
    fresh: Seq<char>,
) -> CreateStepView {
    match (state, event) {
        (CreateStateView::AwaitingFirstPart, CreateEventView::FirstPart(part)) => {
            first_part_verdict(part)
        },
        (CreateStateView::AwaitingPayload, CreateEventView::Payload(Err(message))) => {
            CreateStepView::failed(None, Status::BadRequest, message)
        },
        (CreateStateView::AwaitingPayload, CreateEventView::Payload(Ok(payload))) => {
            CreateStepView::Continue {
                state: CreateStateView::AwaitingDirectory { payload, gallery: fresh },
                action: CreateActionView::CreateDirectory { gallery: fresh },
            }
        },
        (
            CreateStateView::AwaitingDirectory { payload, gallery },
            CreateEventView::DirectoryCreated(Err(message)),
        ) => CreateStepView::failed(None, Status::InternalServerError, message),
        (
            CreateStateView::AwaitingDirectory { payload, gallery },
            CreateEventView::DirectoryCreated(Ok(())),
        ) => CreateStepView::Continue {
            state: CreateStateView::Uploading {
                payload,
                gallery,
                upload: UploadStateView::AwaitingPart,
            },
            action: CreateActionView::Upload { gallery, action: UploadActionView::NextPart },
        },
        (
            CreateStateView::Uploading { payload, gallery, upload },
            CreateEventView::Upload(event),
        ) => upload_verdict(payload, gallery, upload::transition(upload, event)),
        (CreateStateView::AwaitingInsert { gallery }, CreateEventView::Inserted(Ok(id))) => {
            CreateStepView::Finish { cleanup: None, reply: ReplyView::json(BodyView::Id(id)) }
        },
        (CreateStateView::AwaitingInsert { gallery }, CreateEventView::Inserted(Err(message))) => {
            CreateStepView::failed(Some(gallery), Status::InternalServerError, message)
        },
        _ => CreateStepView::failed(
            state.directory(),
            Status::InternalServerError,
            UNEXPECTED_EVENT@,
        ),
    }
}

/// A step from a well-formed state leads to a well-formed step, provided
/// that what is drawn, where something is drawn, is an identifier.
pub proof fn lemma_step_keeps_well_formed(
    state: CreateStateView,
    event: CreateEventView,
    fresh: Seq<char>,
)
    requires
        state.well_formed(),
        state.draws(event) ==> is_identifier(fresh),
    ensures
        transition(state, event, fresh).well_formed(),
{
}

fn failed(cleanup: Option<String>, status: Status, message: String) -> (step: CreateStep)
    ensures
        step@ == CreateStepView::failed(cleanup.deep_view(), status, message@),
{
    CreateStep::Finish { cleanup, reply: Reply::text(status, message) }
}

fn unexpected(cleanup: Option<String>) -> (step: CreateStep)
    ensures
        step@ == CreateStepView::failed(
            cleanup.deep_view(),
            Status::InternalServerError,
            UNEXPECTED_EVENT@,
        ),
{
    CreateStep::Finish {
        cleanup,
        reply: Reply::fixed(Status::InternalServerError, UNEXPECTED_EVENT),
    }
}

fn after_first_part(part: Result<Option<PartHead>, String>) -> (step: CreateStep)
    ensures
        step@ == first_part_verdict(outcome_view(part)),
{
    match part {
        Err(message) => failed(None, Status::BadRequest, message),
        Ok(None) => CreateStep::Finish {
            cleanup: None,
            reply: Reply::fixed(Status::BadRequest, MULTIPART_IS_EMPTY),
        },
        Ok(Some(head)) => match head.content_type {
            None => CreateStep::Finish {
                cleanup: None,
                reply: Reply::fixed(Status::BadRequest, MISSING_CONTENT_TYPE),
            },
            Some(content_type) => {
                if is_json(content_type.as_str()) {
                    CreateStep::Continue {
                        state: CreateState::AwaitingPayload,
                        action: CreateAction::ReadPayload,
                    }
                } else {
                    let mut message = String::from_str(WRONG_CONTENT_TYPE);
                    message.append(content_type.as_str());
                    failed(None, Status::BadRequest, message)
                }
            },
        },
    }
}

fn after_upload(payload: Property, gallery: String, step: UploadStep) -> (next: CreateStep)
    ensures
        next@ == upload_verdict(payload@, gallery@, step@),
{
    match step {
        UploadStep::Continue { state, action } => {
            let directory = gallery.clone();
            CreateStep::Continue {
                state: CreateState::Uploading { payload, gallery, upload: state },
                action: CreateAction::Upload { gallery: directory, action },
            }
        },
        UploadStep::Done { outcome: Ok(()) } => {
            let directory = gallery.clone();
            CreateStep::Continue {
                state: CreateState::AwaitingInsert { gallery },
                action: CreateAction::InsertRow { record: payload.drafted(directory) },
            }
        },
        UploadStep::Done { outcome: Err(reply) } => CreateStep::Finish {
            cleanup: Some(gallery),
            reply,
        },
    }
}

/// Begins a creation request: the state it starts in, and its first action.
pub fn property_create() -> (first: CreateStep)
    ensures
        first@ == initial(),
        first@.well_formed(),
{
    CreateStep::Continue { state: CreateState::AwaitingFirstPart, action: CreateAction::FirstPart }
}

impl CreateState {
    /// Whether `event` makes the request draw a fresh gallery identifier.
    pub fn draws(&self, event: &CreateEvent) -> (draws: bool)
        ensures
            draws == self@.draws(event@),
    {
        match (self, event) {
            (CreateState::AwaitingPayload, CreateEvent::Payload(Ok(_))) => true,
            _ => false,
        }
    }

    /// Takes the caller's report and says what follows, with `fresh` for the
    /// identifier of the gallery in case the report calls for one.
    pub fn step_with(self, event: CreateEvent, fresh: String) -> (next: CreateStep)
        ensures
            next@ == transition(self@, event@, fresh@),
    {
        match self {
            CreateState::AwaitingFirstPart => match event {
                CreateEvent::FirstPart(part) => after_first_part(part),
                _ => unexpected(None),
            },
            CreateState::AwaitingPayload => match event {
                CreateEvent::Payload(Err(message)) => failed(None, Status::BadRequest, message),
                CreateEvent::Payload(Ok(payload)) => {
                    let gallery = fresh.clone();
                    CreateStep::Continue {
                        state: CreateState::AwaitingDirectory { payload, gallery },
                        action: CreateAction::CreateDirectory { gallery: fresh },
                    }
                },
                _ => unexpected(None),
            },
            CreateState::AwaitingDirectory { payload, gallery } => match event {
                CreateEvent::DirectoryCreated(Err(message)) => failed(
                    None,
                    Status::InternalServerError,
                    message,
                ),
                CreateEvent::DirectoryCreated(Ok(())) => {
                    let directory = gallery.clone();
                    CreateStep::Continue {
                        state: CreateState::Uploading {
                            payload,
                            gallery,
                            upload: UploadState::AwaitingPart,
                        },
                        action: CreateAction::Upload {
                            gallery: directory,
                            action: UploadAction::NextPart,
                        },
                    }
                },
                _ => unexpected(None),
            },
            CreateState::Uploading { payload, gallery, upload } => match event {
                CreateEvent::Upload(event) => after_upload(payload, gallery, upload.step(event)),
                _ => unexpected(Some(gallery)),
            },
            CreateState::AwaitingInsert { gallery } => match event {
                CreateEvent::Inserted(Ok(id)) => CreateStep::Finish {
                    cleanup: None,
                    reply: Reply::json(Body::Id(id)),
                },
                CreateEvent::Inserted(Err(message)) => failed(
                    Some(gallery),
                    Status::InternalServerError,
                    message,
                ),
                _ => unexpected(Some(gallery)),
            },
        }
    }

    /// Takes the caller's report and says what follows. Where the report is
    /// an accepted payload, the gallery gets a fresh random identifier.
    pub fn step(self, event: CreateEvent) -> (next: CreateStep)
        ensures
            next@ == transition(self@, event@, next@.drawn()),
            self@.draws(event@) ==> is_identifier(next@.drawn()),
            self@.well_formed() ==> next@.well_formed(),
    {
        let next = if self.draws(&event) {
            self.step_with(event, random_identifier())
        } else {
            self.step_with(event, String::new())
        };
        proof {
            if self@.well_formed() {
                lemma_step_keeps_well_formed(self@, event@, next@.drawn());
            }
        }
        next
    }
}

} // verus!
