//! What a creation request does to the outside world.
//!
//! The request itself only decides; its caller acts. This module follows a
//! request through any sequence of reports and keeps the books on what the
//! caller has done on its behalf, taking every report at its word and the
//! final removal of the directory as done. The laws at the end state what
//! holds of those books: a request stores everything or nothing.
//!
//! The books do not cover what the caller is never told: work that took
//! effect without a report of success, a removal that failed, a crash.

use crate::create::{
    initial, transition, CreateActionView, CreateEventView, CreateStateView, CreateStepView,
};
use crate::part::{announces_json, PartHeadView};
use crate::property::PropertyView;
use crate::reply::{BodyView, ReplyView, Status};
use crate::upload::{UploadActionView, UploadEventView, UploadStateView, EMPTY_FILENAME};
use vstd::prelude::*;

verus! {

/// The traces of one request in the outside world.
pub struct Effects {
    /// The directory that was created, whether or not it still stands.
    pub created: Option<Seq<char>>,
    /// Whether that directory stands.
    pub standing: bool,
    /// The files in it, by name.
    pub files: Map<Seq<char>, Seq<u8>>,
    /// The row that was inserted, with the id it was given.
    pub row: Option<PropertyView>,
}

impl Effects {
    /// Nothing has happened.
    pub open spec fn none() -> Effects {
        Effects { created: None, standing: false, files: Map::empty(), row: None }
    }

    /// The books after `action` was carried out and reported as `event`.
    /// Only a report of success changes them.
    pub open spec fn after(self, action: CreateActionView, event: CreateEventView) -> Effects {
        match (action, event) {
            (
                CreateActionView::CreateDirectory { gallery },
                CreateEventView::DirectoryCreated(Ok(())),
            ) => Effects { created: Some(gallery), standing: true, files: Map::empty(), ..self },
            (
                CreateActionView::Upload {
                    gallery,
                    action: UploadActionView::WriteFile { file_name, data },
                },
                CreateEventView::Upload(UploadEventView::Written(Ok(()))),
            ) => if self.standing && self.created == Some(gallery) {
                Effects { files: self.files.insert(file_name, data), ..self }
            } else {
                self
            },
            (CreateActionView::InsertRow { record }, CreateEventView::Inserted(Ok(id))) => Effects {
                row: Some(PropertyView { id, ..record }),
                ..self
            },
            _ => self,
        }
    }

    /// The books after the directory `cleanup`, if one is named, was removed
    /// with all that was in it.
    pub open spec fn cleaned(self, cleanup: Option<Seq<char>>) -> Effects {
        if cleanup is Some && cleanup == self.created {
            Effects { standing: false, files: Map::empty(), ..self }
        } else {
            self
        }
    }
}

/// How far a request has come.
pub enum Run {
    /// The caller has been handed `action` and has not reported on it yet.
    Pending { state: CreateStateView, action: CreateActionView, effects: Effects },
    /// The request is over and `reply` went out.
    Finished { reply: ReplyView, effects: Effects },
}

impl Run {
    pub open spec fn effects(self) -> Effects {
        match self {
            Run::Pending { effects, .. } => effects,
            Run::Finished { effects, .. } => effects,
        }
    }

    /// The request as it begins.
    pub open spec fn begin() -> Run {
        match initial() {
            CreateStepView::Continue { state, action } => Run::Pending {
                state,
                action,
                effects: Effects::none(),
            },
            CreateStepView::Finish { cleanup, reply } => Run::Finished {
                reply,
                effects: Effects::none(),
            },
        }
    }

    /// The request after one more report. Reports that come after the end
    /// change nothing.
    pub open spec fn advance(self, event: CreateEventView, fresh: Seq<char>) -> Run {
        match self {
            Run::Finished { .. } => self,
            Run::Pending { state, action, effects } => {
                let effects = effects.after(action, event);
                match transition(state, event, fresh) {
                    CreateStepView::Continue { state, action } => Run::Pending {
                        state,
                        action,
                        effects,
                    },
                    CreateStepView::Finish { cleanup, reply } => Run::Finished {
                        reply,
                        effects: effects.cleaned(cleanup),
                    },
                }
            },
        }
    }
}

/// The request after the reports `events`, each answering the action that
/// the request asked for last. `fresh` is the identifier that it draws.
pub open spec fn run(events: Seq<CreateEventView>, fresh: Seq<char>) -> Run
    decreases events.len(),
{
    if events.len() == 0 {
        Run::begin()
    } else {
        run(events.drop_last(), fresh).advance(events.last(), fresh)
    }
}

/// What holds of a request that is over. After success the directory named
/// `fresh` stands and a row points to it, under the id that the reply gives.
/// After any failure no directory stands and no row was inserted.
pub open spec fn settled(reply: ReplyView, effects: Effects, fresh: Seq<char>) -> bool {
    if reply.status == Status::Success {
        &&& effects.created == Some(fresh)
        &&& effects.standing
        &&& effects.row matches Some(row)
        &&& row.gallery_location == Some(fresh)
        &&& reply.body == BodyView::Id(row.id)
    } else {
        &&& !effects.standing
        &&& effects.row is None
    }
}

/// Whether the upload in state `upload` waits for the report on `work`.
pub open spec fn answers(upload: UploadStateView, work: UploadActionView) -> bool {
    match upload {
        UploadStateView::AwaitingPart => work is NextPart,
        UploadStateView::AwaitingBytes { .. } => work is ReadBytes,
        UploadStateView::AwaitingWrite => work is WriteFile,
    }
}

/// What holds of a request at every moment.
///
/// While it waits, the action it asked for is the one its state waits on.
/// Nothing is stored before the directory is reported as created; from then
/// on the directory named `fresh` stands, and no row is inserted before the
/// end. Once it is over, it is [`settled`].
pub open spec fn consistent(run: Run, fresh: Seq<char>) -> bool {
    match run {
        Run::Pending { state, action, effects } => match state {
            CreateStateView::AwaitingFirstPart => {
                &&& action == CreateActionView::FirstPart
                &&& effects == Effects::none()
            },
            CreateStateView::AwaitingPayload => {
                &&& action == CreateActionView::ReadPayload
                &&& effects == Effects::none()
            },
            CreateStateView::AwaitingDirectory { payload, gallery } => {
                &&& gallery == fresh
                &&& action == (CreateActionView::CreateDirectory { gallery })
                &&& effects == Effects::none()
            },
            CreateStateView::Uploading { payload, gallery, upload } => {
                &&& gallery == fresh
                &&& action matches CreateActionView::Upload { gallery: directory, action: work }
                &&& directory == gallery
                &&& answers(upload, work)
                &&& effects.created == Some(gallery)
                &&& effects.standing
                &&& effects.row is None
            },
            CreateStateView::AwaitingInsert { gallery } => {
                &&& gallery == fresh
                &&& action matches CreateActionView::InsertRow { record }
                &&& record.gallery_location == Some(gallery)
                &&& effects.created == Some(gallery)
                &&& effects.standing
                &&& effects.row is None
            },
        },
        Run::Finished { reply, effects } => settled(reply, effects, fresh),
    }
}

/// One more report extends a run by one step.
pub proof fn lemma_run_push(events: Seq<CreateEventView>, event: CreateEventView, fresh: Seq<char>)
    ensures
        run(events.push(event), fresh) == run(events, fresh).advance(event, fresh),
{
    assert(events.push(event).drop_last() =~= events);
}

/// A step keeps a consistent run consistent.
proof fn lemma_advance_is_consistent(before: Run, event: CreateEventView, fresh: Seq<char>)
    requires
        consistent(before, fresh),
    ensures
        consistent(before.advance(event, fresh), fresh),
{
}

/// Every run is consistent, whatever is reported and in whatever order.
pub proof fn lemma_run_is_consistent(events: Seq<CreateEventView>, fresh: Seq<char>)
    ensures
        consistent(run(events, fresh), fresh),
    decreases events.len(),
{
    if events.len() > 0 {
        lemma_run_is_consistent(events.drop_last(), fresh);
        lemma_advance_is_consistent(run(events.drop_last(), fresh), events.last(), fresh);
    }
}

/// Once a request is over, further reports change nothing.
pub proof fn lemma_finished_is_final(
    events: Seq<CreateEventView>,
    rest: Seq<CreateEventView>,
    fresh: Seq<char>,
)
    requires
        run(events, fresh) is Finished,
    ensures
        run(events + rest, fresh) == run(events, fresh),
    decreases rest.len(),
{
    if rest.len() == 0 {
        assert(events + rest =~= events);
    } else {
        lemma_finished_is_final(events, rest.drop_last(), fresh);
        assert((events + rest).drop_last() =~= events + rest.drop_last());
    }
}

/// As long as no payload has been reported as decoded, nothing is stored:
/// no directory is created and no row is inserted, whatever else is
/// reported. This covers a body without parts, a first part that is not
/// JSON, and a payload that does not decode.
pub proof fn lemma_nothing_stored_before_payload(events: Seq<CreateEventView>, fresh: Seq<char>)
    requires
        forall|i: int|
            0 <= i < events.len() ==> !(#[trigger] events[i] matches CreateEventView::Payload(
                Ok(_),
            )),
    ensures
        run(events, fresh).effects() == Effects::none(),
        run(events, fresh) matches Run::Pending { state, .. } ==> state is AwaitingFirstPart
            || state is AwaitingPayload,
    decreases events.len(),
{
    if events.len() > 0 {
        lemma_nothing_stored_before_payload(events.drop_last(), fresh);
        lemma_run_is_consistent(events.drop_last(), fresh);
        assert(!(events[events.len() - 1] matches CreateEventView::Payload(Ok(_))));
    }
}

/// A payload that does not decode ends the request with the decoder's
/// message as a client error, and nothing is stored.
pub proof fn lemma_malformed_payload_stores_nothing(
    first: PartHeadView,
    message: Seq<char>,
    rest: Seq<CreateEventView>,
    fresh: Seq<char>,
)
    requires
        first.content_type matches Some(content_type) && announces_json(content_type),
    ensures
        run(
            seq![
                CreateEventView::FirstPart(Ok(Some(first))),
                CreateEventView::Payload(Err(message)),
            ] + rest,
            fresh,
        ) == (Run::Finished {
            reply: ReplyView::text(Status::BadRequest, message),
            effects: Effects::none(),
        }),
{
    let head = CreateEventView::FirstPart(Ok(Some(first)));
    let payload = CreateEventView::Payload(Err(message));
    let none = Seq::<CreateEventView>::empty();
    lemma_run_push(none, head, fresh);
    lemma_run_push(none.push(head), payload, fresh);
    assert(seq![head, payload] =~= none.push(head).push(payload));
    lemma_finished_is_final(seq![head, payload], rest, fresh);
}

/// A part without a file name, arriving while the upload waits for a part,
/// ends the request as a client error, and the directory that was created
/// for the request no longer stands.
pub proof fn lemma_missing_file_name_gives_up_directory(
    events: Seq<CreateEventView>,
    head: PartHeadView,
    fresh: Seq<char>,
)
    requires
        run(events, fresh) matches Run::Pending {
            state: CreateStateView::Uploading { upload: UploadStateView::AwaitingPart, .. },
            ..
        },
        head.file_name is None,
    ensures
        run(events.push(CreateEventView::Upload(UploadEventView::Part(Ok(Some(head))))), fresh)
            matches Run::Finished { reply, effects } && {
            &&& reply == ReplyView::text(Status::BadRequest, EMPTY_FILENAME@)
            &&& effects.created == Some(fresh)
            &&& !effects.standing
            &&& effects.row is None
        },
{
    lemma_run_is_consistent(events, fresh);
    lemma_run_push(events, CreateEventView::Upload(UploadEventView::Part(Ok(Some(head)))), fresh);
}

/// An insert that fails ends the request as a server fault with the
/// datastore's message; the directory, with the files written to it, no
/// longer stands, and no row was inserted.
pub proof fn lemma_failed_insert_gives_up_directory(
    events: Seq<CreateEventView>,
    message: Seq<char>,
    fresh: Seq<char>,
)
    requires
        run(events, fresh) matches Run::Pending {
            state: CreateStateView::AwaitingInsert { .. },
            ..
        },
    ensures
        run(events.push(CreateEventView::Inserted(Err(message))), fresh) matches Run::Finished {
            reply,
            effects,
        } && {
            &&& reply == ReplyView::text(Status::InternalServerError, message)
            &&& effects.created == Some(fresh)
            &&& !effects.standing
            &&& effects.files == Map::<Seq<char>, Seq<u8>>::empty()
            &&& effects.row is None
        },
{
    lemma_run_is_consistent(events, fresh);
    lemma_run_push(events, CreateEventView::Inserted(Err(message)), fresh);
}

/// One photo of a request: the head of its part and its bytes.
pub struct FilePart {
    pub head: PartHeadView,
    pub data: Seq<u8>,
}

/// The reports on one photo that arrives intact and is written.
pub open spec fn file_events(part: FilePart) -> Seq<CreateEventView> {
    seq![
        CreateEventView::Upload(UploadEventView::Part(Ok(Some(part.head)))),
        CreateEventView::Upload(UploadEventView::Bytes(Ok(part.data))),
        CreateEventView::Upload(UploadEventView::Written(Ok(()))),
    ]
}

/// The reports on a sequence of photos that all arrive intact and are
/// written.
pub open spec fn upload_events(parts: Seq<FilePart>) -> Seq<CreateEventView>
    decreases parts.len(),
{
    if parts.len() == 0 {
        Seq::empty()
    } else {
        upload_events(parts.drop_last()) + file_events(parts.last())
    }
}

/// The reports of a request in which nothing goes wrong: a JSON part that
/// decodes to `payload`, a directory that is created, the photos `parts`,
/// the end of the body, and a row inserted under `id`.
pub open spec fn smooth_events(
    first: PartHeadView,
    payload: PropertyView,
    parts: Seq<FilePart>,
    id: i32,
) -> Seq<CreateEventView> {
    seq![
        CreateEventView::FirstPart(Ok(Some(first))),
        CreateEventView::Payload(Ok(payload)),
        CreateEventView::DirectoryCreated(Ok(())),
    ] + upload_events(parts) + seq![
        CreateEventView::Upload(UploadEventView::Part(Ok(None))),
        CreateEventView::Inserted(Ok(id)),
    ]
}

impl FilePart {
    /// The name of the photo's file, meaningful where the head gives one.
    pub open spec fn name(self) -> Seq<char> {
        self.head.file_name->0
    }
}

/// The directory that holds the photos `parts`, written in that order: a
/// later photo replaces an earlier one of the same name.
pub open spec fn stored(parts: Seq<FilePart>) -> Map<Seq<char>, Seq<u8>>
    decreases parts.len(),
{
    if parts.len() == 0 {
        Map::empty()
    } else {
        stored(parts.drop_last()).insert(parts.last().name(), parts.last().data)
    }
}

/// Whether every photo names its file.
pub open spec fn all_named(parts: Seq<FilePart>) -> bool {
    forall|i: int| 0 <= i < parts.len() ==> (#[trigger] parts[i]).head.file_name is Some
}

/// Whether no two photos share a file name.
pub open spec fn distinctly_named(parts: Seq<FilePart>) -> bool {
    forall|i: int, j: int|
        0 <= i < j < parts.len() ==> (#[trigger] parts[i]).name() != (#[trigger] parts[j]).name()
}

/// Whether one of the photos is named `name`.
pub open spec fn names(parts: Seq<FilePart>, name: Seq<char>) -> bool {
    exists|i: int| 0 <= i < parts.len() && (#[trigger] parts[i]).name() == name
}

proof fn lemma_uploading(
    first: PartHeadView,
    payload: PropertyView,
    parts: Seq<FilePart>,
    fresh: Seq<char>,
)
    requires
        first.content_type matches Some(content_type) && announces_json(content_type),
        all_named(parts),
    ensures
        run(
            seq![
                CreateEventView::FirstPart(Ok(Some(first))),
                CreateEventView::Payload(Ok(payload)),
                CreateEventView::DirectoryCreated(Ok(())),
            ] + upload_events(parts),
            fresh,
        ) == (Run::Pending {
            state: CreateStateView::Uploading {
                payload,
                gallery: fresh,
                upload: UploadStateView::AwaitingPart,
            },
            action: CreateActionView::Upload { gallery: fresh, action: UploadActionView::NextPart },
            effects: Effects {
                created: Some(fresh),
                standing: true,
                files: stored(parts),
                row: None,
            },
        }),
    decreases parts.len(),
{
    let a = CreateEventView::FirstPart(Ok(Some(first)));
    let b = CreateEventView::Payload(Ok(payload));
    let c = CreateEventView::DirectoryCreated(Ok(()));
    let opening = seq![a, b, c];
    if parts.len() == 0 {
        let none = Seq::<CreateEventView>::empty();
        lemma_run_push(none, a, fresh);
        lemma_run_push(none.push(a), b, fresh);
        lemma_run_push(none.push(a).push(b), c, fresh);
        assert(opening + upload_events(parts) =~= none.push(a).push(b).push(c));
    } else {
        let earlier = parts.drop_last();
        let part = parts.last();
        assert(all_named(earlier)) by {
            assert forall|i: int| 0 <= i < earlier.len() implies (
            #[trigger] earlier[i]).head.file_name is Some by {
                assert(earlier[i] == parts[i]);
            }
        }
        lemma_uploading(first, payload, earlier, fresh);
        let so_far = opening + upload_events(earlier);
        let x = CreateEventView::Upload(UploadEventView::Part(Ok(Some(part.head))));
        let y = CreateEventView::Upload(UploadEventView::Bytes(Ok(part.data)));
        let z = CreateEventView::Upload(UploadEventView::Written(Ok(())));
        assert(part.head.file_name is Some);
        lemma_run_push(so_far, x, fresh);
        lemma_run_push(so_far.push(x), y, fresh);
        lemma_run_push(so_far.push(x).push(y), z, fresh);
        assert(opening + upload_events(parts) =~= so_far.push(x).push(y).push(z));
    }
}

/// A request in which nothing goes wrong stores everything. It ends in
/// success with the id of the new row. The directory named by the fresh
/// identifier stands and holds the photos of the request and nothing else.
/// The inserted row carries the client's fields, points to that directory by
/// name, and takes its id from the datastore.
pub proof fn lemma_smooth_request_stores_everything(
    first: PartHeadView,
    payload: PropertyView,
    parts: Seq<FilePart>,
    id: i32,
    fresh: Seq<char>,
)
    requires
        first.content_type matches Some(content_type) && announces_json(content_type),
        all_named(parts),
    ensures
        run(smooth_events(first, payload, parts, id), fresh) == (Run::Finished {
            reply: ReplyView::json(BodyView::Id(id)),
            effects: Effects {
                created: Some(fresh),
                standing: true,
                files: stored(parts),
                row: Some(PropertyView { id, ..payload.drafted(fresh) }),
            },
        }),
{
    let uploading = seq![
        CreateEventView::FirstPart(Ok(Some(first))),
        CreateEventView::Payload(Ok(payload)),
        CreateEventView::DirectoryCreated(Ok(())),
    ] + upload_events(parts);
    let end = CreateEventView::Upload(UploadEventView::Part(Ok(None)));
    let inserted = CreateEventView::Inserted(Ok(id));
    lemma_uploading(first, payload, parts, fresh);
    lemma_run_push(uploading, end, fresh);
    lemma_run_push(uploading.push(end), inserted, fresh);
    assert(smooth_events(first, payload, parts, id) =~= uploading.push(end).push(inserted));
}

/// The directory of a smooth request holds a file for every name that a
/// photo has and for nothing else. Where no two photos share a name, it
/// holds as many files as there are photos, each with its own bytes.
pub proof fn lemma_stored_holds_the_photos(parts: Seq<FilePart>)
    ensures
        stored(parts).dom().finite(),
        forall|name: Seq<char>| stored(parts).dom().contains(name) <==> names(parts, name),
        distinctly_named(parts) ==> stored(parts).dom().len() == parts.len(),
        distinctly_named(parts) ==> forall|i: int|
            0 <= i < parts.len() ==> stored(parts)[(#[trigger] parts[i]).name()] == parts[i].data,
    decreases parts.len(),
{
    if parts.len() > 0 {
        let earlier = parts.drop_last();
        let last = parts.len() - 1;
        lemma_stored_holds_the_photos(earlier);
        assert forall|name: Seq<char>| stored(parts).dom().contains(name) <==> names(
            parts,
            name,
        ) by {
            if names(earlier, name) {
                let i = choose|i: int| 0 <= i < earlier.len() && earlier[i].name() == name;
                assert(parts[i].name() == name);
            }
            if name == parts[last].name() {
                assert(names(parts, name));
            }
            if names(parts, name) && name != parts[last].name() {
                let i = choose|i: int| 0 <= i < parts.len() && parts[i].name() == name;
                assert(earlier[i].name() == name);
            }
        }
        if distinctly_named(parts) {
            assert(distinctly_named(earlier)) by {
                assert forall|i: int, j: int| 0 <= i < j < earlier.len() implies (
                #[trigger] earlier[i]).name() != (#[trigger] earlier[j]).name() by {
                    assert(parts[i].name() != parts[j].name());
                }
            }
            assert(!names(earlier, parts[last].name())) by {
                if names(earlier, parts[last].name()) {
                    let i = choose|i: int|
                        0 <= i < earlier.len() && earlier[i].name() == parts[last].name();
                    assert(parts[i].name() != parts[last].name());
                }
            }
            assert forall|i: int| 0 <= i < parts.len() implies stored(parts)[(
            #[trigger] parts[i]).name()] == parts[i].data by {
                if i < last {
                    assert(earlier[i] == parts[i]);
                    assert(parts[i].name() != parts[last].name());
                }
            }
        }
    }
}

} // verus!
