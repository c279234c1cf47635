//! Replies: a status and a body.

use crate::property::{Property, PropertyView};
use vstd::prelude::*;
use vstd::string::StringExecFns;

verus! {

/// The statuses a handler answers with.
#[derive(Clone, Copy, Debug, PartialEq, Eq, Structural)]
pub enum Status {
    Success,
    BadRequest,
    NotFound,
    InternalServerError,
}

impl Status {
    /// The numeric status code.
    pub open spec fn code_of(self) -> int {
        match self {
            Status::Success => 200,
            Status::BadRequest => 400,
            Status::NotFound => 404,
            Status::InternalServerError => 500,
        }
    }

    pub fn code(self) -> (code: u16)
        ensures
            code == self.code_of(),
    {
        match self {
            Status::Success => 200,
            Status::BadRequest => 400,
            Status::NotFound => 404,
            Status::InternalServerError => 500,
        }
    }
}

/// What a reply carries. `Text` goes out as it is; the other variants go out
/// as JSON: `Id` as an object with the single member `id`, `Tags` and `Page`
/// as arrays, `Record` as an object.
#[derive(Clone, Debug, PartialEq, Eq)]
pub enum Body {
    Text(String),
    Id(i32),
    Tags(Vec<i32>),
    Record(Property),
    Page(Vec<Property>),
}

pub enum BodyView {
    Text(Seq<char>),
    Id(i32),
    Tags(Seq<i32>),
    Record(PropertyView),
    Page(Seq<PropertyView>),
}

impl View for Body {
    type V = BodyView;

    open spec fn view(&self) -> BodyView {
        match self {
            Body::Text(text) => BodyView::Text(text@),
            Body::Id(id) => BodyView::Id(*id),
            Body::Tags(tags) => BodyView::Tags(tags@),
            Body::Record(record) => BodyView::Record(record@),
            Body::Page(records) => BodyView::Page(records.deep_view()),
        }
    }
}

#[derive(Clone, Debug, PartialEq, Eq)]
pub struct Reply {
    pub status: Status,
    pub body: Body,
}

pub struct ReplyView {
    pub status: Status,
    pub body: BodyView,
}

impl ReplyView {
    /// A reply with a plain-text body.
    pub open spec fn text(status: Status, message: Seq<char>) -> ReplyView {
        ReplyView { status, body: BodyView::Text(message) }
    }

    /// A successful reply with a JSON body.
    pub open spec fn json(body: BodyView) -> ReplyView {
        ReplyView { status: Status::Success, body }
    }

    /// The reply to a failure of the datastore: a server fault with the
    /// datastore's message as its body.
    pub open spec fn store_failure(message: Seq<char>) -> ReplyView {
        ReplyView::text(Status::InternalServerError, message)
    }
}

impl View for Reply {
    type V = ReplyView;

    open spec fn view(&self) -> ReplyView {
        ReplyView { status: self.status, body: self.body@ }
    }
}

impl DeepView for Reply {
    type V = ReplyView;

    open spec fn deep_view(&self) -> ReplyView {
        self@
    }
}

impl Reply {
    /// A reply whose body is the text `message`.
    pub fn text(status: Status, message: String) -> (reply: Reply)
        ensures
            reply@ == ReplyView::text(status, message@),
    {
        Reply { status, body: Body::Text(message) }
    }

    /// A reply whose body is a fixed text.
    pub fn fixed(status: Status, message: &str) -> (reply: Reply)
        ensures
            reply@ == ReplyView::text(status, message@),
    {
        Reply { status, body: Body::Text(String::from_str(message)) }
    }

    /// A successful reply with a JSON body.
    pub fn json(body: Body) -> (reply: Reply)
        ensures
            reply@ == ReplyView::json(body@),
    {
        Reply { status: Status::Success, body }
    }
}

/// The outcome of outside work as a mathematical value: what it produced, or
/// the message of the error that stopped it.
pub open spec fn outcome_view<T: DeepView>(outcome: Result<T, String>) -> Result<T::V, Seq<char>> {
    match outcome {
        Ok(value) => Ok(value.deep_view()),
        Err(message) => Err(message@),
    }
}

/// The outcome of outside work that produces a sequence of plain items.
pub open spec fn items_view<T>(outcome: Result<Vec<T>, String>) -> Result<Seq<T>, Seq<char>> {
    match outcome {
        Ok(items) => Ok(items@),
        Err(message) => Err(message@),
    }
}

} // verus!
