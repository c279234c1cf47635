//! The head of one part of a multipart body.

use crate::text::{contains, occurs_in};
use vstd::prelude::*;

verus! {

/// The media type that the part describing a listing must mention.
pub const JSON_MEDIA_TYPE: &'static str = "application/json";

/// What is known of a part before its body is read.
#[derive(Clone, Debug, PartialEq, Eq)]
pub struct PartHead {
    pub content_type: Option<String>,
    pub file_name: Option<String>,
}

pub struct PartHeadView {
    pub content_type: Option<Seq<char>>,
    pub file_name: Option<Seq<char>>,
}

impl View for PartHead {
    type V = PartHeadView;

    open spec fn view(&self) -> PartHeadView {
        PartHeadView {
            content_type: self.content_type.deep_view(),
            file_name: self.file_name.deep_view(),
        }
    }
}

impl DeepView for PartHead {
    type V = PartHeadView;

    open spec fn deep_view(&self) -> PartHeadView {
        self@
    }
}

/// Whether a content type announces JSON: it mentions `application/json`
/// somewhere, so that parameters such as a charset are let through.
pub open spec fn announces_json(content_type: Seq<char>) -> bool {
    occurs_in(content_type, JSON_MEDIA_TYPE@)
}

/// Whether a content type announces JSON.
pub fn is_json(content_type: &str) -> (json: bool)
    ensures
        json == announces_json(content_type@),
{
    contains(content_type, JSON_MEDIA_TYPE)
}

} // verus!
