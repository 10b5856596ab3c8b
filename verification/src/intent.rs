//! Intent schemes.
//!
//! An intent is a typed, schematized unit of data that a web app registers as available.
//! Registration announces only its type and id: the content never enters the agent context.
//! Content is read and written through dedicated operations and transferred directly between
//! apps.

use vstd::prelude::*;

use crate::json::member;
use crate::json::object_value;
use crate::json::text_value;
use crate::text::same_text;

verus! {

/// The only supported intent type for now.
pub const INTENT_TYPE_NOTES: &'static str = "notes";

/// The greatest number of characters in an intent id.
pub const INTENT_ID_MAX_CHARS: usize = 256;

/// Whether `intent_type` names a supported scheme.
pub open spec fn supported_type(intent_type: Seq<char>) -> bool {
    intent_type == INTENT_TYPE_NOTES@
}

/// Whether `intent_id` may stand for an intent: not empty, and at most 256 characters.
pub open spec fn acceptable_id(intent_id: Seq<char>) -> bool {
    0 < intent_id.len() <= INTENT_ID_MAX_CHARS
}

/// Whether `data` satisfies the `notes` scheme: an object with a `title`, a string that is not
/// empty, and a `content`, a string.
pub open spec fn satisfies_scheme(data: crate::json::JsonView) -> bool {
    &&& data is Object
    &&& data.text_member("title"@) matches Some(title) && title.len() > 0
    &&& data.text_member("content"@) is Some
}

/// `data` with its `id` member set to `intent_id`, where it satisfies the scheme.
pub open spec fn normalized(
    intent_id: Seq<char>,
    data: crate::json::JsonView,
) -> Option<crate::json::JsonView> {
    if satisfies_scheme(data) {
        Some(
            crate::json::JsonView::Object(
                data->Object_0.insert("id"@, crate::json::JsonView::Text(intent_id)),
            ),
        )
    } else {
        None
    }
}

/// Validates that an intent type is a known, supported scheme.
pub fn is_valid_intent_type(t: &str) -> (valid: bool)
    ensures
        valid == supported_type(t@),
{
    same_text(t, INTENT_TYPE_NOTES)
}

/// Validates an intent id (must be a non-empty string, max 256 chars).
pub fn is_valid_intent_id(id: &str) -> (valid: bool)
    ensures
        valid == acceptable_id(id@),
{
    !id.is_empty() && id.unicode_len() <= INTENT_ID_MAX_CHARS
}

/// Validates intent content against its scheme and fills in the `id` field so it always matches
/// the registered intent id.
///
/// The `notes` scheme: `{ id: string, title: string, content: string }`.
pub fn normalize_intent_data(intent_id: &str, data: &serde_json::Value) -> (content: Option<
    serde_json::Value,
>)
    ensures
        match content {
            Some(content) => normalized(intent_id@, crate::json::json_value(*data)) == Some(
                crate::json::json_value(content),
            ),
            None => normalized(intent_id@, crate::json::json_value(*data)) is None,
        },
{
    let mut object = match data.as_object() {
        Some(object) => object.clone(),
        None => return None,
    };
    match member(data, "title") {
        Some(title) => match title.as_str() {
            Some(title) => if title.is_empty() {
                return None;
            },
            None => return None,
        },
        None => return None,
    }
    match member(data, "content") {
        Some(content) => if content.as_str().is_none() {
            return None;
        },
        None => return None,
    }
    object.insert("id".to_owned(), text_value(intent_id.to_owned()));
    Some(object_value(object))
}

} // verus!
