//! What web apps post to their window host.

use vstd::prelude::*;

use crate::intent::normalize_intent_data;
use crate::json::member;
use crate::json::print;
use crate::json::text_member_or;
use crate::json::JsonView;
use crate::text::same_text;

verus! {

/// A message from a web app, read.
#[derive(Debug, PartialEq)]
pub enum AppMessage {
    /// The app offers an intent.
    Register { app_id: String, intent_type: String, intent_id: String },
    /// The app takes an intent back.
    Unregister { app_id: String, intent_type: String, intent_id: String },
    /// The app answers a request with content: JSON text that satisfies the scheme and carries
    /// the intent id, or `None` where what it sent does not satisfy the scheme.
    Content { op_id: String, intent_type: String, intent_id: String, content: Option<String> },
    /// Nothing that the host acts on.
    Ignored,
}

/// What an [`AppMessage`] holds.
#[verifier::ext_equal]
pub enum MessageModel {
    Register { app_id: Seq<char>, intent_type: Seq<char>, intent_id: Seq<char> },
    Unregister { app_id: Seq<char>, intent_type: Seq<char>, intent_id: Seq<char> },
    Content {
        op_id: Seq<char>,
        intent_type: Seq<char>,
        intent_id: Seq<char>,
        content: Option<Seq<char>>,
    },
    Ignored,
}

impl DeepView for AppMessage {
    type V = MessageModel;

    open spec fn deep_view(&self) -> MessageModel {
        match self {
            AppMessage::Register { app_id, intent_type, intent_id } => MessageModel::Register {
                app_id: app_id@,
                intent_type: intent_type@,
                intent_id: intent_id@,
            },
            AppMessage::Unregister { app_id, intent_type, intent_id } => MessageModel::Unregister {
                app_id: app_id@,
                intent_type: intent_type@,
                intent_id: intent_id@,
            },
            AppMessage::Content { op_id, intent_type, intent_id, content } => MessageModel::Content {
                op_id: op_id@,
                intent_type: intent_type@,
                intent_id: intent_id@,
                content: content.deep_view(),
            },
            AppMessage::Ignored => MessageModel::Ignored,
        }
    }
}

/// The text of a member, or `default` where there is no such JSON string.
pub open spec fn text_or(value: JsonView, key: Seq<char>, default: Seq<char>) -> Seq<char> {
    match value.text_member(key) {
        Some(text) => text,
        None => default,
    }
}

/// A member, or null where there is none.
pub open spec fn member_or_null(value: JsonView, key: Seq<char>) -> JsonView {
    match value.member(key) {
        Some(member) => member,
        None => JsonView::Null,
    }
}

/// The JSON text of `data` made to satisfy the scheme as the intent `intent_id`.
pub open spec fn content_text(intent_id: Seq<char>, data: JsonView) -> Option<Seq<char>> {
    match crate::intent::normalized(intent_id, data) {
        Some(content) => Some(crate::json::json_printed(content)),
        None => None,
    }
}

/// The JSON text of the content that `text` gives for the intent `intent_id`: `None` where it is
/// no JSON, or does not satisfy the scheme.
pub open spec fn content_from_text(intent_id: Seq<char>, text: Seq<char>) -> Option<Seq<char>> {
    match crate::json::json_parsed(text) {
        Some(data) => content_text(intent_id, data),
        None => None,
    }
}

/// What the posted value `posted` says.
///
/// A message without an app id is from `webapp`; a message about an intent that has no `intent`
/// is ignored, and so is content for no operation.
pub open spec fn message_of(posted: JsonView) -> MessageModel {
    let kind = text_or(posted, "type"@, ""@);
    let app_id = text_or(posted, "appId"@, "webapp"@);
    let intent = member_or_null(posted, "intent"@);
    let intent_type = text_or(intent, "type"@, ""@);
    let intent_id = text_or(intent, "id"@, ""@);
    if kind == "intent"@ {
        if posted.member("intent"@) is Some {
            MessageModel::Register { app_id, intent_type, intent_id }
        } else {
            MessageModel::Ignored
        }
    } else if kind == "intent-unregister"@ {
        if posted.member("intent"@) is Some {
            MessageModel::Unregister { app_id, intent_type, intent_id }
        } else {
            MessageModel::Ignored
        }
    } else if kind == "intent-content"@ {
        let op_id = text_or(posted, "opId"@, ""@);
        if op_id.len() == 0 {
            MessageModel::Ignored
        } else {
            MessageModel::Content {
                op_id,
                intent_type,
                intent_id,
                content: content_text(intent_id, member_or_null(intent, "data"@)),
            }
        }
    } else {
        MessageModel::Ignored
    }
}

/// What the posted text `body` says; a text that is no JSON says nothing.
pub open spec fn message_of_text(body: Seq<char>) -> MessageModel {
    match crate::json::json_parsed(body) {
        Some(posted) => message_of(posted),
        None => MessageModel::Ignored,
    }
}

/// The JSON text of `data` made to satisfy the scheme as the intent `intent_id`.
pub fn scheme_content(intent_id: &str, data: &serde_json::Value) -> (content: Option<String>)
    ensures
        content.deep_view() == content_text(intent_id@, crate::json::json_value(*data)),
{
    match normalize_intent_data(intent_id, data) {
        Some(content) => Some(print(&content)),
        None => None,
    }
}

/// The JSON text of the content that `text` gives for the intent `intent_id`.
pub fn scheme_content_from_text(intent_id: &str, text: &str) -> (content: Option<String>)
    ensures
        content.deep_view() == content_from_text(intent_id@, text@),
{
    match crate::json::parse(text) {
        Ok(data) => scheme_content(intent_id, &data),
        Err(_) => None,
    }
}

/// Reads a posted value.
pub fn read_message(posted: &serde_json::Value) -> (message: AppMessage)
    ensures
        message.deep_view() == message_of(crate::json::json_value(*posted)),
{
    let kind = text_member_or(posted, "type", "");
    if same_text(kind.as_str(), "intent") {
        match member(posted, "intent") {
            Some(intent) => AppMessage::Register {
                app_id: text_member_or(posted, "appId", "webapp"),
                intent_type: text_member_or(intent, "type", ""),
                intent_id: text_member_or(intent, "id", ""),
            },
            None => AppMessage::Ignored,
        }
    } else if same_text(kind.as_str(), "intent-unregister") {
        match member(posted, "intent") {
            Some(intent) => AppMessage::Unregister {
                app_id: text_member_or(posted, "appId", "webapp"),
                intent_type: text_member_or(intent, "type", ""),
                intent_id: text_member_or(intent, "id", ""),
            },
            None => AppMessage::Ignored,
        }
    } else if same_text(kind.as_str(), "intent-content") {
        let op_id = text_member_or(posted, "opId", "");
        if op_id.as_str().is_empty() {
            return AppMessage::Ignored;
        }
        match member(posted, "intent") {
            Some(intent) => {
                let intent_id = text_member_or(intent, "id", "");
                let content = match member(intent, "data") {
                    Some(data) => scheme_content(intent_id.as_str(), data),
                    None => None,
                };
                AppMessage::Content {
                    op_id,
                    intent_type: text_member_or(intent, "type", ""),
                    intent_id,
                    content,
                }
            },
            None => AppMessage::Content {
                op_id,
                intent_type: "".to_owned(),
                intent_id: "".to_owned(),
                content: None,
            },
        }
    } else {
        AppMessage::Ignored
    }
}

/// Reads a posted text.
pub fn read_message_text(body: &str) -> (message: AppMessage)
    ensures
        message.deep_view() == message_of_text(body@),
{
    match crate::json::parse(body) {
        Ok(posted) => read_message(&posted),
        Err(_) => AppMessage::Ignored,
    }
}

} // verus!
