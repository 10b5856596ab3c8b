//! What becomes of the content of an intent, and what a posted message says.

use vstd::prelude::*;

use crate::doc::OpModel;
use crate::json::JsonView;
use crate::message::MessageModel;

verus! {

/// Whether the members of an object make up a note: a title that is not empty, and a content.
pub open spec fn is_note(members: Map<Seq<char>, JsonView>) -> bool {
    &&& members.contains_key("title"@)
    &&& members["title"@] matches JsonView::Text(title) && title.len() > 0
    &&& members.contains_key("content"@)
    &&& members["content"@] is Text
}

/// Whether two objects have the same members but for the one called `key`.
pub open spec fn same_but_for(
    left: Map<Seq<char>, JsonView>,
    right: Map<Seq<char>, JsonView>,
    key: Seq<char>,
) -> bool {
    forall|other: Seq<char>|
        other != key ==> (#[trigger] left.contains_key(other) <==> right.contains_key(other)) && (
        left.contains_key(other) ==> left[other] == right[other])
}

/// The text under `key`, or `default` where there is no JSON string.
pub open spec fn text_at(
    members: Map<Seq<char>, JsonView>,
    key: Seq<char>,
    default: Seq<char>,
) -> Seq<char> {
    if members.contains_key(key) && members[key] is Text {
        members[key]->Text_0
    } else {
        default
    }
}

/// Only the type `notes` is supported.
pub proof fn law_only_notes_are_supported(intent_type: Seq<char>)
    ensures
        crate::intent::supported_type(intent_type) <==> intent_type == seq!['n', 'o', 't', 'e', 's'],
{
    reveal_strlit("notes");
    assert("notes"@ =~= seq!['n', 'o', 't', 'e', 's']);
}

/// An id is acceptable if and only if it has at least one character and at most 256.
pub proof fn law_acceptable_ids_have_one_to_256_characters(intent_id: Seq<char>)
    ensures
        crate::intent::acceptable_id(intent_id) <==> 1 <= intent_id.len() && intent_id.len() <= 256,
{
}

/// A member of a value is what the object holds under the key; a value that is no object has none.
/// The text of a value is there for JSON strings only.
pub proof fn law_members_are_those_of_the_object(value: JsonView, key: Seq<char>, member: JsonView)
    ensures
        value.member(key) == Some(member) <==> (value matches JsonView::Object(members)
            && members.contains_key(key) && members[key] == member),
        value.member(key) is None <==> !(value matches JsonView::Object(members)
            && members.contains_key(key)),
        value.text() is Some <==> value is Text,
        value matches JsonView::Text(text) ==> value.text() == Some(text),
        value.member(key) is None ==> value.text_member(key) is None,
        value.member(key) == Some(member) ==> value.text_member(key) == member.text(),
{
}

/// Content is accepted if and only if it is a note, and what is made of it is the same note under
/// the id of the intent: whatever id it came with, every other member as it was, and none added.
pub proof fn law_normalized_content_is_the_note_under_the_intent_id(
    intent_id: Seq<char>,
    data: JsonView,
)
    ensures
        crate::intent::normalized(intent_id, data) is Some <==> (data matches JsonView::Object(
            members,
        ) && is_note(members)),
        crate::intent::normalized(intent_id, data) matches Some(content) ==> (
        content matches JsonView::Object(members) && members.contains_key("id"@) && members["id"@]
            == JsonView::Text(intent_id) && same_but_for(members, data->Object_0, "id"@)),
{
}

/// The text that is handed on for an intent is there if and only if the data is a note. It is the
/// printed form of that note under the id of the intent: the member `id` is the intent's id, and
/// the other members are those of the data.
pub proof fn law_delivered_content_carries_the_intent_id(
    intent_id: Seq<char>,
    members: Map<Seq<char>, JsonView>,
    delivered: Map<Seq<char>, JsonView>,
)
    requires
        delivered.contains_key("id"@),
        delivered["id"@] == JsonView::Text(intent_id),
        same_but_for(delivered, members, "id"@),
    ensures
        is_note(members) ==> crate::message::content_text(intent_id, JsonView::Object(members))
            == Some(crate::json::json_printed(JsonView::Object(delivered))),
        !is_note(members) ==> crate::message::content_text(intent_id, JsonView::Object(members))
            is None,
{
    assert(members.insert("id"@, JsonView::Text(intent_id)) =~= delivered);
}

/// Content that is no object is never handed on.
pub proof fn law_only_objects_are_delivered(intent_id: Seq<char>, data: JsonView)
    requires
        !(data is Object),
    ensures
        crate::message::content_text(intent_id, data) is None,
{
}

/// The id that data brings along makes no difference: data that differs in its `id` alone, or has
/// none, gives the same text for an intent.
pub proof fn law_own_id_of_data_makes_no_difference(
    intent_id: Seq<char>,
    left: Map<Seq<char>, JsonView>,
    right: Map<Seq<char>, JsonView>,
)
    requires
        same_but_for(left, right, "id"@),
    ensures
        crate::message::content_text(intent_id, JsonView::Object(left))
            == crate::message::content_text(intent_id, JsonView::Object(right)),
{
    reveal_strlit("id");
    reveal_strlit("title");
    reveal_strlit("content");
    assert("title"@.len() != "id"@.len() && "content"@.len() != "id"@.len());
    assert(left.contains_key("title"@) <==> right.contains_key("title"@));
    assert(left.contains_key("content"@) <==> right.contains_key("content"@));
    assert(left.insert("id"@, JsonView::Text(intent_id)) =~= right.insert(
        "id"@,
        JsonView::Text(intent_id),
    ));
}

/// Data that is already under the id of the intent is handed on unchanged.
pub proof fn law_content_under_the_intent_id_is_unchanged(
    intent_id: Seq<char>,
    members: Map<Seq<char>, JsonView>,
)
    requires
        is_note(members),
        members.contains_key("id"@),
        members["id"@] == JsonView::Text(intent_id),
    ensures
        crate::message::content_text(intent_id, JsonView::Object(members)) == Some(
            crate::json::json_printed(JsonView::Object(members)),
        ),
{
    law_delivered_content_carries_the_intent_id(intent_id, members, members);
}

/// Content that comes as text is handed on as what the text says; a text that is no JSON gives
/// none.
pub proof fn law_content_of_a_text_is_that_of_its_value(intent_id: Seq<char>, text: Seq<char>)
    ensures
        crate::json::json_parsed(text) matches Some(data) ==> crate::message::content_from_text(
            intent_id,
            text,
        ) == crate::message::content_text(intent_id, data),
        crate::json::json_parsed(text) is None ==> crate::message::content_from_text(
            intent_id,
            text,
        ) is None,
{
}

/// What a "set" hands to its app is the note of its data under the id of the operation's intent;
/// without data, or with data that is no note, it has nothing to hand over.
pub proof fn law_set_hands_over_its_data_under_the_intent_id(
    op: OpModel,
    delivered: Map<Seq<char>, JsonView>,
)
    requires
        delivered.contains_key("id"@),
        delivered["id"@] == JsonView::Text(op.intent_id),
    ensures
        op.data is None ==> crate::host::content_to_set(op) is None,
        op.data matches Some(text) ==> {
            &&& crate::json::json_parsed(text) is None ==> crate::host::content_to_set(op) is None
            &&& crate::json::json_parsed(text) matches Some(data) ==> {
                &&& !(data matches JsonView::Object(members) && is_note(members))
                    ==> crate::host::content_to_set(op) is None
                &&& (data matches JsonView::Object(members) && is_note(members) && same_but_for(
                    delivered,
                    members,
                    "id"@,
                )) ==> crate::host::content_to_set(op) == Some(
                    crate::json::json_printed(JsonView::Object(delivered)),
                )
            }
        },
{
    if let Some(text) = op.data {
        if let Some(JsonView::Object(members)) = crate::json::json_parsed(text) {
            if same_but_for(delivered, members, "id"@) {
                law_delivered_content_carries_the_intent_id(op.intent_id, members, delivered);
            }
        }
    }
}

/// A posted intent is read as the registration of that intent by the app that posted it; an app
/// that gives no id is `webapp`.
pub proof fn law_posted_intent_is_read_as_registration(
    posted: Map<Seq<char>, JsonView>,
    intent: Map<Seq<char>, JsonView>,
)
    requires
        text_at(posted, "type"@, ""@) == "intent"@,
        posted.contains_key("intent"@),
        posted["intent"@] == JsonView::Object(intent),
    ensures
        crate::message::message_of(JsonView::Object(posted)) == (MessageModel::Register {
            app_id: text_at(posted, "appId"@, "webapp"@),
            intent_type: text_at(intent, "type"@, ""@),
            intent_id: text_at(intent, "id"@, ""@),
        }),
{
}

/// A posted unregistration is read as that of the intent by the app that posted it.
pub proof fn law_posted_unregistration_is_read_as_one(
    posted: Map<Seq<char>, JsonView>,
    intent: Map<Seq<char>, JsonView>,
)
    requires
        text_at(posted, "type"@, ""@) == "intent-unregister"@,
        posted.contains_key("intent"@),
        posted["intent"@] == JsonView::Object(intent),
    ensures
        crate::message::message_of(JsonView::Object(posted)) == (MessageModel::Unregister {
            app_id: text_at(posted, "appId"@, "webapp"@),
            intent_type: text_at(intent, "type"@, ""@),
            intent_id: text_at(intent, "id"@, ""@),
        }),
{
    reveal_strlit("intent");
    reveal_strlit("intent-unregister");
    assert("intent"@.len() != "intent-unregister"@.len());
}

/// A posted content is read as the answer to the operation that it names, with the note that it
/// brings under the id that it gives; an answer without a note is read as one without content.
pub proof fn law_posted_content_is_read_as_an_answer(
    posted: Map<Seq<char>, JsonView>,
    intent: Map<Seq<char>, JsonView>,
    op_id: Seq<char>,
    delivered: Map<Seq<char>, JsonView>,
)
    requires
        text_at(posted, "type"@, ""@) == "intent-content"@,
        op_id == text_at(posted, "opId"@, ""@),
        op_id.len() > 0,
        posted.contains_key("intent"@),
        posted["intent"@] == JsonView::Object(intent),
        delivered.contains_key("id"@),
        delivered["id"@] == JsonView::Text(text_at(intent, "id"@, ""@)),
    ensures
        crate::message::message_of(JsonView::Object(posted)) matches MessageModel::Content {
            op_id: answered,
            intent_type,
            intent_id,
            content,
        } && answered == op_id && intent_type == text_at(intent, "type"@, ""@) && intent_id
            == text_at(intent, "id"@, ""@) && {
            &&& !(intent.contains_key("data"@) && (intent["data"@] matches JsonView::Object(data)
                && is_note(data))) ==> content is None
            &&& (intent.contains_key("data"@) && (intent["data"@] matches JsonView::Object(data)
                && is_note(data) && same_but_for(delivered, data, "id"@))) ==> content == Some(
                crate::json::json_printed(JsonView::Object(delivered)),
            )
        },
{
    lemma_kinds_differ();
    if intent.contains_key("data"@) {
        if let JsonView::Object(data) = intent["data"@] {
            if same_but_for(delivered, data, "id"@) {
                law_delivered_content_carries_the_intent_id(
                    text_at(intent, "id"@, ""@),
                    data,
                    delivered,
                );
            }
        }
    }
}

/// The kinds of posted messages are different texts.
proof fn lemma_kinds_differ()
    ensures
        "intent"@ != "intent-unregister"@,
        "intent"@ != "intent-content"@,
        "intent-unregister"@ != "intent-content"@,
        ""@ != "intent"@,
        ""@ != "intent-unregister"@,
        ""@ != "intent-content"@,
{
    reveal_strlit("");
    reveal_strlit("intent");
    reveal_strlit("intent-unregister");
    reveal_strlit("intent-content");
    assert("intent"@.len() == 6 && "intent-unregister"@.len() == 17 && "intent-content"@.len()
        == 14 && ""@.len() == 0);
}

/// A posted message about something that is no object is read with empty type and id, and without
/// content; only a message that has no such member at all is ignored.
pub proof fn law_posted_intent_that_is_no_object(
    posted: Map<Seq<char>, JsonView>,
    intent: Option<JsonView>,
)
    requires
        intent is Some <==> posted.contains_key("intent"@),
        intent is Some ==> intent == Some(posted["intent"@]) && !(intent->Some_0 is Object),
    ensures
        text_at(posted, "type"@, ""@) == "intent"@ ==> crate::message::message_of(
            JsonView::Object(posted),
        ) == (match intent {
            Some(_) => MessageModel::Register {
                app_id: text_at(posted, "appId"@, "webapp"@),
                intent_type: ""@,
                intent_id: ""@,
            },
            None => MessageModel::Ignored,
        }),
        text_at(posted, "type"@, ""@) == "intent-unregister"@ ==> crate::message::message_of(
            JsonView::Object(posted),
        ) == (match intent {
            Some(_) => MessageModel::Unregister {
                app_id: text_at(posted, "appId"@, "webapp"@),
                intent_type: ""@,
                intent_id: ""@,
            },
            None => MessageModel::Ignored,
        }),
        text_at(posted, "type"@, ""@) == "intent-content"@ && text_at(posted, "opId"@, ""@).len()
            > 0 ==> crate::message::message_of(JsonView::Object(posted)) == (MessageModel::Content {
            op_id: text_at(posted, "opId"@, ""@),
            intent_type: ""@,
            intent_id: ""@,
            content: None,
        }),
{
    lemma_kinds_differ();
}

/// Content for no operation, a message of another kind, a value that is no object, and a text that
/// is no JSON say nothing.
pub proof fn law_other_posts_say_nothing(posted: JsonView, body: Seq<char>)
    ensures
        !(posted is Object) ==> crate::message::message_of(posted) is Ignored,
        posted matches JsonView::Object(members) ==> {
            let kind = text_at(members, "type"@, ""@);
            &&& kind != "intent"@ && kind != "intent-unregister"@ && kind != "intent-content"@
                ==> crate::message::message_of(posted) is Ignored
            &&& kind == "intent-content"@ && text_at(members, "opId"@, ""@).len() == 0
                ==> crate::message::message_of(posted) is Ignored
        },
        crate::json::json_parsed(body) is None ==> crate::message::message_of_text(body) is Ignored,
        crate::json::json_parsed(body) == Some(posted) ==> crate::message::message_of_text(body)
            == crate::message::message_of(posted),
{
    lemma_kinds_differ();
}

} // verus!
