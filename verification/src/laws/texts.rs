//! What the texts say that the host sends out: scripts, pages and refusals.

use vstd::prelude::*;

verus! {

/// A request names the operation as its request id, then the type, then the intent: an answer that
/// repeats the request id repeats the operation's id.
pub proof fn law_request_names_operation_type_and_intent(
    op_id: Seq<char>,
    intent_type: Seq<char>,
    intent_id: Seq<char>,
)
    ensures
        crate::script::request_text(op_id, intent_type, intent_id)
            == "document.dispatchEvent(new CustomEvent('intent-request', { detail: { requestId: "@
            + crate::script::debug_quoted(op_id) + ", type: "@ + crate::script::debug_quoted(
            intent_type,
        ) + ", id: "@ + crate::script::debug_quoted(intent_id) + " } }));"@,
{
}

/// A delivery names the type and the intent, holds the content as it is, and names its source.
pub proof fn law_delivery_names_type_and_intent_and_holds_content(
    intent_type: Seq<char>,
    intent_id: Seq<char>,
    data: Seq<char>,
    source: Seq<char>,
)
    ensures
        crate::script::receive_text(intent_type, intent_id, data, source)
            == "document.dispatchEvent(new CustomEvent('intent-receive', { detail: { type: "@
            + crate::script::debug_quoted(intent_type) + ", id: "@ + crate::script::debug_quoted(
            intent_id,
        ) + ", data: "@ + data + ", source: "@ + crate::script::debug_quoted(source)
            + " } }));"@,
{
}

/// A page gives its app id as a JSON string, then runs the model context code, then the bridge that
/// posts what the host reads, and then shows the app's own markup.
pub proof fn law_page_gives_app_id_code_bridge_and_markup(
    app_id: Seq<char>,
    webmcp: Seq<char>,
    html: Seq<char>,
)
    ensures
        crate::script::app_page_text(app_id, webmcp, html)
            == r#"<!DOCTYPE html><html><head><meta charset="utf-8"><meta name="viewport" content="width=device-width,initial-scale=1">
<script>window.__a2web={appId:"#@
            + crate::json::json_literal(app_id) + r#"};</script>
<script>"#@ + webmcp + "</script><script>"@ + r#"(function(){
var ipc = window.ipc, aid = window.__a2web.appId;
window.__a2web.registerIntent = function(intent) { ipc.postMessage(JSON.stringify({type:'intent', appId:aid, intent:intent})); };
window.__a2web.unregisterIntent = function(intent) { ipc.postMessage(JSON.stringify({type:'intent-unregister', appId:aid, intent:intent})); };
window.__a2web.sendIntentContent = function(opId, intent) { ipc.postMessage(JSON.stringify({type:'intent-content', appId:aid, opId:opId, intent:intent})); };
})();"#@ + "</script></head><body>"@ + html + "</body></html>"@,
        crate::script::page_text(crate::json::json_literal(app_id), webmcp, html)
            == crate::script::app_page_text(app_id, webmcp, html),
{
}

/// A text without quotes, backslashes and control characters stands in its JSON literal as it is.
pub proof fn law_plain_text_is_its_own_literal(text: Seq<char>)
    requires
        forall|i: int|
            0 <= i < text.len() ==> (#[trigger] text[i]) as int >= 0x20 && text[i] != '"'
                && text[i] != '\\',
    ensures
        crate::json::json_literal(text) == seq!['"'] + text + seq!['"'],
{
    lemma_plain_escapes(text);
}

/// A text without quotes, backslashes and control characters is not escaped.
proof fn lemma_plain_escapes(text: Seq<char>)
    requires
        forall|i: int|
            0 <= i < text.len() ==> (#[trigger] text[i]) as int >= 0x20 && text[i] != '"'
                && text[i] != '\\',
    ensures
        crate::json::json_escapes(text) == text,
    decreases text.len(),
{
    if text.len() > 0 {
        let before = text.drop_last();
        assert forall|i: int| 0 <= i < before.len() implies (#[trigger] before[i]) as int >= 0x20
            && before[i] != '"' && before[i] != '\\' by {
            assert(before[i] == text[i]);
        }
        lemma_plain_escapes(before);
        assert(text[text.len() - 1] == text.last());
        assert(crate::json::json_escaped(text.last()) =~= seq![text.last()]);
        assert(before + seq![text.last()] =~= text);
    } else {
        assert(crate::json::json_escapes(text) =~= text);
    }
}

/// The literals of two texts, one behind the other, are the literals of each without the quotes
/// between them.
pub proof fn law_literal_of_two_texts(left: Seq<char>, right: Seq<char>)
    ensures
        crate::json::json_literal(left).drop_last() + crate::json::json_literal(right).drop_first()
            == crate::json::json_literal(left + right),
{
    lemma_escapes_of_two_texts(left, right);
    let l = crate::json::json_escapes(left);
    let r = crate::json::json_escapes(right);
    assert(crate::json::json_literal(left).drop_last() =~= seq!['"'] + l);
    assert(crate::json::json_literal(right).drop_first() =~= r + seq!['"']);
    assert((seq!['"'] + l) + (r + seq!['"']) =~= seq!['"'] + (l + r) + seq!['"']);
}

/// The escapes of two texts, one behind the other.
proof fn lemma_escapes_of_two_texts(left: Seq<char>, right: Seq<char>)
    ensures
        crate::json::json_escapes(left + right) == crate::json::json_escapes(left)
            + crate::json::json_escapes(right),
    decreases right.len(),
{
    if right.len() == 0 {
        assert(left + right =~= left);
        assert(crate::json::json_escapes(left) + crate::json::json_escapes(right)
            =~= crate::json::json_escapes(left));
    } else {
        assert((left + right).drop_last() =~= left + right.drop_last());
        lemma_escapes_of_two_texts(left, right.drop_last());
        assert(crate::json::json_escapes(left + right) =~= crate::json::json_escapes(left)
            + crate::json::json_escapes(right));
    }
}

/// A transfer that is refused for its target says which app and which type.
pub proof fn law_target_error_names_app_and_type(target: Seq<char>, intent_type: Seq<char>)
    ensures
        crate::script::target_error_text(target, intent_type) == "target app '"@ + target
            + "' has no intent of type '"@ + intent_type + "'"@,
{
}

} // verus!
