//! The page that a web view shows, and the scripts that are run in it.

use vstd::prelude::*;

use crate::json::literal;

verus! {

/// The functions through which a page hands intents to its window host.
pub const BRIDGE: &'static str = r#"(function(){
var ipc = window.ipc, aid = window.__a2web.appId;
window.__a2web.registerIntent = function(intent) { ipc.postMessage(JSON.stringify({type:'intent', appId:aid, intent:intent})); };
window.__a2web.unregisterIntent = function(intent) { ipc.postMessage(JSON.stringify({type:'intent-unregister', appId:aid, intent:intent})); };
window.__a2web.sendIntentContent = function(opId, intent) { ipc.postMessage(JSON.stringify({type:'intent-content', appId:aid, opId:opId, intent:intent})); };
})();"#;

/// What a page starts with, up to its app id.
pub const PAGE_HEAD: &'static str = r#"<!DOCTYPE html><html><head><meta charset="utf-8"><meta name="viewport" content="width=device-width,initial-scale=1">
<script>window.__a2web={appId:"#;

/// What stands between the app id and the model context code.
pub const PAGE_AFTER_APP_ID: &'static str = r#"};</script>
<script>"#;

/// The text that Rust's `{:?}` gives for a text: in quotes, with escapes.
pub uninterp spec fn debug_quoted(text: Seq<char>) -> Seq<char>;

/// `format!` with `{:?}` on a text: std's `Debug` form of it, which depends on the text alone.
#[verifier::external_body]
fn quoted(text: &str) -> (quoted: String)
    ensures
        quoted@ == debug_quoted(text@),
{
    format!("{:?}", text)
}

/// The script that asks an app for the content of an intent.
pub open spec fn request_text(
    op_id: Seq<char>,
    intent_type: Seq<char>,
    intent_id: Seq<char>,
) -> Seq<char> {
    "document.dispatchEvent(new CustomEvent('intent-request', { detail: { requestId: "@
        + debug_quoted(op_id) + ", type: "@ + debug_quoted(intent_type) + ", id: "@ + debug_quoted(
        intent_id,
    ) + " } }));"@
}

/// The script that hands an app the content of an intent. `data` is JSON and goes in as it is.
pub open spec fn receive_text(
    intent_type: Seq<char>,
    intent_id: Seq<char>,
    data: Seq<char>,
    source: Seq<char>,
) -> Seq<char> {
    "document.dispatchEvent(new CustomEvent('intent-receive', { detail: { type: "@ + debug_quoted(
        intent_type,
    ) + ", id: "@ + debug_quoted(intent_id) + ", data: "@ + data + ", source: "@ + debug_quoted(
        source,
    ) + " } }));"@
}

/// The page of an app, whose id stands in it as the JSON text `app_id_literal`.
pub open spec fn page_text(
    app_id_literal: Seq<char>,
    webmcp: Seq<char>,
    html: Seq<char>,
) -> Seq<char> {
    PAGE_HEAD@ + app_id_literal + PAGE_AFTER_APP_ID@ + webmcp + "</script><script>"@ + BRIDGE@
        + "</script></head><body>"@ + html + "</body></html>"@
}

/// The page of an app, whose id stands in it as a JSON string literal.
pub open spec fn app_page_text(
    app_id: Seq<char>,
    webmcp: Seq<char>,
    html: Seq<char>,
) -> Seq<char> {
    page_text(crate::json::json_literal(app_id), webmcp, html)
}

/// Why a transfer to an app without an intent of the type is refused.
pub open spec fn target_error_text(target: Seq<char>, intent_type: Seq<char>) -> Seq<char> {
    "target app '"@ + target + "' has no intent of type '"@ + intent_type + "'"@
}

/// Writes the script that asks an app for the content of an intent.
pub fn request_script(op_id: &str, intent_type: &str, intent_id: &str) -> (script: String)
    ensures
        script@ == request_text(op_id@, intent_type@, intent_id@),
{
    let mut script =
        "document.dispatchEvent(new CustomEvent('intent-request', { detail: { requestId: ".to_owned();
    script.append(quoted(op_id).as_str());
    script.append(", type: ");
    script.append(quoted(intent_type).as_str());
    script.append(", id: ");
    script.append(quoted(intent_id).as_str());
    script.append(" } }));");
    script
}

/// Writes the script that hands an app the content of an intent.
pub fn receive_script(intent_type: &str, intent_id: &str, data: &str, source: &str) -> (script:
    String)
    ensures
        script@ == receive_text(intent_type@, intent_id@, data@, source@),
{
    let mut script =
        "document.dispatchEvent(new CustomEvent('intent-receive', { detail: { type: ".to_owned();
    script.append(quoted(intent_type).as_str());
    script.append(", id: ");
    script.append(quoted(intent_id).as_str());
    script.append(", data: ");
    script.append(data);
    script.append(", source: ");
    script.append(quoted(source).as_str());
    script.append(" } }));");
    script
}

/// Writes the page of an app whose id is given as JSON text.
pub fn page_with(app_id_literal: &str, webmcp: &str, html: &str) -> (page: String)
    ensures
        page@ == page_text(app_id_literal@, webmcp@, html@),
{
    let mut page = PAGE_HEAD.to_owned();
    page.append(app_id_literal);
    page.append(PAGE_AFTER_APP_ID);
    page.append(webmcp);
    page.append("</script><script>");
    page.append(BRIDGE);
    page.append("</script></head><body>");
    page.append(html);
    page.append("</body></html>");
    page
}

/// Writes the page of an app: the app id, the model context code, the bridge, and the app's own
/// markup.
pub fn page(app_id: &str, webmcp: &str, html: &str) -> (page: String)
    ensures
        page@ == page_text(crate::json::json_literal(app_id@), webmcp@, html@),
        page@ == app_page_text(app_id@, webmcp@, html@),
{
    let app_id_literal = match literal(app_id) {
        Ok(text) => text,
        Err(_) => String::new(),
    };
    page_with(app_id_literal.as_str(), webmcp, html)
}

/// Writes why a transfer to an app without an intent of the type is refused.
pub fn target_error(target: &str, intent_type: &str) -> (error: String)
    ensures
        error@ == target_error_text(target@, intent_type@),
{
    let mut error = "target app '".to_owned();
    error.append(target);
    error.append("' has no intent of type '");
    error.append(intent_type);
    error.append("'");
    error
}

} // verus!
