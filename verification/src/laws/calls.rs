//! What a call of each function comes to: whatever it returns or leaves behind is what the models
//! say, of which the other laws speak.

use vstd::prelude::*;

use crate::bridge::Forwarder;
use crate::bridge::HarnessToPiMsg;
use crate::bridge::PiToHarnessMsg;
use crate::doc::AgentDoc;
use crate::doc::Announcement;
use crate::doc::EntityResponse;
use crate::doc::IntentModel;
use crate::doc::IntentRegistration;
use crate::doc::IntentResponse;
use crate::doc::LaunchedWebView;
use crate::doc::PendingEntityOp;
use crate::doc::PendingIntentOp;
use crate::doc::RegisteredEntity;
use crate::doc::RegisteredIntent;
use crate::doc::WebViewStatus;
use crate::host::Host;
use crate::host::HostEvent;
use crate::host::ScriptCall;
use crate::host::World;
use crate::json::JsonView;
use crate::message::AppMessage;
use crate::system::ConnectStep;
use crate::system::ProgramPath;

verus! {

/// A host and the document that it works on, as the model has them.
pub open spec fn world_of(host: Host, doc: AgentDoc) -> World {
    World { host: host@, doc: doc@ }
}

/// A scan does what the model says.
pub proof fn law_scan_call(host: &mut Host, doc: &mut AgentDoc, events: Vec<HostEvent>)
    requires
        call_ensures(Host::scan, (host, doc), events),
    ensures
        world_of(*final(host), *final(doc)) == world_of(*old(host), *old(doc)).scanned(),
        events.deep_view() == world_of(*old(host), *old(doc)).scan_events(),
{
}

/// A web view that came on screen does what the model says.
pub proof fn law_view_launched_call(host: &mut Host, doc: &mut AgentDoc, key: u64, id: &str)
    requires
        call_ensures(Host::view_launched, (host, doc, key, id), ()),
    ensures
        world_of(*final(host), *final(doc)) == world_of(*old(host), *old(doc)).launched(key, id@),
{
}

/// A dispatched operation does what the model says, with the content that it is to set.
pub proof fn law_dispatch_call(
    host: &mut Host,
    doc: &mut AgentDoc,
    op: &PendingIntentOp,
    call: Option<ScriptCall>,
)
    requires
        call_ensures(Host::dispatch_op, (host, doc, op), call),
    ensures
        (world_of(*final(host), *final(doc)), call.deep_view())
            == world_of(*old(host), *old(doc)).dispatched(
                op.deep_view(),
                crate::host::content_to_set(op.deep_view()),
            ),
{
}

/// A dispatched operation does what the model says with the given content.
pub proof fn law_dispatch_with_call(
    host: &mut Host,
    doc: &mut AgentDoc,
    op: &PendingIntentOp,
    content: Option<String>,
    call: Option<ScriptCall>,
)
    requires
        call_ensures(Host::dispatch_op_with, (host, doc, op, content), call),
    ensures
        (world_of(*final(host), *final(doc)), call.deep_view())
            == world_of(*old(host), *old(doc)).dispatched(op.deep_view(), content.deep_view()),
{
}

/// A posted text does what the message that it holds does.
pub proof fn law_receive_text_call(
    host: &mut Host,
    doc: &mut AgentDoc,
    body: &str,
    event: Option<HostEvent>,
)
    requires
        call_ensures(Host::receive_text, (host, doc, body), event),
    ensures
        (world_of(*final(host), *final(doc)), event.deep_view())
            == world_of(*old(host), *old(doc)).told(crate::message::message_of_text(body@)),
{
}

/// An app's message does what the model says.
pub proof fn law_receive_call(
    host: &mut Host,
    doc: &mut AgentDoc,
    message: AppMessage,
    event: Option<HostEvent>,
)
    requires
        call_ensures(Host::receive, (host, doc, message), event),
    ensures
        (world_of(*final(host), *final(doc)), event.deep_view())
            == world_of(*old(host), *old(doc)).told(message.deep_view()),
{
}

/// Content that arrived does what the model says.
pub proof fn law_deliver_call(
    host: &mut Host,
    doc: &mut AgentDoc,
    op_id: &str,
    intent_type: &str,
    intent_id: &str,
    data: &str,
    call: Option<ScriptCall>,
)
    requires
        call_ensures(Host::deliver_content, (host, doc, op_id, intent_type, intent_id, data), call),
    ensures
        (world_of(*final(host), *final(doc)), call.deep_view())
            == world_of(*old(host), *old(doc)).delivered(op_id@, intent_type@, intent_id@, data@),
{
}

/// A closed window does what the model says.
pub proof fn law_close_call(host: &mut Host, doc: &mut AgentDoc, key: u64)
    requires
        call_ensures(Host::close_window, (host, doc, key), ()),
    ensures
        world_of(*final(host), *final(doc)) == world_of(*old(host), *old(doc)).closed(key),
{
}

/// A new host has nothing to do.
pub proof fn law_new_host_call(host: Host)
    requires
        call_ensures(Host::new, (), host),
    ensures
        host@ == crate::host::new_host(),
{
}

/// A request of the agent does what the model says, and tells whether the session goes on.
pub proof fn law_request_call(doc: &mut AgentDoc, request: PiToHarnessMsg, goes_on: bool)
    requires
        call_ensures(crate::bridge::apply_request, (doc, request), goes_on),
    ensures
        final(doc)@ == old(doc)@.requested(request.deep_view()),
        goes_on == crate::bridge::goes_on_after(request.deep_view()),
{
}

/// A new forwarder has told nothing.
pub proof fn law_new_forwarder_call(forwarder: Forwarder)
    requires
        call_ensures(Forwarder::new, (), forwarder),
    ensures
        forwarder.announcements == 0,
        forwarder.responses == 0,
{
}

/// What is forwarded are the notices due. What was told is counted as told; a document that asks
/// for the end leaves the counts.
pub proof fn law_forward_call(
    forwarder: &mut Forwarder,
    doc: &AgentDoc,
    notices: Option<Vec<HarnessToPiMsg>>,
)
    requires
        call_ensures(Forwarder::forward, (forwarder, doc), notices),
    ensures
        notices.deep_view()
            == crate::bridge::notices_due(
                doc@,
                old(forwarder).announcements as nat,
                old(forwarder).responses as nat,
            ),
        doc.should_exit ==> *final(forwarder) == *old(forwarder),
        !doc.should_exit
            ==> final(forwarder).announcements
            == crate::bridge::seen_after(doc@.announcements, old(forwarder).announcements as nat),
        !doc.should_exit
            ==> final(forwarder).responses
            == crate::bridge::seen_after(doc@.entity_responses, old(forwarder).responses as nat),
{
}

/// A type is valid if and only if it is `notes`.
pub proof fn law_valid_type_call(t: &str, valid: bool)
    requires
        call_ensures(crate::intent::is_valid_intent_type, (t,), valid),
    ensures
        valid <==> t@ == "notes"@,
{
}

/// An id is valid if and only if it has one to 256 characters.
pub proof fn law_valid_id_call(id: &str, valid: bool)
    requires
        call_ensures(crate::intent::is_valid_intent_id, (id,), valid),
    ensures
        valid <==> 0 < id@.len() <= 256,
{
}

/// Normalizing gives the note under the intent's id, or nothing where there is no note.
pub proof fn law_normalize_call(
    intent_id: &str,
    data: &serde_json::Value,
    content: Option<serde_json::Value>,
)
    requires
        call_ensures(crate::intent::normalize_intent_data, (intent_id, data), content),
    ensures
        content is Some <==> crate::intent::normalized(
            intent_id@,
            crate::json::json_value(*data),
        ) is Some,
        content matches Some(content)
            ==> crate::intent::normalized(intent_id@, crate::json::json_value(*data))
            == Some(crate::json::json_value(content)),
{
}

/// The text of a member is that of the JSON string, or else the default.
pub proof fn law_text_member_call(value: &serde_json::Value, key: &str, default: &str, text: String)
    requires
        call_ensures(crate::json::text_member_or, (value, key, default), text),
    ensures
        crate::json::json_value(*value).text_member(key@) matches Some(found) ==> text@ == found,
        crate::json::json_value(*value).text_member(key@) is None ==> text@ == default@,
{
}

/// The text made of content is what the model says.
pub proof fn law_scheme_content_call(
    intent_id: &str,
    data: &serde_json::Value,
    content: Option<String>,
)
    requires
        call_ensures(crate::message::scheme_content, (intent_id, data), content),
    ensures
        content.deep_view()
            == crate::message::content_text(intent_id@, crate::json::json_value(*data)),
{
}

/// The text made of content that comes as text is what the model says.
pub proof fn law_scheme_content_from_text_call(intent_id: &str, text: &str, content: Option<String>)
    requires
        call_ensures(crate::message::scheme_content_from_text, (intent_id, text), content),
    ensures
        content.deep_view() == crate::message::content_from_text(intent_id@, text@),
{
}

/// A posted value is read as what it says.
pub proof fn law_read_message_call(posted: &serde_json::Value, message: AppMessage)
    requires
        call_ensures(crate::message::read_message, (posted,), message),
    ensures
        message.deep_view() == crate::message::message_of(crate::json::json_value(*posted)),
{
}

/// A posted text is read as what it says.
pub proof fn law_read_message_text_call(body: &str, message: AppMessage)
    requires
        call_ensures(crate::message::read_message_text, (body,), message),
    ensures
        message.deep_view() == crate::message::message_of_text(body@),
{
}

/// A look-up finds what the registry holds.
pub proof fn law_look_up_call(doc: &AgentDoc, app_id: &str, intent_id: &str, found: Option<String>)
    requires
        call_ensures(crate::registry::lookup_intent_type, (doc, app_id, intent_id), found),
    ensures
        found.deep_view() == doc@.intent_type_of(app_id@, intent_id@),
{
}

/// An app has a type if and only if the registry says so.
pub proof fn law_has_type_call(doc: &AgentDoc, app_id: &str, intent_type: &str, has: bool)
    requires
        call_ensures(crate::registry::app_has_intent_type, (doc, app_id, intent_type), has),
    ensures
        has == doc@.app_supports(app_id@, intent_type@),
{
}

/// A response that is written answers the operation.
pub proof fn law_write_response_call(doc: &mut AgentDoc, op: &PendingIntentOp, data: Option<String>)
    requires
        call_ensures(crate::registry::write_response, (doc, op, data), ()),
    ensures
        final(doc)@
            == old(doc)@.responded(crate::registry::answer(op.deep_view(), data.deep_view())),
{
}

/// An error that is written answers the operation as failed.
pub proof fn law_write_error_call(doc: &mut AgentDoc, op: &PendingIntentOp, error: &str)
    requires
        call_ensures(crate::registry::write_error, (doc, op, error), ()),
    ensures
        final(doc)@ == old(doc)@.responded(crate::registry::failure(op.deep_view(), error@)),
{
}

/// The document is left as the model says.
pub proof fn law_push_registration_call(
    doc: &mut AgentDoc,
    app_id: &str,
    intent_type: &str,
    intent_id: &str,
)
    requires
        call_ensures(crate::registry::push_registration, (doc, app_id, intent_type, intent_id), ()),
    ensures
        final(doc)@
            == old(doc)@.registered(crate::registry::intent(app_id@, intent_type@, intent_id@)),
{
}

/// The document is left as the model says.
pub proof fn law_push_unregistration_call(
    doc: &mut AgentDoc,
    app_id: &str,
    intent_type: &str,
    intent_id: &str,
)
    requires
        call_ensures(
            crate::registry::push_unregistration,
            (doc, app_id, intent_type, intent_id),
            (),
        ),
    ensures
        final(doc)@
            == old(doc)@.unregistered(crate::registry::intent(app_id@, intent_type@, intent_id@)),
{
}

/// The document is left as the model says.
pub proof fn law_mark_launched_call(doc: &mut AgentDoc, id: &str)
    requires
        call_ensures(crate::registry::mark_launched, (doc, id), ()),
    ensures
        final(doc)@ == old(doc)@.view_launched(id@),
{
}

/// The document is left as the model says.
pub proof fn law_remove_app_call(doc: &mut AgentDoc, app_id: &str)
    requires
        call_ensures(crate::registry::remove_app, (doc, app_id), ()),
    ensures
        final(doc)@ == old(doc)@.without_app(app_id@),
{
}

/// A request script is the request's text.
pub proof fn law_request_script_call(
    op_id: &str,
    intent_type: &str,
    intent_id: &str,
    script: String,
)
    requires
        call_ensures(crate::script::request_script, (op_id, intent_type, intent_id), script),
    ensures
        script@ == crate::script::request_text(op_id@, intent_type@, intent_id@),
{
}

/// A delivery script is the delivery's text.
pub proof fn law_receive_script_call(
    intent_type: &str,
    intent_id: &str,
    data: &str,
    source: &str,
    script: String,
)
    requires
        call_ensures(crate::script::receive_script, (intent_type, intent_id, data, source), script),
    ensures
        script@ == crate::script::receive_text(intent_type@, intent_id@, data@, source@),
{
}

/// A page is the page's text.
pub proof fn law_page_with_call(literal: &str, webmcp: &str, html: &str, page: String)
    requires
        call_ensures(crate::script::page_with, (literal, webmcp, html), page),
    ensures
        page@ == crate::script::page_text(literal@, webmcp@, html@),
{
}

/// The page of an app is the page's text for its id.
pub proof fn law_page_call(app_id: &str, webmcp: &str, html: &str, page: String)
    requires
        call_ensures(crate::script::page, (app_id, webmcp, html), page),
    ensures
        page@ == crate::script::app_page_text(app_id@, webmcp@, html@),
{
}

/// The refusal for a target is the refusal's text.
pub proof fn law_target_error_call(target: &str, intent_type: &str, error: String)
    requires
        call_ensures(crate::script::target_error, (target, intent_type), error),
    ensures
        error@ == crate::script::target_error_text(target@, intent_type@),
{
}

/// A port is written in decimal notation.
pub proof fn law_port_text_call(port: u16, text: String)
    requires
        call_ensures(crate::system::port_text, (port,), text),
    ensures
        text@ == crate::system::decimal(port as nat),
{
}

/// The address names the port.
pub proof fn law_sync_url_call(port: u16, url: String)
    requires
        call_ensures(crate::system::sync_url, (port,), url),
    ensures
        url@ == crate::system::sync_address(port as nat),
{
}

/// The filter names the port.
pub proof fn law_port_filter_call(port: u16, filter: String)
    requires
        call_ensures(crate::system::port_filter, (port,), filter),
    ensures
        filter@ == crate::system::port_pattern(port as nat),
{
}

/// A text is trimmed at both ends.
pub proof fn law_trim_call(text: &str, inner: String)
    requires
        call_ensures(crate::system::trim_text, (text,), inner),
    ensures
        inner@ == crate::system::trimmed(text@),
{
}

/// The ids in a text are its lines.
pub proof fn law_pids_call(text: &str, pids: Vec<String>)
    requires
        call_ensures(crate::system::pids_in_text, (text,), pids),
    ensures
        pids.deep_view() == crate::system::trimmed_lines(text@),
{
}

/// The ids in a listing are the lines of its text.
pub proof fn law_listed_pids_call(listing: &[u8], pids: Vec<String>)
    requires
        call_ensures(crate::system::listed_pids, (listing,), pids),
    ensures
        pids.deep_view() == crate::system::trimmed_lines(crate::system::lossy_text(listing@)),
        vstd::utf8::valid_utf8(listing@)
            ==> pids.deep_view() == crate::system::trimmed_lines(vstd::utf8::decode_utf8(listing@)),
{
}

/// The window host's program stands where the model says.
pub proof fn law_host_program_call(known: bool, beside: bool, path: ProgramPath)
    requires
        call_ensures(crate::system::host_program, (known, beside), path),
    ensures
        path.deep_view() == crate::system::host_path(known, beside),
{
}

/// What follows a try is what the model says.
pub proof fn law_connect_call(tries_made: u32, connected: bool, next: ConnectStep)
    requires
        call_ensures(crate::system::connect_step, (tries_made, connected), next),
    ensures
        next == crate::system::step_after(tries_made as nat, connected),
{
}

/// Two texts are the same if and only if they hold the same characters.
pub proof fn law_same_text_call(left: &str, right: &str, same: bool)
    requires
        call_ensures(crate::text::same_text, (left, right), same),
    ensures
        same <==> left@ == right@,
{
}

/// A copy holds what the value holds.
pub proof fn law_web_view_copy(value: &LaunchedWebView, copy: LaunchedWebView)
    requires
        call_ensures(<LaunchedWebView as Clone>::clone, (value,), copy),
    ensures
        copy.deep_view() == value.deep_view(),
{
}

/// A copy holds what the value holds.
pub proof fn law_registered_intent_copy(value: &RegisteredIntent, copy: RegisteredIntent)
    requires
        call_ensures(<RegisteredIntent as Clone>::clone, (value,), copy),
    ensures
        copy.deep_view() == value.deep_view(),
{
}

/// A copy holds what the value holds.
pub proof fn law_operation_copy(value: &PendingIntentOp, copy: PendingIntentOp)
    requires
        call_ensures(<PendingIntentOp as Clone>::clone, (value,), copy),
    ensures
        copy.deep_view() == value.deep_view(),
{
}

/// A copy holds what the value holds.
pub proof fn law_response_copy(value: &IntentResponse, copy: IntentResponse)
    requires
        call_ensures(<IntentResponse as Clone>::clone, (value,), copy),
    ensures
        copy.deep_view() == value.deep_view(),
{
}

/// A copy holds what the value holds.
pub proof fn law_registration_copy(value: &IntentRegistration, copy: IntentRegistration)
    requires
        call_ensures(<IntentRegistration as Clone>::clone, (value,), copy),
    ensures
        copy.deep_view() == value.deep_view(),
{
}

/// A copy holds what the value holds.
pub proof fn law_entity_copy(value: &RegisteredEntity, copy: RegisteredEntity)
    requires
        call_ensures(<RegisteredEntity as Clone>::clone, (value,), copy),
    ensures
        copy.deep_view() == value.deep_view(),
{
}

/// A copy holds what the value holds.
pub proof fn law_entity_operation_copy(value: &PendingEntityOp, copy: PendingEntityOp)
    requires
        call_ensures(<PendingEntityOp as Clone>::clone, (value,), copy),
    ensures
        copy.deep_view() == value.deep_view(),
{
}

/// A copy holds what the value holds.
pub proof fn law_entity_response_copy(value: &EntityResponse, copy: EntityResponse)
    requires
        call_ensures(<EntityResponse as Clone>::clone, (value,), copy),
    ensures
        copy.deep_view() == value.deep_view(),
{
}

/// A copy holds what the value holds.
pub proof fn law_announcement_copy(value: &Announcement, copy: Announcement)
    requires
        call_ensures(<Announcement as Clone>::clone, (value,), copy),
    ensures
        copy.deep_view() == value.deep_view(),
{
}

/// A copy holds what the document holds.
pub proof fn law_document_copy(value: &AgentDoc, copy: AgentDoc)
    requires
        call_ensures(<AgentDoc as Clone>::clone, (value,), copy),
    ensures
        copy@ == value@,
{
}

/// A document starts empty.
pub proof fn law_default_document(doc: AgentDoc)
    requires
        call_ensures(<AgentDoc as Default>::default, (), doc),
    ensures
        doc@ == crate::doc::empty_doc(),
{
}

/// Whatever script goes out for a "get" or a "transfer", it goes to a window of the operation's
/// app and is the request whose request id is the operation's id and whose id is the operation's
/// intent, of a type under which the app has registered that intent. Nothing has changed by it.
pub proof fn law_script_of_a_request_names_the_operation(
    host: &mut Host,
    doc: &mut AgentDoc,
    op: &PendingIntentOp,
    content: Option<String>,
    call: ScriptCall,
)
    requires
        op.kind@ == "get"@ || op.kind@ == "transfer"@,
        call_ensures(Host::dispatch_op_with, (host, doc, op, content), Some(call)),
    ensures
        world_of(*final(host), *final(doc)) == world_of(*old(host), *old(doc)),
        exists|intent: int, window: int|
            #![trigger old(doc)@.intents[intent], old(host)@.windows[window]]
            super::operations::first_intent(old(doc)@, op.app_id@, op.intent_id@, intent)
                && super::operations::first_window(old(host)@, op.app_id@, window) && call.window
                == old(host)@.windows[window].key && call.script@ == super::operations::asking(
                op.op_id@,
                old(doc)@.intents[intent].intent_type,
                op.intent_id@,
            ),
{
    super::operations::law_every_request_names_its_operation(
        world_of(*old(host), *old(doc)),
        op.deep_view(),
        content.deep_view(),
    );
}

/// Whatever text is made of the data of a note, it is the printed form of that note under the
/// intent's id; of anything else no text is made.
pub proof fn law_text_of_content_carries_the_intent_id(
    intent_id: &str,
    data: &serde_json::Value,
    content: Option<String>,
    delivered: Map<Seq<char>, JsonView>,
)
    requires
        call_ensures(crate::message::scheme_content, (intent_id, data), content),
        delivered.contains_key("id"@),
        delivered["id"@] == JsonView::Text(intent_id@),
    ensures
        content is Some <==> (crate::json::json_value(*data) matches JsonView::Object(members)
            && super::content::is_note(members)),
        content matches Some(text) ==> (crate::json::json_value(*data) matches JsonView::Object(
            members,
        ) && (super::content::same_but_for(delivered, members, "id"@) ==> text@
            == crate::json::json_printed(JsonView::Object(delivered)))),
{
    if let JsonView::Object(members) = crate::json::json_value(*data) {
        if super::content::same_but_for(delivered, members, "id"@) {
            super::content::law_delivered_content_carries_the_intent_id(
                intent_id@,
                members,
                delivered,
            );
        }
    }
}

/// After a registration of a note under an acceptable id was received, the registry holds it,
/// whatever it held before, and it was announced exactly if it is new. The host is as it was.
pub proof fn law_received_registration_is_in_the_registry(
    host: &mut Host,
    doc: &mut AgentDoc,
    app_id: String,
    intent_type: String,
    intent_id: String,
    event: Option<HostEvent>,
)
    requires
        intent_type@ == "notes"@,
        0 < intent_id@.len() <= 256,
        call_ensures(
            Host::receive,
            (host, doc, AppMessage::Register { app_id, intent_type, intent_id }),
            event,
        ),
    ensures
        ({
            let key = IntentModel {
                app_id: app_id@,
                intent_type: intent_type@,
                intent_id: intent_id@,
            };
            let known = old(doc)@.intents.contains(key);
            &&& event is None
            &&& final(host)@ == old(host)@
            &&& final(doc)@.intents.contains(key)
            &&& final(doc)@.intents == if known {
                old(doc)@.intents
            } else {
                old(doc)@.intents + seq![key]
            }
            &&& final(doc)@.intent_registrations == if known {
                old(doc)@.intent_registrations
            } else {
                old(doc)@.intent_registrations + seq![key]
            }
        }),
{
    super::windows::law_registration_enters_the_intent(
        world_of(*old(host), *old(doc)),
        app_id@,
        intent_type@,
        intent_id@,
    );
}

/// After a launch request the document's last web view has the requested id and html and waits to
/// be launched; the session goes on.
pub proof fn law_view_of_a_launch_request_is_pending(
    doc: &mut AgentDoc,
    app_id: String,
    html: String,
    goes_on: bool,
)
    requires
        call_ensures(
            crate::bridge::apply_request,
            (doc, PiToHarnessMsg::LaunchWebView { app_id, html }),
            goes_on,
        ),
    ensures
        goes_on,
        final(doc).webviews@.len() == old(doc).webviews@.len() + 1,
        final(doc).webviews@.last().id@ == app_id@,
        final(doc).webviews@.last().html@ == html@,
        final(doc).webviews@.last().status == WebViewStatus::Pending,
{
    super::agent::law_requested_view_waits_to_be_launched(old(doc)@, app_id@, html@);
    let last = final(doc).webviews@.len() - 1;
    assert(final(doc)@.webviews[last] == final(doc).webviews@[last].deep_view());
}

/// Each response that is forwarded holds, field by field, the response of the log that it stands
/// for: behind the announcements, the i-th of them is the i-th that had not been told.
pub proof fn law_forwarded_responses_are_those_of_the_log(
    forwarder: &mut Forwarder,
    doc: &AgentDoc,
    notices: Vec<HarnessToPiMsg>,
    index: int,
)
    requires
        call_ensures(Forwarder::forward, (forwarder, doc), Some(notices)),
        old(forwarder).announcements <= doc.announcements@.len(),
        old(forwarder).responses <= index < doc.entity_responses@.len(),
    ensures
        ({
            let entry = doc.entity_responses@[index];
            let place = (doc.announcements@.len() - old(forwarder).announcements) + (index - old(
                forwarder,
            ).responses);
            &&& 0 <= place < notices@.len()
            &&& notices@[place] matches HarnessToPiMsg::EntityResponse {
                op_id,
                kind,
                app_id,
                intent_type,
                entity_id,
                data,
                is_error,
                error,
            }
            &&& op_id@ == entry.op_id@
            &&& kind@ == entry.kind@
            &&& app_id@ == entry.app_id@
            &&& intent_type@ == entry.intent_type@
            &&& entity_id@ == entry.entity_id@
            &&& data.deep_view() == entry.data.deep_view()
            &&& is_error == entry.is_error
            &&& error.deep_view() == entry.error.deep_view()
        }),
{
    super::agent::law_notices_hold_the_entries_of_the_logs(
        doc@,
        old(forwarder).announcements as nat,
        old(forwarder).responses as nat,
    );
    let place = (doc.announcements@.len() - old(forwarder).announcements) + (index - old(
        forwarder,
    ).responses);
    let shown = notices.deep_view();
    assert(shown[place] == notices@[place].deep_view());
    super::models::law_notice_model_shows_every_field(notices@[place]);
    assert(doc@.entity_responses[index] == doc.entity_responses@[index].deep_view());
}

} // verus!
