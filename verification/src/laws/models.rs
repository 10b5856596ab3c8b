//! What the models show of the values: every field, and each under its own name.

use vstd::prelude::*;

use crate::bridge::HarnessToPiMsg;
use crate::bridge::NoticeModel;
use crate::bridge::PiToHarnessMsg;
use crate::bridge::RequestModel;
use crate::doc::AgentDoc;
use crate::doc::Announcement;
use crate::doc::EntityResponse;
use crate::doc::IntentRegistration;
use crate::doc::IntentResponse;
use crate::doc::LaunchedWebView;
use crate::doc::PendingEntityOp;
use crate::doc::PendingIntentOp;
use crate::doc::RegisteredEntity;
use crate::doc::RegisteredIntent;
use crate::host::AppWindow;
use crate::host::EventModel;
use crate::host::Host;
use crate::host::HostEvent;
use crate::host::ScriptCall;
use crate::message::AppMessage;
use crate::message::MessageModel;

verus! {

/// The model of a [`LaunchedWebView`] shows each of its fields.
pub proof fn law_web_view_model_shows_every_field(value: LaunchedWebView)
    ensures
        value.deep_view().id == value.id@,
        value.deep_view().html == value.html@,
        value.deep_view().status == value.status,
{
}

/// The model of a [`RegisteredIntent`] shows each of its fields.
pub proof fn law_registered_intent_model_shows_every_field(value: RegisteredIntent)
    ensures
        value.deep_view().app_id == value.app_id@,
        value.deep_view().intent_type == value.intent_type@,
        value.deep_view().intent_id == value.intent_id@,
{
}

/// The model of a [`IntentRegistration`] shows each of its fields.
pub proof fn law_registration_model_shows_every_field(value: IntentRegistration)
    ensures
        value.deep_view().app_id == value.app_id@,
        value.deep_view().intent_type == value.intent_type@,
        value.deep_view().intent_id == value.intent_id@,
{
}

/// The model of a [`PendingIntentOp`] shows each of its fields.
pub proof fn law_operation_model_shows_every_field(value: PendingIntentOp)
    ensures
        value.deep_view().op_id == value.op_id@,
        value.deep_view().kind == value.kind@,
        value.deep_view().app_id == value.app_id@,
        value.deep_view().intent_id == value.intent_id@,
        value.deep_view().data == value.data.deep_view(),
        value.deep_view().target_app == value.target_app.deep_view(),
{
}

/// The model of a [`IntentResponse`] shows each of its fields.
pub proof fn law_response_model_shows_every_field(value: IntentResponse)
    ensures
        value.deep_view().op_id == value.op_id@,
        value.deep_view().kind == value.kind@,
        value.deep_view().app_id == value.app_id@,
        value.deep_view().intent_id == value.intent_id@,
        value.deep_view().data == value.data.deep_view(),
        value.deep_view().is_error == value.is_error,
        value.deep_view().error == value.error.deep_view(),
{
}

/// The model of a [`RegisteredEntity`] shows each of its fields.
pub proof fn law_entity_model_shows_every_field(value: RegisteredEntity)
    ensures
        value.deep_view().app_id == value.app_id@,
        value.deep_view().intent_type == value.intent_type@,
        value.deep_view().entity_id == value.entity_id@,
{
}

/// The model of a [`PendingEntityOp`] shows each of its fields.
pub proof fn law_entity_operation_model_shows_every_field(value: PendingEntityOp)
    ensures
        value.deep_view().op_id == value.op_id@,
        value.deep_view().kind == value.kind@,
        value.deep_view().app_id == value.app_id@,
        value.deep_view().intent_type == value.intent_type@,
        value.deep_view().entity_id == value.entity_id@,
        value.deep_view().data == value.data.deep_view(),
        value.deep_view().target_app == value.target_app.deep_view(),
{
}

/// The model of a [`EntityResponse`] shows each of its fields.
pub proof fn law_entity_response_model_shows_every_field(value: EntityResponse)
    ensures
        value.deep_view().op_id == value.op_id@,
        value.deep_view().kind == value.kind@,
        value.deep_view().app_id == value.app_id@,
        value.deep_view().intent_type == value.intent_type@,
        value.deep_view().entity_id == value.entity_id@,
        value.deep_view().data == value.data.deep_view(),
        value.deep_view().is_error == value.is_error,
        value.deep_view().error == value.error.deep_view(),
{
}

/// The model of a [`Announcement`] shows each of its fields.
pub proof fn law_announcement_model_shows_every_field(value: Announcement)
    ensures
        value.deep_view().kind == value.kind@,
        value.deep_view().app_id == value.app_id@,
        value.deep_view().intent_type == value.intent_type@,
        value.deep_view().entity_id == value.entity_id.deep_view(),
{
}

/// The model of a [`AppWindow`] shows each of its fields.
pub proof fn law_window_model_shows_every_field(value: AppWindow)
    ensures
        value.deep_view().key == value.key,
        value.deep_view().app_id == value.app_id@,
{
}

/// The model of a [`ScriptCall`] shows each of its fields.
pub proof fn law_script_call_model_shows_every_field(value: ScriptCall)
    ensures
        value.deep_view().window == value.window,
        value.deep_view().script == value.script@,
{
}

/// The model of the document shows each of its lists, item by item, and its other fields.
pub proof fn law_document_model_shows_every_field(doc: AgentDoc)
    ensures
        doc@.webviews == doc.webviews.deep_view(),
        doc@.intents == doc.intents.deep_view(),
        doc@.intent_ops == doc.intent_ops.deep_view(),
        doc@.intent_responses == doc.intent_responses.deep_view(),
        doc@.intent_registrations == doc.intent_registrations.deep_view(),
        doc@.intent_unregistrations == doc.intent_unregistrations.deep_view(),
        doc@.entities == doc.entities.deep_view(),
        doc@.entity_ops == doc.entity_ops.deep_view(),
        doc@.entity_responses == doc.entity_responses.deep_view(),
        doc@.announcements == doc.announcements.deep_view(),
        doc@.should_exit == doc.should_exit,
        doc@.error_message == doc.error_message.deep_view(),
{
}

/// The model of a host shows each of its lists, item by item.
pub proof fn law_host_model_shows_every_field(host: Host)
    ensures
        host@.launching == host.launching.deep_view(),
        host@.pending == host.pending.deep_view(),
        host@.windows == host.windows.deep_view(),
{
}

/// The model of an event shows its kind and each of its fields.
pub proof fn law_event_model_shows_every_field(event: HostEvent)
    ensures
        event matches HostEvent::WebAppLaunch { id, html } ==> event.deep_view() matches EventModel::WebAppLaunch {
            id: shown_id,
            html: shown_html,
        } && shown_id == id@ && shown_html == html@,
        event matches HostEvent::IntentOp { op } ==> event.deep_view() matches EventModel::IntentOp {
            op: shown_op,
        } && shown_op == op.deep_view(),
        event matches HostEvent::IntentContentReady { op_id, intent_type, intent_id, data }
            ==> event.deep_view() matches EventModel::IntentContentReady {
            op_id: shown_op,
            intent_type: shown_type,
            intent_id: shown_id,
            data: shown_data,
        } && shown_op == op_id@ && shown_type == intent_type@ && shown_id == intent_id@
            && shown_data == data@,
{
}

/// The model of an app's message shows its kind and each of its fields.
pub proof fn law_message_model_shows_every_field(message: AppMessage)
    ensures
        message matches AppMessage::Register { app_id, intent_type, intent_id }
            ==> message.deep_view() matches MessageModel::Register {
            app_id: shown_app,
            intent_type: shown_type,
            intent_id: shown_id,
        } && shown_app == app_id@ && shown_type == intent_type@ && shown_id == intent_id@,
        message matches AppMessage::Unregister { app_id, intent_type, intent_id }
            ==> message.deep_view() matches MessageModel::Unregister {
            app_id: shown_app,
            intent_type: shown_type,
            intent_id: shown_id,
        } && shown_app == app_id@ && shown_type == intent_type@ && shown_id == intent_id@,
        message matches AppMessage::Content { op_id, intent_type, intent_id, content }
            ==> message.deep_view() matches MessageModel::Content {
            op_id: shown_op,
            intent_type: shown_type,
            intent_id: shown_id,
            content: shown_content,
        } && shown_op == op_id@ && shown_type == intent_type@ && shown_id == intent_id@
            && shown_content == content.deep_view(),
        message is Ignored <==> message.deep_view() is Ignored,
{
}

/// The model of a request of the agent shows its kind and each of its fields.
pub proof fn law_request_model_shows_every_field(request: PiToHarnessMsg)
    ensures
        request matches PiToHarnessMsg::LaunchWebView { app_id, html }
            ==> request.deep_view() matches RequestModel::LaunchWebView {
            app_id: shown_app,
            html: shown_html,
        } && shown_app == app_id@ && shown_html == html@,
        request matches PiToHarnessMsg::CloseWebView { app_id }
            ==> request.deep_view() matches RequestModel::CloseWebView { app_id: shown_app }
            && shown_app == app_id@,
        request matches PiToHarnessMsg::EntityOp {
            op_id,
            kind,
            app_id,
            intent_type,
            entity_id,
            data,
            target_app,
        } ==> request.deep_view() matches RequestModel::EntityOp { op } && op.op_id == op_id@
            && op.kind == kind@ && op.app_id == app_id@ && op.intent_type == intent_type@
            && op.entity_id == entity_id@ && op.data == data.deep_view() && op.target_app
            == target_app.deep_view(),
        request is Exit <==> request.deep_view() is Exit,
{
}

/// The model of a notice shows its kind and each of its fields, the failure of a response among
/// them.
pub proof fn law_notice_model_shows_every_field(notice: HarnessToPiMsg)
    ensures
        notice is Welcome <==> notice.deep_view() is Welcome,
        notice matches HarnessToPiMsg::Announcement { kind, app_id, intent_type, entity_id }
            ==> notice.deep_view() matches NoticeModel::Announcement { announcement }
            && announcement.kind == kind@ && announcement.app_id == app_id@
            && announcement.intent_type == intent_type@ && announcement.entity_id
            == entity_id.deep_view(),
        notice matches HarnessToPiMsg::EntityResponse {
            op_id,
            kind,
            app_id,
            intent_type,
            entity_id,
            data,
            is_error,
            error,
        } ==> notice.deep_view() matches NoticeModel::EntityResponse { response } && response.op_id
            == op_id@ && response.kind == kind@ && response.app_id == app_id@
            && response.intent_type == intent_type@ && response.entity_id == entity_id@
            && response.data == data.deep_view() && response.is_error == is_error && response.error
            == error.deep_view(),
{
}

/// A document that nothing has been written to holds nothing and asks for no end.
pub proof fn law_empty_document_holds_nothing()
    ensures
        crate::doc::empty_doc().webviews.len() == 0,
        crate::doc::empty_doc().intents.len() == 0,
        crate::doc::empty_doc().intent_ops.len() == 0,
        crate::doc::empty_doc().intent_responses.len() == 0,
        crate::doc::empty_doc().intent_registrations.len() == 0,
        crate::doc::empty_doc().intent_unregistrations.len() == 0,
        crate::doc::empty_doc().entities.len() == 0,
        crate::doc::empty_doc().entity_ops.len() == 0,
        crate::doc::empty_doc().entity_responses.len() == 0,
        crate::doc::empty_doc().announcements.len() == 0,
        !crate::doc::empty_doc().should_exit,
        crate::doc::empty_doc().error_message is None,
{
}

} // verus!
