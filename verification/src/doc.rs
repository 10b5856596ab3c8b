//! The document that the agent side and the window host share.

use vstd::prelude::*;

verus! {

/// Where a web view stands between being asked for and being gone.
#[derive(Debug, Clone, Copy, PartialEq, Eq, Structural)]
pub enum WebViewStatus {
    Pending,
    Launched,
    Closed,
}

/// A web view that the agent wants on screen.
#[derive(Debug, PartialEq)]
pub struct LaunchedWebView {
    pub id: String,
    pub html: String,
    pub status: WebViewStatus,
}

/// What a [`LaunchedWebView`] holds.
#[verifier::ext_equal]
pub struct WebViewModel {
    pub id: Seq<char>,
    pub html: Seq<char>,
    pub status: WebViewStatus,
}

impl DeepView for LaunchedWebView {
    type V = WebViewModel;

    open spec fn deep_view(&self) -> WebViewModel {
        WebViewModel {
            id: self.id@,
            html: self.html@,
            status: self.status,
        }
    }
}

impl Clone for LaunchedWebView {
    fn clone(&self) -> (copy: Self)
        ensures
            copy.deep_view() == self.deep_view(),
    {
        LaunchedWebView {
            id: self.id.clone(),
            html: self.html.clone(),
            status: self.status,
        }
    }
}

/// An intent a web app has made available: type and id only, no content.
#[derive(Debug, PartialEq)]
pub struct RegisteredIntent {
    pub app_id: String,
    pub intent_type: String,
    pub intent_id: String,
}

/// An intent held by an app, as the registry and the announcements know it.
#[verifier::ext_equal]
pub struct IntentModel {
    pub app_id: Seq<char>,
    pub intent_type: Seq<char>,
    pub intent_id: Seq<char>,
}

impl DeepView for RegisteredIntent {
    type V = IntentModel;

    open spec fn deep_view(&self) -> IntentModel {
        IntentModel {
            app_id: self.app_id@,
            intent_type: self.intent_type@,
            intent_id: self.intent_id@,
        }
    }
}

impl Clone for RegisteredIntent {
    fn clone(&self) -> (copy: Self)
        ensures
            copy.deep_view() == self.deep_view(),
    {
        RegisteredIntent {
            app_id: self.app_id.clone(),
            intent_type: self.intent_type.clone(),
            intent_id: self.intent_id.clone(),
        }
    }
}

/// An intent operation queued for the window host to execute against apps.
#[derive(Debug, PartialEq)]
pub struct PendingIntentOp {
    /// Unique id correlating this op with its response.
    pub op_id: String,
    /// "get" | "set" | "transfer"
    pub kind: String,
    /// Source app: for get and set the app holding the intent, for transfer the app the content
    /// is cloned from.
    pub app_id: String,
    pub intent_id: String,
    /// JSON content for "set" ops (provided by the agent).
    pub data: Option<String>,
    /// Destination app for "transfer" ops.
    pub target_app: Option<String>,
}

/// What a [`PendingIntentOp`] holds.
#[verifier::ext_equal]
pub struct OpModel {
    pub op_id: Seq<char>,
    pub kind: Seq<char>,
    pub app_id: Seq<char>,
    pub intent_id: Seq<char>,
    pub data: Option<Seq<char>>,
    pub target_app: Option<Seq<char>>,
}

impl DeepView for PendingIntentOp {
    type V = OpModel;

    open spec fn deep_view(&self) -> OpModel {
        OpModel {
            op_id: self.op_id@,
            kind: self.kind@,
            app_id: self.app_id@,
            intent_id: self.intent_id@,
            data: self.data.deep_view(),
            target_app: self.target_app.deep_view(),
        }
    }
}

impl Clone for PendingIntentOp {
    fn clone(&self) -> (copy: Self)
        ensures
            copy.deep_view() == self.deep_view(),
    {
        PendingIntentOp {
            op_id: self.op_id.clone(),
            kind: self.kind.clone(),
            app_id: self.app_id.clone(),
            intent_id: self.intent_id.clone(),
            data: self.data.clone(),
            target_app: self.target_app.clone(),
        }
    }
}

/// Result of an intent op, written by the window host.
#[derive(Debug, PartialEq)]
pub struct IntentResponse {
    /// Matches the op id of the operation it answers.
    pub op_id: String,
    pub kind: String,
    pub app_id: String,
    pub intent_id: String,
    /// JSON content (only for successful "get" ops).
    pub data: Option<String>,
    pub is_error: bool,
    pub error: Option<String>,
}

/// What an [`IntentResponse`] holds.
#[verifier::ext_equal]
pub struct ResponseModel {
    pub op_id: Seq<char>,
    pub kind: Seq<char>,
    pub app_id: Seq<char>,
    pub intent_id: Seq<char>,
    pub data: Option<Seq<char>>,
    pub is_error: bool,
    pub error: Option<Seq<char>>,
}

impl DeepView for IntentResponse {
    type V = ResponseModel;

    open spec fn deep_view(&self) -> ResponseModel {
        ResponseModel {
            op_id: self.op_id@,
            kind: self.kind@,
            app_id: self.app_id@,
            intent_id: self.intent_id@,
            data: self.data.deep_view(),
            is_error: self.is_error,
            error: self.error.deep_view(),
        }
    }
}

impl Clone for IntentResponse {
    fn clone(&self) -> (copy: Self)
        ensures
            copy.deep_view() == self.deep_view(),
    {
        IntentResponse {
            op_id: self.op_id.clone(),
            kind: self.kind.clone(),
            app_id: self.app_id.clone(),
            intent_id: self.intent_id.clone(),
            data: self.data.clone(),
            is_error: self.is_error,
            error: self.error.clone(),
        }
    }
}

/// An intent registration to announce to the agent: either the app registered the intent or a
/// transfer cloned it into the app.
#[derive(Debug, PartialEq)]
pub struct IntentRegistration {
    pub app_id: String,
    pub intent_type: String,
    pub intent_id: String,
}

impl DeepView for IntentRegistration {
    type V = IntentModel;

    open spec fn deep_view(&self) -> IntentModel {
        IntentModel {
            app_id: self.app_id@,
            intent_type: self.intent_type@,
            intent_id: self.intent_id@,
        }
    }
}

impl Clone for IntentRegistration {
    fn clone(&self) -> (copy: Self)
        ensures
            copy.deep_view() == self.deep_view(),
    {
        IntentRegistration {
            app_id: self.app_id.clone(),
            intent_type: self.intent_type.clone(),
            intent_id: self.intent_id.clone(),
        }
    }
}

/// An entity, a specific instance of an intent, that a web app has registered.
#[derive(Debug, PartialEq)]
pub struct RegisteredEntity {
    pub app_id: String,
    pub intent_type: String,
    pub entity_id: String,
}

/// What a [`RegisteredEntity`] holds.
#[verifier::ext_equal]
pub struct EntityModel {
    pub app_id: Seq<char>,
    pub intent_type: Seq<char>,
    pub entity_id: Seq<char>,
}

impl DeepView for RegisteredEntity {
    type V = EntityModel;

    open spec fn deep_view(&self) -> EntityModel {
        EntityModel {
            app_id: self.app_id@,
            intent_type: self.intent_type@,
            entity_id: self.entity_id@,
        }
    }
}

impl Clone for RegisteredEntity {
    fn clone(&self) -> (copy: Self)
        ensures
            copy.deep_view() == self.deep_view(),
    {
        RegisteredEntity {
            app_id: self.app_id.clone(),
            intent_type: self.intent_type.clone(),
            entity_id: self.entity_id.clone(),
        }
    }
}

/// An entity operation queued by the agent.
#[derive(Debug, PartialEq)]
pub struct PendingEntityOp {
    pub op_id: String,
    pub kind: String,
    pub app_id: String,
    pub intent_type: String,
    pub entity_id: String,
    pub data: Option<String>,
    pub target_app: Option<String>,
}

/// What a [`PendingEntityOp`] holds.
#[verifier::ext_equal]
pub struct EntityOpModel {
    pub op_id: Seq<char>,
    pub kind: Seq<char>,
    pub app_id: Seq<char>,
    pub intent_type: Seq<char>,
    pub entity_id: Seq<char>,
    pub data: Option<Seq<char>>,
    pub target_app: Option<Seq<char>>,
}

impl DeepView for PendingEntityOp {
    type V = EntityOpModel;

    open spec fn deep_view(&self) -> EntityOpModel {
        EntityOpModel {
            op_id: self.op_id@,
            kind: self.kind@,
            app_id: self.app_id@,
            intent_type: self.intent_type@,
            entity_id: self.entity_id@,
            data: self.data.deep_view(),
            target_app: self.target_app.deep_view(),
        }
    }
}

impl Clone for PendingEntityOp {
    fn clone(&self) -> (copy: Self)
        ensures
            copy.deep_view() == self.deep_view(),
    {
        PendingEntityOp {
            op_id: self.op_id.clone(),
            kind: self.kind.clone(),
            app_id: self.app_id.clone(),
            intent_type: self.intent_type.clone(),
            entity_id: self.entity_id.clone(),
            data: self.data.clone(),
            target_app: self.target_app.clone(),
        }
    }
}

/// Result of an entity op.
#[derive(Debug, PartialEq)]
pub struct EntityResponse {
    pub op_id: String,
    pub kind: String,
    pub app_id: String,
    pub intent_type: String,
    pub entity_id: String,
    pub data: Option<String>,
    pub is_error: bool,
    pub error: Option<String>,
}

/// What an [`EntityResponse`] holds.
#[verifier::ext_equal]
pub struct EntityResponseModel {
    pub op_id: Seq<char>,
    pub kind: Seq<char>,
    pub app_id: Seq<char>,
    pub intent_type: Seq<char>,
    pub entity_id: Seq<char>,
    pub data: Option<Seq<char>>,
    pub is_error: bool,
    pub error: Option<Seq<char>>,
}

impl DeepView for EntityResponse {
    type V = EntityResponseModel;

    open spec fn deep_view(&self) -> EntityResponseModel {
        EntityResponseModel {
            op_id: self.op_id@,
            kind: self.kind@,
            app_id: self.app_id@,
            intent_type: self.intent_type@,
            entity_id: self.entity_id@,
            data: self.data.deep_view(),
            is_error: self.is_error,
            error: self.error.deep_view(),
        }
    }
}

impl Clone for EntityResponse {
    fn clone(&self) -> (copy: Self)
        ensures
            copy.deep_view() == self.deep_view(),
    {
        EntityResponse {
            op_id: self.op_id.clone(),
            kind: self.kind.clone(),
            app_id: self.app_id.clone(),
            intent_type: self.intent_type.clone(),
            entity_id: self.entity_id.clone(),
            data: self.data.clone(),
            is_error: self.is_error,
            error: self.error.clone(),
        }
    }
}

/// A registration change for the agent context: type and id only, never content.
#[derive(Debug, PartialEq)]
pub struct Announcement {
    pub kind: String,
    pub app_id: String,
    pub intent_type: String,
    pub entity_id: Option<String>,
}

/// What an [`Announcement`] holds.
#[verifier::ext_equal]
pub struct AnnouncementModel {
    pub kind: Seq<char>,
    pub app_id: Seq<char>,
    pub intent_type: Seq<char>,
    pub entity_id: Option<Seq<char>>,
}

impl DeepView for Announcement {
    type V = AnnouncementModel;

    open spec fn deep_view(&self) -> AnnouncementModel {
        AnnouncementModel {
            kind: self.kind@,
            app_id: self.app_id@,
            intent_type: self.intent_type@,
            entity_id: self.entity_id.deep_view(),
        }
    }
}

impl Clone for Announcement {
    fn clone(&self) -> (copy: Self)
        ensures
            copy.deep_view() == self.deep_view(),
    {
        Announcement {
            kind: self.kind.clone(),
            app_id: self.app_id.clone(),
            intent_type: self.intent_type.clone(),
            entity_id: self.entity_id.clone(),
        }
    }
}

/// The shared document.
#[derive(Debug, PartialEq)]
pub struct AgentDoc {
    /// Web views that the agent wants launched.
    pub webviews: Vec<LaunchedWebView>,
    /// Intents registered by web apps: the registry used for validation (does an app actually
    /// hold this intent? does the target app support the same scheme?).
    pub intents: Vec<RegisteredIntent>,
    /// Pending intent operations queued by the agent (get / set / transfer). Consumed (and
    /// cleared) by the window host.
    pub intent_ops: Vec<PendingIntentOp>,
    /// Resolved intent operations written by the window host. Never cleared.
    pub intent_responses: Vec<IntentResponse>,
    /// Intent registrations to announce: app-initiated ones and transfer completions (a cloned
    /// intent now exists in the target app). Never cleared.
    pub intent_registrations: Vec<IntentRegistration>,
    /// Intent unregistrations to announce. Never cleared.
    pub intent_unregistrations: Vec<IntentRegistration>,
    /// Entities registered by web apps.
    pub entities: Vec<RegisteredEntity>,
    /// Pending entity operations queued by the agent.
    pub entity_ops: Vec<PendingEntityOp>,
    /// Resolved entity operations, forwarded to the agent. Never cleared.
    pub entity_responses: Vec<EntityResponse>,
    /// Registration changes, forwarded to the agent. Never cleared.
    pub announcements: Vec<Announcement>,
    /// Set to true to request graceful shutdown.
    pub should_exit: bool,
    /// Error message from the window host.
    pub error_message: Option<String>,
}

/// What an [`AgentDoc`] holds.
#[verifier::ext_equal]
pub struct DocModel {
    pub webviews: Seq<WebViewModel>,
    pub intents: Seq<IntentModel>,
    pub intent_ops: Seq<OpModel>,
    pub intent_responses: Seq<ResponseModel>,
    pub intent_registrations: Seq<IntentModel>,
    pub intent_unregistrations: Seq<IntentModel>,
    pub entities: Seq<EntityModel>,
    pub entity_ops: Seq<EntityOpModel>,
    pub entity_responses: Seq<EntityResponseModel>,
    pub announcements: Seq<AnnouncementModel>,
    pub should_exit: bool,
    pub error_message: Option<Seq<char>>,
}

impl View for AgentDoc {
    type V = DocModel;

    open spec fn view(&self) -> DocModel {
        DocModel {
            webviews: self.webviews.deep_view(),
            intents: self.intents.deep_view(),
            intent_ops: self.intent_ops.deep_view(),
            intent_responses: self.intent_responses.deep_view(),
            intent_registrations: self.intent_registrations.deep_view(),
            intent_unregistrations: self.intent_unregistrations.deep_view(),
            entities: self.entities.deep_view(),
            entity_ops: self.entity_ops.deep_view(),
            entity_responses: self.entity_responses.deep_view(),
            announcements: self.announcements.deep_view(),
            should_exit: self.should_exit,
            error_message: self.error_message.deep_view(),
        }
    }
}

impl Clone for AgentDoc {
    fn clone(&self) -> (copy: Self)
        ensures
            copy@ == self@,
    {
        AgentDoc {
            webviews: self.webviews.clone(),
            intents: self.intents.clone(),
            intent_ops: self.intent_ops.clone(),
            intent_responses: self.intent_responses.clone(),
            intent_registrations: self.intent_registrations.clone(),
            intent_unregistrations: self.intent_unregistrations.clone(),
            entities: self.entities.clone(),
            entity_ops: self.entity_ops.clone(),
            entity_responses: self.entity_responses.clone(),
            announcements: self.announcements.clone(),
            should_exit: self.should_exit,
            error_message: self.error_message.clone(),
        }
    }
}

/// The document that nothing has been written to.
pub open spec fn empty_doc() -> DocModel {
    DocModel {
        webviews: Seq::empty(),
        intents: Seq::empty(),
        intent_ops: Seq::empty(),
        intent_responses: Seq::empty(),
        intent_registrations: Seq::empty(),
        intent_unregistrations: Seq::empty(),
        entities: Seq::empty(),
        entity_ops: Seq::empty(),
        entity_responses: Seq::empty(),
        announcements: Seq::empty(),
        should_exit: false,
        error_message: None,
    }
}

impl Default for AgentDoc {
    fn default() -> (doc: Self)
        ensures
            doc@ == empty_doc(),
    {
        AgentDoc {
            webviews: Vec::new(),
            intents: Vec::new(),
            intent_ops: Vec::new(),
            intent_responses: Vec::new(),
            intent_registrations: Vec::new(),
            intent_unregistrations: Vec::new(),
            entities: Vec::new(),
            entity_ops: Vec::new(),
            entity_responses: Vec::new(),
            announcements: Vec::new(),
            should_exit: false,
            error_message: None,
        }
    }
}

} // verus!
