//! The bridge between the agent and the shared document.

use vstd::prelude::*;

use crate::doc::AgentDoc;
use crate::doc::Announcement;
use crate::doc::AnnouncementModel;
use crate::doc::DocModel;
use crate::doc::EntityModel;
use crate::doc::EntityOpModel;
use crate::doc::EntityResponse;
use crate::doc::EntityResponseModel;
use crate::doc::LaunchedWebView;
use crate::doc::PendingEntityOp;
use crate::doc::RegisteredEntity;
use crate::doc::WebViewModel;
use crate::doc::WebViewStatus;
use crate::list::retain;
use crate::registry::remove_app;
use crate::text::same_text;

verus! {

/// JSON WebSocket port: agent extension to harness (plain JSON).
pub const JSON_WS_PORT: u16 = 2341;

/// Sync WebSocket port: harness to window host.
pub const SAMOD_WS_PORT: u16 = 2342;

/// What the agent asks for.
#[derive(Debug, PartialEq)]
pub enum PiToHarnessMsg {
    LaunchWebView { app_id: String, html: String },
    CloseWebView { app_id: String },
    EntityOp {
        op_id: String,
        kind: String,
        app_id: String,
        intent_type: String,
        entity_id: String,
        data: Option<String>,
        target_app: Option<String>,
    },
    Exit,
}

/// What a [`PiToHarnessMsg`] holds.
#[verifier::ext_equal]
pub enum RequestModel {
    LaunchWebView { app_id: Seq<char>, html: Seq<char> },
    CloseWebView { app_id: Seq<char> },
    EntityOp { op: EntityOpModel },
    Exit,
}

impl DeepView for PiToHarnessMsg {
    type V = RequestModel;

    open spec fn deep_view(&self) -> RequestModel {
        match self {
            PiToHarnessMsg::LaunchWebView { app_id, html } => RequestModel::LaunchWebView {
                app_id: app_id@,
                html: html@,
            },
            PiToHarnessMsg::CloseWebView { app_id } => RequestModel::CloseWebView {
                app_id: app_id@,
            },
            PiToHarnessMsg::EntityOp {
                op_id,
                kind,
                app_id,
                intent_type,
                entity_id,
                data,
                target_app,
            } => RequestModel::EntityOp {
                op: EntityOpModel {
                    op_id: op_id@,
                    kind: kind@,
                    app_id: app_id@,
                    intent_type: intent_type@,
                    entity_id: entity_id@,
                    data: data.deep_view(),
                    target_app: target_app.deep_view(),
                },
            },
            PiToHarnessMsg::Exit => RequestModel::Exit,
        }
    }
}

/// What the agent is told.
#[derive(Debug, PartialEq)]
pub enum HarnessToPiMsg {
    Welcome,
    /// A registration change for the agent context: only type and id, never content.
    Announcement { kind: String, app_id: String, intent_type: String, entity_id: Option<String> },
    /// A queued entity op was resolved.
    EntityResponse {
        op_id: String,
        kind: String,
        app_id: String,
        intent_type: String,
        entity_id: String,
        data: Option<String>,
        is_error: bool,
        error: Option<String>,
    },
}

/// What a [`HarnessToPiMsg`] holds.
#[verifier::ext_equal]
pub enum NoticeModel {
    Welcome,
    Announcement { announcement: AnnouncementModel },
    EntityResponse { response: EntityResponseModel },
}

impl DeepView for HarnessToPiMsg {
    type V = NoticeModel;

    open spec fn deep_view(&self) -> NoticeModel {
        match self {
            HarnessToPiMsg::Welcome => NoticeModel::Welcome,
            HarnessToPiMsg::Announcement { kind, app_id, intent_type, entity_id } =>
            NoticeModel::Announcement {
                announcement: AnnouncementModel {
                    kind: kind@,
                    app_id: app_id@,
                    intent_type: intent_type@,
                    entity_id: entity_id.deep_view(),
                },
            },
            HarnessToPiMsg::EntityResponse {
                op_id,
                kind,
                app_id,
                intent_type,
                entity_id,
                data,
                is_error,
                error,
            } => NoticeModel::EntityResponse {
                response: EntityResponseModel {
                    op_id: op_id@,
                    kind: kind@,
                    app_id: app_id@,
                    intent_type: intent_type@,
                    entity_id: entity_id@,
                    data: data.deep_view(),
                    is_error: *is_error,
                    error: error.deep_view(),
                },
            },
        }
    }
}

/// Tells the entities of every app but one.
pub open spec fn entity_of_other_app(app_id: Seq<char>) -> spec_fn(EntityModel) -> bool {
    |entity: EntityModel| entity.app_id != app_id
}

impl DocModel {
    /// The document without anything of the app: web views, intents and entities.
    pub open spec fn without_app_and_entities(self, app_id: Seq<char>) -> DocModel {
        DocModel {
            entities: self.entities.filter(entity_of_other_app(app_id)),
            ..self.without_app(app_id)
        }
    }

    /// The document after the agent's request.
    pub open spec fn requested(self, request: RequestModel) -> DocModel {
        match request {
            RequestModel::LaunchWebView { app_id, html } => DocModel {
                webviews: self.webviews.push(
                    WebViewModel { id: app_id, html, status: WebViewStatus::Pending },
                ),
                ..self
            },
            RequestModel::CloseWebView { app_id } => self.without_app_and_entities(app_id),
            RequestModel::EntityOp { op } => DocModel {
                entity_ops: self.entity_ops.push(op),
                ..self
            },
            RequestModel::Exit => DocModel { should_exit: true, ..self },
        }
    }
}

/// The notices of announcements.
pub open spec fn announcement_notices(announcements: Seq<AnnouncementModel>) -> Seq<NoticeModel> {
    announcements.map_values(
        |announcement: AnnouncementModel| NoticeModel::Announcement { announcement },
    )
}

/// The notices of responses.
pub open spec fn response_notices(responses: Seq<EntityResponseModel>) -> Seq<NoticeModel> {
    responses.map_values(|response: EntityResponseModel| NoticeModel::EntityResponse { response })
}

/// What of a log stands behind the first `seen` entries: nothing where there are no more.
pub open spec fn unseen<A>(log: Seq<A>, seen: nat) -> Seq<A> {
    if seen < log.len() {
        log.skip(seen as int)
    } else {
        Seq::empty()
    }
}

/// How many entries of a log have been seen once its unseen ones were forwarded.
pub open spec fn seen_after<A>(log: Seq<A>, seen: nat) -> nat {
    if seen < log.len() {
        log.len()
    } else {
        seen
    }
}

/// What the agent has not been told of a document, of whose logs it was told so many entries:
/// announcements first; `None` where the document asks for the end.
pub open spec fn notices_due(doc: DocModel, announced: nat, answered: nat) -> Option<
    Seq<NoticeModel>,
> {
    if doc.should_exit {
        None
    } else {
        Some(
            announcement_notices(unseen(doc.announcements, announced)) + response_notices(
                unseen(doc.entity_responses, answered),
            ),
        )
    }
}

/// Whether the agent's session goes on after a request.
pub open spec fn goes_on_after(request: RequestModel) -> bool {
    !(request is Exit)
}

/// Carries out one request of the agent on the document. Returns whether the agent's session
/// goes on.
pub fn apply_request(doc: &mut AgentDoc, request: PiToHarnessMsg) -> (goes_on: bool)
    ensures
        final(doc)@ == old(doc)@.requested(request.deep_view()),
        goes_on == !(request.deep_view() is Exit),
        goes_on == goes_on_after(request.deep_view()),
{
    match request {
        PiToHarnessMsg::LaunchWebView { app_id, html } => {
            doc.webviews.push(LaunchedWebView { id: app_id, html, status: WebViewStatus::Pending });
            true
        },
        PiToHarnessMsg::CloseWebView { app_id } => {
            remove_app(doc, app_id.as_str());
            let ghost model = entity_of_other_app(app_id@);
            let is_other = |e: &RegisteredEntity| -> (passes: bool)
                ensures
                    passes == model(e.deep_view()),
                { !same_text(e.app_id.as_str(), app_id.as_str()) };
            retain(&mut doc.entities, is_other, Ghost(model));
            true
        },
        PiToHarnessMsg::EntityOp {
            op_id,
            kind,
            app_id,
            intent_type,
            entity_id,
            data,
            target_app,
        } => {
            doc.entity_ops.push(
                PendingEntityOp { op_id, kind, app_id, intent_type, entity_id, data, target_app },
            );
            true
        },
        PiToHarnessMsg::Exit => {
            doc.should_exit = true;
            false
        },
    }
}

/// How far the agent has been told of the document's logs.
#[derive(Debug, Clone, Copy, PartialEq, Eq)]
pub struct Forwarder {
    pub announcements: usize,
    pub responses: usize,
}

impl Forwarder {
    /// Nothing has been told.
    pub fn new() -> (forwarder: Self)
        ensures
            forwarder.announcements == 0,
            forwarder.responses == 0,
    {
        Forwarder { announcements: 0, responses: 0 }
    }

    /// Takes note of a changed document. Returns what the agent has not been told of it, in
    /// order, announcements first; `None` where the document asks for the end.
    pub fn forward(&mut self, doc: &AgentDoc) -> (notices: Option<Vec<HarnessToPiMsg>>)
        ensures
            notices.deep_view() == notices_due(
                doc@,
                old(self).announcements as nat,
                old(self).responses as nat,
            ),
            notices is None <==> doc.should_exit,
            notices is None ==> *final(self) == *old(self),
            notices matches Some(notices) ==> {
                &&& notices.deep_view() == announcement_notices(
                    unseen(doc@.announcements, old(self).announcements as nat),
                ) + response_notices(
                    unseen(doc@.entity_responses, old(self).responses as nat),
                )
                &&& final(self).announcements == seen_after(
                    doc@.announcements,
                    old(self).announcements as nat,
                )
                &&& final(self).responses == seen_after(
                    doc@.entity_responses,
                    old(self).responses as nat,
                )
            },
    {
        if doc.should_exit {
            return None;
        }
        let ghost log = doc@.announcements;
        let ghost start = self.announcements as int;
        let mut notices: Vec<HarnessToPiMsg> = Vec::new();
        proof {
            assert(notices.deep_view() =~= announcement_notices(Seq::empty()));
        }
        if doc.announcements.len() > self.announcements {
            let mut i: usize = self.announcements;
            proof {
                assert(log.subrange(start, start) =~= Seq::empty());
            }
            while i < doc.announcements.len()
                invariant
                    0 <= start <= i <= doc.announcements.len(),
                    log == doc@.announcements,
                    notices.deep_view() == announcement_notices(log.subrange(start, i as int)),
                decreases doc.announcements.len() - i,
            {
                let ghost sent = notices.deep_view();
                let entry = &doc.announcements[i];
                notices.push(announcement_msg(entry));
                proof {
                    assert(log[i as int] == entry.deep_view());
                    assert(log.subrange(start, i + 1) =~= log.subrange(start, i as int).push(
                        entry.deep_view(),
                    ));
                    assert(notices.deep_view() =~= sent.push(
                        NoticeModel::Announcement { announcement: entry.deep_view() },
                    ));
                    assert(notices.deep_view() =~= announcement_notices(log.subrange(start, i + 1)));
                }
                i = i + 1;
            }
            proof {
                assert(log.subrange(start, log.len() as int) =~= log.skip(start));
            }
            self.announcements = doc.announcements.len();
        }
        let ghost told = notices.deep_view();
        let ghost answers = doc@.entity_responses;
        let ghost from = self.responses as int;
        proof {
            assert(told =~= announcement_notices(unseen(log, start as nat)));
            assert(told =~= told + response_notices(Seq::<EntityResponseModel>::empty()));
        }
        if doc.entity_responses.len() > self.responses {
            let mut i: usize = self.responses;
            proof {
                assert(answers.subrange(from, from) =~= Seq::<EntityResponseModel>::empty());
            }
            while i < doc.entity_responses.len()
                invariant
                    0 <= from <= i <= doc.entity_responses.len(),
                    answers == doc@.entity_responses,
                    notices.deep_view() == told + response_notices(
                        answers.subrange(from, i as int),
                    ),
                decreases doc.entity_responses.len() - i,
            {
                let ghost sent = notices.deep_view();
                let entry = &doc.entity_responses[i];
                notices.push(response_msg(entry));
                proof {
                    assert(answers[i as int] == entry.deep_view());
                    assert(answers.subrange(from, i + 1) =~= answers.subrange(from, i as int).push(
                        entry.deep_view(),
                    ));
                    assert(notices.deep_view() =~= sent.push(
                        NoticeModel::EntityResponse { response: entry.deep_view() },
                    ));
                    assert(notices.deep_view() =~= told + response_notices(
                        answers.subrange(from, i + 1),
                    ));
                }
                i = i + 1;
            }
            proof {
                assert(answers.subrange(from, answers.len() as int) =~= answers.skip(from));
            }
            self.responses = doc.entity_responses.len();
        }
        Some(notices)
    }
}

/// The notice of an announcement.
fn announcement_msg(entry: &Announcement) -> (msg: HarnessToPiMsg)
    ensures
        msg.deep_view() == (NoticeModel::Announcement { announcement: entry.deep_view() }),
{
    HarnessToPiMsg::Announcement {
        kind: entry.kind.clone(),
        app_id: entry.app_id.clone(),
        intent_type: entry.intent_type.clone(),
        entity_id: entry.entity_id.clone(),
    }
}

/// The notice of a response.
fn response_msg(entry: &EntityResponse) -> (msg: HarnessToPiMsg)
    ensures
        msg.deep_view() == (NoticeModel::EntityResponse { response: entry.deep_view() }),
{
    HarnessToPiMsg::EntityResponse {
        op_id: entry.op_id.clone(),
        kind: entry.kind.clone(),
        app_id: entry.app_id.clone(),
        intent_type: entry.intent_type.clone(),
        entity_id: entry.entity_id.clone(),
        data: entry.data.clone(),
        is_error: entry.is_error,
        error: entry.error.clone(),
    }
}

} // verus!
