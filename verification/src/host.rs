//! The window host: which web views are on screen, which operations wait for an app, and what
//! becomes of each event.
//!
//! An app may have several windows; a script for it goes to the one that came on screen first.
//! Operations that fail together, when a window closes, fail in the order in which they became
//! pending.
//!
//! A [`Host`] and the shared document change together. Each method of [`Host`] takes one event;
//! `World` is the pair of both, and the spec functions over it say exactly what each event does.

use vstd::prelude::*;

use crate::doc::AgentDoc;
use crate::doc::DocModel;
use crate::doc::OpModel;
use crate::doc::PendingIntentOp;
use crate::doc::WebViewModel;
use crate::doc::WebViewStatus;
use crate::intent::is_valid_intent_id;
use crate::intent::is_valid_intent_type;
use crate::list::position;
use crate::list::retain;
use crate::message::read_message_text;
use crate::message::scheme_content_from_text;
use crate::message::AppMessage;
use crate::message::MessageModel;
use crate::registry::app_has_intent_type;
use crate::registry::lookup_intent_type;
use crate::registry::mark_launched;
use crate::registry::push_registration;
use crate::registry::push_unregistration;
use crate::registry::remove_app;
use crate::registry::write_error;
use crate::registry::write_response;
use crate::script::receive_script;
use crate::script::request_script;
use crate::script::target_error;
use crate::text::same_text;

verus! {

/// A window on screen, under the key that the windowing side knows it by.
#[derive(Debug, PartialEq)]
pub struct AppWindow {
    pub key: u64,
    pub app_id: String,
}

/// What an [`AppWindow`] holds.
#[verifier::ext_equal]
pub struct WindowModel {
    pub key: u64,
    pub app_id: Seq<char>,
}

impl DeepView for AppWindow {
    type V = WindowModel;

    open spec fn deep_view(&self) -> WindowModel {
        WindowModel { key: self.key, app_id: self.app_id@ }
    }
}

/// Something for the window host's event loop to do.
#[derive(Debug, PartialEq)]
pub enum HostEvent {
    /// A web view is wanted on screen.
    WebAppLaunch { id: String, html: String },
    /// A queued intent op needs to be dispatched into a web view.
    IntentOp { op: PendingIntentOp },
    /// Content arrived from the source app of a transfer: deliver it to the target app now.
    IntentContentReady { op_id: String, intent_type: String, intent_id: String, data: String },
}

/// What a [`HostEvent`] holds.
#[verifier::ext_equal]
pub enum EventModel {
    WebAppLaunch { id: Seq<char>, html: Seq<char> },
    IntentOp { op: OpModel },
    IntentContentReady {
        op_id: Seq<char>,
        intent_type: Seq<char>,
        intent_id: Seq<char>,
        data: Seq<char>,
    },
}

impl DeepView for HostEvent {
    type V = EventModel;

    open spec fn deep_view(&self) -> EventModel {
        match self {
            HostEvent::WebAppLaunch { id, html } => EventModel::WebAppLaunch { id: id@, html: html@ },
            HostEvent::IntentOp { op } => EventModel::IntentOp { op: op.deep_view() },
            HostEvent::IntentContentReady { op_id, intent_type, intent_id, data } =>
            EventModel::IntentContentReady {
                op_id: op_id@,
                intent_type: intent_type@,
                intent_id: intent_id@,
                data: data@,
            },
        }
    }
}

/// A script to run in a window.
#[derive(Debug, PartialEq)]
pub struct ScriptCall {
    pub window: u64,
    pub script: String,
}

/// What a [`ScriptCall`] holds.
#[verifier::ext_equal]
pub struct CallModel {
    pub window: u64,
    pub script: Seq<char>,
}

impl DeepView for ScriptCall {
    type V = CallModel;

    open spec fn deep_view(&self) -> CallModel {
        CallModel { window: self.window, script: self.script@ }
    }
}

/// The state of the window host.
#[derive(Debug, PartialEq)]
pub struct Host {
    /// Ids of the web views that are being launched, none twice.
    pub launching: Vec<String>,
    /// Operations taken from the queue that have not been answered, one for each operation id.
    pub pending: Vec<PendingIntentOp>,
    /// Windows on screen, one for each key.
    pub windows: Vec<AppWindow>,
}

/// What a [`Host`] holds.
#[verifier::ext_equal]
pub struct HostModel {
    pub launching: Seq<Seq<char>>,
    pub pending: Seq<OpModel>,
    pub windows: Seq<WindowModel>,
}

impl View for Host {
    type V = HostModel;

    open spec fn view(&self) -> HostModel {
        HostModel {
            launching: self.launching.deep_view(),
            pending: self.pending.deep_view(),
            windows: self.windows.deep_view(),
        }
    }
}

/// A window host and the document it works on.
#[verifier::ext_equal]
pub struct World {
    pub host: HostModel,
    pub doc: DocModel,
}

/// Tells the operation called `op_id`.
pub open spec fn op_called(op_id: Seq<char>) -> spec_fn(OpModel) -> bool {
    |op: OpModel| op.op_id == op_id
}

/// Tells every operation but the one called `op_id`.
pub open spec fn op_not_called(op_id: Seq<char>) -> spec_fn(OpModel) -> bool {
    |op: OpModel| op.op_id != op_id
}

/// Whether an operation reads from the app or delivers to it.
pub open spec fn op_involves(op: OpModel, app_id: Seq<char>) -> bool {
    op.app_id == app_id || op.target_app == Some(app_id)
}

/// Tells the operations that involve an app.
pub open spec fn ops_involving(app_id: Seq<char>) -> spec_fn(OpModel) -> bool {
    |op: OpModel| op_involves(op, app_id)
}

/// Tells the operations that do not involve an app.
pub open spec fn ops_not_involving(app_id: Seq<char>) -> spec_fn(OpModel) -> bool {
    |op: OpModel| !op_involves(op, app_id)
}

/// Tells the windows of an app.
pub open spec fn window_of_app(app_id: Seq<char>) -> spec_fn(WindowModel) -> bool {
    |window: WindowModel| window.app_id == app_id
}

/// Tells the window under a key.
pub open spec fn window_under(key: u64) -> spec_fn(WindowModel) -> bool {
    |window: WindowModel| window.key == key
}

/// Tells the windows under other keys.
pub open spec fn window_not_under(key: u64) -> spec_fn(WindowModel) -> bool {
    |window: WindowModel| window.key != key
}

/// Tells every text but one.
pub open spec fn text_other_than(text: Seq<char>) -> spec_fn(Seq<char>) -> bool {
    |other: Seq<char>| other != text
}

/// The pending operations once `op` is among them. It takes the place of one with its id.
pub open spec fn pending_with(pending: Seq<OpModel>, op: OpModel) -> Seq<OpModel> {
    pending.filter(op_not_called(op.op_id)).push(op)
}

/// The pending operations once each of `ops`, in order, is among them.
pub open spec fn pending_with_all(pending: Seq<OpModel>, ops: Seq<OpModel>) -> Seq<OpModel>
    decreases ops.len(),
{
    if ops.len() == 0 {
        pending
    } else {
        pending_with(pending_with_all(pending, ops.drop_last()), ops.last())
    }
}

/// Whether an operation with this id is pending.
pub open spec fn is_pending(pending: Seq<OpModel>, op_id: Seq<char>) -> bool {
    crate::list::some_item(pending, op_called(op_id))
}

/// Tells the operations whose id is pending.
pub open spec fn already_pending(pending: Seq<OpModel>) -> spec_fn(OpModel) -> bool {
    |op: OpModel| is_pending(pending, op.op_id)
}

/// Tells the operations whose id is not pending.
pub open spec fn not_yet_pending(pending: Seq<OpModel>) -> spec_fn(OpModel) -> bool {
    |op: OpModel| !is_pending(pending, op.op_id)
}

/// The web views to launch now: those that are wanted, are not being launched, and are not the
/// second of their id.
pub open spec fn views_due(
    webviews: Seq<WebViewModel>,
    launching: Seq<Seq<char>>,
) -> Seq<WebViewModel>
    decreases webviews.len(),
{
    if webviews.len() == 0 {
        Seq::empty()
    } else {
        let earlier = views_due(webviews.drop_last(), launching);
        let view = webviews.last();
        if view.status == WebViewStatus::Pending && !(launching + view_ids(earlier)).contains(
            view.id,
        ) {
            earlier.push(view)
        } else {
            earlier
        }
    }
}

/// The ids of web views.
pub open spec fn view_ids(webviews: Seq<WebViewModel>) -> Seq<Seq<char>> {
    webviews.map_values(|view: WebViewModel| view.id)
}

/// The events that ask for web views.
pub open spec fn launch_events(webviews: Seq<WebViewModel>) -> Seq<EventModel> {
    webviews.map_values(
        |view: WebViewModel| EventModel::WebAppLaunch { id: view.id, html: view.html },
    )
}

/// The events that dispatch operations.
pub open spec fn op_events(ops: Seq<OpModel>) -> Seq<EventModel> {
    ops.map_values(|op: OpModel| EventModel::IntentOp { op })
}

/// The target of a transfer; empty where the operation names none.
pub open spec fn target_of(op: OpModel) -> Seq<char> {
    match op.target_app {
        Some(target) => target,
        None => Seq::empty(),
    }
}

/// The content that a "set" operation delivers, as JSON text.
pub open spec fn content_to_set(op: OpModel) -> Option<Seq<char>> {
    match op.data {
        Some(data) => crate::message::content_from_text(op.intent_id, data),
        None => None,
    }
}

/// The document after each of `ops` failed because its app closed.
pub open spec fn closed_on(doc: DocModel, ops: Seq<OpModel>) -> DocModel {
    DocModel {
        intent_responses: doc.intent_responses + ops.map_values(
            |op: OpModel| crate::registry::failure(op, "app closed"@),
        ),
        ..doc
    }
}

impl HostModel {
    /// The pending operation called `op_id`.
    pub open spec fn pending_op(self, op_id: Seq<char>) -> Option<OpModel> {
        crate::list::first(self.pending, op_called(op_id))
    }

    /// The host once the operation called `op_id` is no longer pending.
    pub open spec fn settled(self, op_id: Seq<char>) -> HostModel {
        HostModel { pending: self.pending.filter(op_not_called(op_id)), ..self }
    }

    /// The first window of an app.
    pub open spec fn window(self, app_id: Seq<char>) -> Option<WindowModel> {
        crate::list::first(self.windows, window_of_app(app_id))
    }
}

/// A host with nothing on screen and nothing to do.
pub open spec fn new_host() -> HostModel {
    HostModel { launching: Seq::empty(), pending: Seq::empty(), windows: Seq::empty() }
}

impl World {
    /// `op` is answered with the content `data` and no longer pending.
    pub open spec fn resolve(self, op: OpModel, data: Option<Seq<char>>) -> World {
        World {
            host: self.host.settled(op.op_id),
            doc: self.doc.responded(crate::registry::answer(op, data)),
        }
    }

    /// `op` is answered as failed and no longer pending.
    pub open spec fn refuse(self, op: OpModel, error: Seq<char>) -> World {
        World {
            host: self.host.settled(op.op_id),
            doc: self.doc.responded(crate::registry::failure(op, error)),
        }
    }

    /// The operations in the queue that are not pending.
    pub open spec fn ops_due(self) -> Seq<OpModel> {
        self.doc.intent_ops.filter(not_yet_pending(self.host.pending))
    }

    /// After a look at the document: the web views due are being launched, and the operations due
    /// have moved from the queue to the pending ones.
    pub open spec fn scanned(self) -> World {
        World {
            host: HostModel {
                launching: self.host.launching + view_ids(
                    views_due(self.doc.webviews, self.host.launching),
                ),
                pending: pending_with_all(self.host.pending, self.ops_due()),
                ..self.host
            },
            doc: DocModel {
                intent_ops: self.doc.intent_ops.filter(already_pending(self.host.pending)),
                ..self.doc
            },
        }
    }

    /// What a look at the document gives the event loop to do.
    pub open spec fn scan_events(self) -> Seq<EventModel> {
        launch_events(views_due(self.doc.webviews, self.host.launching)) + op_events(self.ops_due())
    }

    /// After the web view `id` came on screen in the window `key`.
    pub open spec fn launched(self, key: u64, id: Seq<char>) -> World {
        World {
            host: HostModel {
                launching: self.host.launching.filter(text_other_than(id)),
                windows: self.host.windows.filter(window_not_under(key)).push(
                    WindowModel { key, app_id: id },
                ),
                ..self.host
            },
            doc: self.doc.view_launched(id),
        }
    }

    /// After `op` was dispatched, and the script that goes out. `content` is what a "set"
    /// delivers.
    pub open spec fn dispatched(self, op: OpModel, content: Option<Seq<char>>) -> (
        World,
        Option<CallModel>,
    ) {
        match self.doc.intent_type_of(op.app_id, op.intent_id) {
            None => (self.refuse(op, "no intent with this id is registered in the app"@), None),
            Some(intent_type) => if op.kind == "get"@ || op.kind == "transfer"@ {
                if op.kind == "transfer"@ && !self.doc.app_supports(target_of(op), intent_type) {
                    (
                        self.refuse(
                            op,
                            crate::script::target_error_text(target_of(op), intent_type),
                        ),
                        None,
                    )
                } else {
                    match self.host.window(op.app_id) {
                        Some(window) => (
                            self,
                            Some(
                                CallModel {
                                    window: window.key,
                                    script: crate::script::request_text(
                                        op.op_id,
                                        intent_type,
                                        op.intent_id,
                                    ),
                                },
                            ),
                        ),
                        None => (self.refuse(op, "app window not found"@), None),
                    }
                }
            } else if op.kind == "set"@ {
                match content {
                    Some(content) => match self.host.window(op.app_id) {
                        Some(window) => (
                            self.resolve(op, None),
                            Some(
                                CallModel {
                                    window: window.key,
                                    script: crate::script::receive_text(
                                        intent_type,
                                        op.intent_id,
                                        content,
                                        "agent"@,
                                    ),
                                },
                            ),
                        ),
                        None => (self.refuse(op, "app window not found"@), None),
                    },
                    None => (self.refuse(op, "invalid content for intent scheme"@), None),
                }
            } else {
                (self.refuse(op, "unknown intent op kind"@), None)
            },
        }
    }

    /// After an app's message, and the event that it calls for.
    pub open spec fn told(self, message: MessageModel) -> (World, Option<EventModel>) {
        match message {
            MessageModel::Register { app_id, intent_type, intent_id } => (
                if crate::intent::supported_type(intent_type) && crate::intent::acceptable_id(
                    intent_id,
                ) {
                    World {
                        doc: self.doc.registered(
                            crate::registry::intent(app_id, intent_type, intent_id),
                        ),
                        ..self
                    }
                } else {
                    self
                },
                None,
            ),
            MessageModel::Unregister { app_id, intent_type, intent_id } => (
                World {
                    doc: self.doc.unregistered(
                        crate::registry::intent(app_id, intent_type, intent_id),
                    ),
                    ..self
                },
                None,
            ),
            MessageModel::Content { op_id, intent_type, intent_id, content } => match self.host.pending_op(
                op_id,
            ) {
                Some(op) => if op.kind == "get"@ {
                    match content {
                        Some(data) => (self.resolve(op, Some(data)), None),
                        None => (self.refuse(op, "invalid content for intent scheme"@), None),
                    }
                } else if op.kind == "transfer"@ {
                    match content {
                        Some(data) => (
                            self,
                            Some(
                                EventModel::IntentContentReady {
                                    op_id,
                                    intent_type,
                                    intent_id,
                                    data,
                                },
                            ),
                        ),
                        None => (self.refuse(op, "invalid content for intent scheme"@), None),
                    }
                } else {
                    (self, None)
                },
                None => (self, None),
            },
            MessageModel::Ignored => (self, None),
        }
    }

    /// After the content of a transfer arrived, and the script that delivers it.
    pub open spec fn delivered(
        self,
        op_id: Seq<char>,
        intent_type: Seq<char>,
        intent_id: Seq<char>,
        data: Seq<char>,
    ) -> (World, Option<CallModel>) {
        match self.host.pending_op(op_id) {
            Some(op) => match self.host.window(target_of(op)) {
                Some(window) => (
                    World {
                        doc: self.doc.registered(
                            crate::registry::intent(target_of(op), intent_type, intent_id),
                        ),
                        ..self
                    }.resolve(op, None),
                    Some(
                        CallModel {
                            window: window.key,
                            script: crate::script::receive_text(
                                intent_type,
                                intent_id,
                                data,
                                "transfer"@,
                            ),
                        },
                    ),
                ),
                None => (self.refuse(op, "target app window not found"@), None),
            },
            None => (self, None),
        }
    }

    /// After the window `key` was closed: its app is gone from the document, and the pending
    /// operations that involve it have failed.
    pub open spec fn closed(self, key: u64) -> World {
        match crate::list::first(self.host.windows, window_under(key)) {
            Some(window) => World {
                host: HostModel {
                    windows: self.host.windows.filter(window_not_under(key)),
                    pending: self.host.pending.filter(ops_not_involving(window.app_id)),
                    ..self.host
                },
                doc: closed_on(
                    self.doc.without_app(window.app_id),
                    self.host.pending.filter(ops_involving(window.app_id)),
                ),
            },
            None => self,
        }
    }
}

/// The document's answer to `op` being refused, with `op` no longer pending.
fn refuse(host: &mut Host, doc: &mut AgentDoc, op: &PendingIntentOp, error: &str)
    ensures
        (World { host: final(host)@, doc: final(doc)@ }) == (World {
            host: old(host)@,
            doc: old(doc)@,
        }).refuse(op.deep_view(), error@),
{
    write_error(doc, op, error);
    host.settle(op.op_id.as_str());
}

impl Host {
    /// A host with nothing on screen and nothing to do.
    pub fn new() -> (host: Self)
        ensures
            host@ == (HostModel {
                launching: Seq::empty(),
                pending: Seq::empty(),
                windows: Seq::empty(),
            }),
            host@ == new_host(),
    {
        Host { launching: Vec::new(), pending: Vec::new(), windows: Vec::new() }
    }

    /// Whether the web view `id` is being launched.
    fn is_launching(&self, id: &str) -> (launching: bool)
        ensures
            launching == self@.launching.contains(id@),
    {
        let ghost model = |other: Seq<char>| other == id@;
        let is_id = |other: &String| -> (passes: bool)
            ensures
                passes == model(other.deep_view()),
            { same_text(other.as_str(), id) };
        let found = position(&self.launching, is_id, Ghost(model));
        found.is_some()
    }

    /// Where the operation called `op_id` stands among the pending ones.
    fn pending_index(&self, op_id: &str) -> (found: Option<usize>)
        ensures
            match found {
                Some(i) => i < self.pending.len() && self@.pending_op(op_id@) == Some(
                    self.pending[i as int].deep_view(),
                ),
                None => self@.pending_op(op_id@) is None,
            },
            found is Some <==> is_pending(self@.pending, op_id@),
    {
        let ghost model = op_called(op_id@);
        let is_op = |op: &PendingIntentOp| -> (passes: bool)
            ensures
                passes == model(op.deep_view()),
            { same_text(op.op_id.as_str(), op_id) };
        position(&self.pending, is_op, Ghost(model))
    }

    /// Takes the operation called `op_id` from the pending ones.
    fn settle(&mut self, op_id: &str)
        ensures
            final(self)@ == old(self)@.settled(op_id@),
    {
        let ghost model = op_not_called(op_id@);
        let is_other = |op: &PendingIntentOp| -> (passes: bool)
            ensures
                passes == model(op.deep_view()),
            { !same_text(op.op_id.as_str(), op_id) };
        retain(&mut self.pending, is_other, Ghost(model));
    }

    /// The key of the first window of an app.
    fn window_key(&self, app_id: &str) -> (key: Option<u64>)
        ensures
            match key {
                Some(key) => self@.window(app_id@) matches Some(window) && window.key == key,
                None => self@.window(app_id@) is None,
            },
    {
        let ghost model = window_of_app(app_id@);
        let is_window = |window: &AppWindow| -> (passes: bool)
            ensures
                passes == model(window.deep_view()),
            { same_text(window.app_id.as_str(), app_id) };
        match position(&self.windows, is_window, Ghost(model)) {
            Some(i) => Some(self.windows[i].key),
            None => None,
        }
    }

    /// Looks at the document: marks the web views due as being launched, moves the operations due
    /// from the queue to the pending ones, and returns what the event loop has to do.
    pub fn scan(&mut self, doc: &mut AgentDoc) -> (events: Vec<HostEvent>)
        ensures
            (World { host: final(self)@, doc: final(doc)@ }) == (World {
                host: old(self)@,
                doc: old(doc)@,
            }).scanned(),
            events.deep_view() == (World { host: old(self)@, doc: old(doc)@ }).scan_events(),
    {
        let ghost before = World { host: self@, doc: doc@ };
        let mut events = self.scan_views(doc);
        let ghost launches = events.deep_view();
        let fresh = self.take_due(doc);
        let mut i: usize = 0;
        proof {
            assert(fresh.deep_view().take(0) =~= Seq::<OpModel>::empty());
            assert(launches + op_events(Seq::<OpModel>::empty()) =~= launches);
        }
        while i < fresh.len()
            invariant
                i <= fresh.len(),
                self@ == (HostModel {
                    launching: before.scanned().host.launching,
                    pending: pending_with_all(
                        before.host.pending,
                        fresh.deep_view().take(i as int),
                    ),
                    windows: before.host.windows,
                }),
                events.deep_view() == launches + op_events(fresh.deep_view().take(i as int)),
            decreases fresh.len() - i,
        {
            let ghost so_far = fresh.deep_view().take(i as int);
            let ghost next = fresh.deep_view().take(i + 1);
            let op = fresh[i].clone();
            proof {
                assert(fresh.deep_view()[i as int] == fresh[i as int].deep_view());
                assert(next.drop_last() =~= so_far);
                assert(next.last() == op.deep_view());
                assert(op_events(next) =~= op_events(so_far).push(
                    EventModel::IntentOp { op: op.deep_view() },
                ));
            }
            self.settle(op.op_id.as_str());
            self.pending.push(op.clone());
            let ghost emitted = events.deep_view();
            let ghost event = EventModel::IntentOp { op: op.deep_view() };
            events.push(HostEvent::IntentOp { op });
            proof {
                assert(events.deep_view() =~= emitted.push(event));
                assert(events.deep_view() =~= launches + op_events(next));
            }
            i = i + 1;
        }
        proof {
            assert(fresh.deep_view().take(i as int) =~= fresh.deep_view());
        }
        events
    }

    /// Marks the web views due as being launched.
    fn scan_views(&mut self, doc: &AgentDoc) -> (events: Vec<HostEvent>)
        ensures
            final(self)@ == (HostModel {
                launching: old(self)@.launching + view_ids(
                    views_due(doc@.webviews, old(self)@.launching),
                ),
                ..old(self)@
            }),
            events.deep_view() == launch_events(views_due(doc@.webviews, old(self)@.launching)),
    {
        let ghost before = self@;
        let ghost views = doc@.webviews;
        let mut events: Vec<HostEvent> = Vec::new();
        let mut i: usize = 0;
        proof {
            assert(views.take(0) =~= Seq::<WebViewModel>::empty());
            assert(view_ids(Seq::<WebViewModel>::empty()) =~= Seq::empty());
            assert(before.launching + Seq::<Seq<char>>::empty() =~= before.launching);
            assert(events.deep_view() =~= launch_events(Seq::<WebViewModel>::empty()));
        }
        while i < doc.webviews.len()
            invariant
                i <= doc.webviews.len(),
                views == doc@.webviews,
                self@ == (HostModel {
                    launching: before.launching + view_ids(
                        views_due(views.take(i as int), before.launching),
                    ),
                    ..before
                }),
                events.deep_view() == launch_events(
                    views_due(views.take(i as int), before.launching),
                ),
            decreases doc.webviews.len() - i,
        {
            let view = &doc.webviews[i];
            let ghost due = views_due(views.take(i as int), before.launching);
            proof {
                assert(views.take(i + 1).drop_last() =~= views.take(i as int));
                assert(views[i as int] == view.deep_view());
                assert(views.take(i + 1).last() == view.deep_view());
            }
            let wanted = match view.status {
                WebViewStatus::Pending => true,
                _ => false,
            };
            if wanted && !self.is_launching(view.id.as_str()) {
                self.launching.push(view.id.clone());
                events.push(
                    HostEvent::WebAppLaunch { id: view.id.clone(), html: view.html.clone() },
                );
                proof {
                    let more = due.push(view.deep_view());
                    assert(view_ids(more) =~= view_ids(due).push(view.id@));
                    assert(before.launching + view_ids(more) =~= (before.launching + view_ids(
                        due,
                    )).push(view.id@));
                    assert(launch_events(more) =~= launch_events(due).push(
                        EventModel::WebAppLaunch { id: view.id@, html: view.html@ },
                    ));
                }
            }
            i = i + 1;
        }
        proof {
            assert(views.take(i as int) =~= views);
        }
        events
    }

    /// Takes the operations that are not pending out of the queue.
    fn take_due(&self, doc: &mut AgentDoc) -> (due: Vec<PendingIntentOp>)
        ensures
            due.deep_view() == (World { host: self@, doc: old(doc)@ }).ops_due(),
            final(doc)@ == (DocModel {
                intent_ops: old(doc)@.intent_ops.filter(already_pending(self@.pending)),
                ..old(doc)@
            }),
    {
        let ghost queue = doc@.intent_ops;
        let ghost stay = already_pending(self@.pending);
        let ghost go = not_yet_pending(self@.pending);
        let mut kept: Vec<PendingIntentOp> = Vec::new();
        let mut due: Vec<PendingIntentOp> = Vec::new();
        let mut i: usize = 0;
        proof {
            assert(queue.take(0) =~= Seq::<OpModel>::empty());
            reveal_with_fuel(Seq::filter, 1);
            assert(kept.deep_view() =~= queue.take(0).filter(stay));
            assert(due.deep_view() =~= queue.take(0).filter(go));
        }
        while i < doc.intent_ops.len()
            invariant
                i <= doc.intent_ops.len(),
                doc@ == old(doc)@,
                queue == doc@.intent_ops,
                stay == already_pending(self@.pending),
                go == not_yet_pending(self@.pending),
                kept.deep_view() == queue.take(i as int).filter(stay),
                due.deep_view() == queue.take(i as int).filter(go),
            decreases doc.intent_ops.len() - i,
        {
            let op = doc.intent_ops[i].clone();
            proof {
                assert(queue[i as int] == doc.intent_ops[i as int].deep_view());
                assert(queue.take(i + 1) =~= queue.take(i as int).push(op.deep_view()));
                queue.take(i as int).lemma_filter_push(op.deep_view(), stay);
                queue.take(i as int).lemma_filter_push(op.deep_view(), go);
            }
            if self.pending_index(op.op_id.as_str()).is_some() {
                kept.push(op);
            } else {
                due.push(op);
            }
            i = i + 1;
        }
        proof {
            assert(queue.take(i as int) =~= queue);
        }
        doc.intent_ops = kept;
        due
    }

    /// The web view `id` came on screen, in the window `key`.
    pub fn view_launched(&mut self, doc: &mut AgentDoc, key: u64, id: &str)
        ensures
            (World { host: final(self)@, doc: final(doc)@ }) == (World {
                host: old(self)@,
                doc: old(doc)@,
            }).launched(key, id@),
    {
        mark_launched(doc, id);
        let ghost other_text = text_other_than(id@);
        let is_other = |other: &String| -> (passes: bool)
            ensures
                passes == other_text(other.deep_view()),
            { !same_text(other.as_str(), id) };
        retain(&mut self.launching, is_other, Ghost(other_text));
        self.drop_window(key);
        self.windows.push(AppWindow { key, app_id: id.to_owned() });
    }

    /// Forgets the window `key`.
    fn drop_window(&mut self, key: u64)
        ensures
            final(self)@ == (HostModel {
                windows: old(self)@.windows.filter(window_not_under(key)),
                ..old(self)@
            }),
    {
        let ghost other_window = window_not_under(key);
        let is_other = |window: &AppWindow| -> (passes: bool)
            ensures
                passes == other_window(window.deep_view()),
            { window.key != key };
        retain(&mut self.windows, is_other, Ghost(other_window));
    }

    /// Dispatches an operation; returns the script that goes out, if any.
    pub fn dispatch_op(&mut self, doc: &mut AgentDoc, op: &PendingIntentOp) -> (call: Option<
        ScriptCall,
    >)
        ensures
            (World { host: final(self)@, doc: final(doc)@ }, call.deep_view()) == (World {
                host: old(self)@,
                doc: old(doc)@,
            }).dispatched(op.deep_view(), content_to_set(op.deep_view())),
    {
        let content = match &op.data {
            Some(data) => scheme_content_from_text(op.intent_id.as_str(), data.as_str()),
            None => None,
        };
        self.dispatch_op_with(doc, op, content)
    }

    /// Dispatches an operation, given the JSON text that a "set" delivers: `None` where the
    /// operation has no content that satisfies the scheme.
    pub fn dispatch_op_with(
        &mut self,
        doc: &mut AgentDoc,
        op: &PendingIntentOp,
        content: Option<String>,
    ) -> (call: Option<ScriptCall>)
        ensures
            (World { host: final(self)@, doc: final(doc)@ }, call.deep_view()) == (World {
                host: old(self)@,
                doc: old(doc)@,
            }).dispatched(op.deep_view(), content.deep_view()),
    {
        let intent_type = match lookup_intent_type(doc, op.app_id.as_str(), op.intent_id.as_str()) {
            Some(intent_type) => intent_type,
            None => {
                refuse(self, doc, op, "no intent with this id is registered in the app");
                return None;
            },
        };
        let kind = op.kind.as_str();
        if same_text(kind, "get") || same_text(kind, "transfer") {
            if same_text(kind, "transfer") {
                let target = target_app(op);
                if !app_has_intent_type(doc, target.as_str(), intent_type.as_str()) {
                    let error = target_error(target.as_str(), intent_type.as_str());
                    refuse(self, doc, op, error.as_str());
                    return None;
                }
            }
            match self.window_key(op.app_id.as_str()) {
                Some(window) => Some(
                    ScriptCall {
                        window,
                        script: request_script(
                            op.op_id.as_str(),
                            intent_type.as_str(),
                            op.intent_id.as_str(),
                        ),
                    },
                ),
                None => {
                    refuse(self, doc, op, "app window not found");
                    None
                },
            }
        } else if same_text(kind, "set") {
            match content {
                Some(content) => match self.window_key(op.app_id.as_str()) {
                    Some(window) => {
                        let script = receive_script(
                            intent_type.as_str(),
                            op.intent_id.as_str(),
                            content.as_str(),
                            "agent",
                        );
                        write_response(doc, op, None);
                        self.settle(op.op_id.as_str());
                        Some(ScriptCall { window, script })
                    },
                    None => {
                        refuse(self, doc, op, "app window not found");
                        None
                    },
                },
                None => {
                    refuse(self, doc, op, "invalid content for intent scheme");
                    None
                },
            }
        } else {
            refuse(self, doc, op, "unknown intent op kind");
            None
        }
    }

    /// Takes the text that a web app posted; returns the event that it calls for, if any.
    pub fn receive_text(&mut self, doc: &mut AgentDoc, body: &str) -> (event: Option<HostEvent>)
        ensures
            (World { host: final(self)@, doc: final(doc)@ }, event.deep_view()) == (World {
                host: old(self)@,
                doc: old(doc)@,
            }).told(crate::message::message_of_text(body@)),
    {
        let message = read_message_text(body);
        self.receive(doc, message)
    }

    /// Takes a web app's message; returns the event that it calls for, if any.
    pub fn receive(&mut self, doc: &mut AgentDoc, message: AppMessage) -> (event: Option<HostEvent>)
        ensures
            (World { host: final(self)@, doc: final(doc)@ }, event.deep_view()) == (World {
                host: old(self)@,
                doc: old(doc)@,
            }).told(message.deep_view()),
    {
        match message {
            AppMessage::Register { app_id, intent_type, intent_id } => {
                if is_valid_intent_type(intent_type.as_str()) && is_valid_intent_id(
                    intent_id.as_str(),
                ) {
                    push_registration(doc, app_id.as_str(), intent_type.as_str(), intent_id.as_str());
                }
                None
            },
            AppMessage::Unregister { app_id, intent_type, intent_id } => {
                push_unregistration(doc, app_id.as_str(), intent_type.as_str(), intent_id.as_str());
                None
            },
            AppMessage::Content { op_id, intent_type, intent_id, content } => {
                let op = match self.pending_index(op_id.as_str()) {
                    Some(i) => self.pending[i].clone(),
                    None => return None,
                };
                if same_text(op.kind.as_str(), "get") {
                    match content {
                        Some(data) => {
                            write_response(doc, &op, Some(data));
                            self.settle(op.op_id.as_str());
                        },
                        None => refuse(self, doc, &op, "invalid content for intent scheme"),
                    }
                    None
                } else if same_text(op.kind.as_str(), "transfer") {
                    match content {
                        Some(data) => Some(
                            HostEvent::IntentContentReady { op_id, intent_type, intent_id, data },
                        ),
                        None => {
                            refuse(self, doc, &op, "invalid content for intent scheme");
                            None
                        },
                    }
                } else {
                    None
                }
            },
            AppMessage::Ignored => None,
        }
    }

    /// The content of a transfer arrived from its source app: clones it into the target app,
    /// registers the clone, and answers the operation. Returns the script that goes out, if any.
    pub fn deliver_content(
        &mut self,
        doc: &mut AgentDoc,
        op_id: &str,
        intent_type: &str,
        intent_id: &str,
        data: &str,
    ) -> (call: Option<ScriptCall>)
        ensures
            (World { host: final(self)@, doc: final(doc)@ }, call.deep_view()) == (World {
                host: old(self)@,
                doc: old(doc)@,
            }).delivered(op_id@, intent_type@, intent_id@, data@),
    {
        let op = match self.pending_index(op_id) {
            Some(i) => self.pending[i].clone(),
            None => return None,
        };
        let target = target_app(&op);
        match self.window_key(target.as_str()) {
            Some(window) => {
                let script = receive_script(intent_type, intent_id, data, "transfer");
                push_registration(doc, target.as_str(), intent_type, intent_id);
                write_response(doc, &op, None);
                self.settle(op.op_id.as_str());
                Some(ScriptCall { window, script })
            },
            None => {
                refuse(self, doc, &op, "target app window not found");
                None
            },
        }
    }

    /// The window `key` was closed: takes its app out of the document, and fails the pending
    /// operations that involve it so that the agent is not left hanging.
    pub fn close_window(&mut self, doc: &mut AgentDoc, key: u64)
        ensures
            (World { host: final(self)@, doc: final(doc)@ }) == (World {
                host: old(self)@,
                doc: old(doc)@,
            }).closed(key),
    {
        let ghost model = window_under(key);
        let is_window = |window: &AppWindow| -> (passes: bool)
            ensures
                passes == model(window.deep_view()),
            { window.key == key };
        let app_id = match position(&self.windows, is_window, Ghost(model)) {
            Some(i) => self.windows[i].app_id.clone(),
            None => return ,
        };
        self.drop_window(key);
        remove_app(doc, app_id.as_str());
        self.fail_ops_of(doc, app_id.as_str());
    }

    /// Fails the pending operations that involve an app.
    fn fail_ops_of(&mut self, doc: &mut AgentDoc, app_id: &str)
        ensures
            final(self)@ == (HostModel {
                pending: old(self)@.pending.filter(ops_not_involving(app_id@)),
                ..old(self)@
            }),
            final(doc)@ == closed_on(
                old(doc)@,
                old(self)@.pending.filter(ops_involving(app_id@)),
            ),
    {
        let ghost pending = self@.pending;
        let ghost involved = ops_involving(app_id@);
        let mut i: usize = 0;
        proof {
            assert(pending.take(0) =~= Seq::<OpModel>::empty());
            reveal_with_fuel(Seq::filter, 1);
            assert(closed_on(doc@, pending.take(0).filter(involved)) =~= doc@);
        }
        while i < self.pending.len()
            invariant
                i <= self.pending.len(),
                self@ == old(self)@,
                pending == self@.pending,
                involved == ops_involving(app_id@),
                doc@ == closed_on(old(doc)@, pending.take(i as int).filter(involved)),
            decreases self.pending.len() - i,
        {
            let op = &self.pending[i];
            let ghost so_far = pending.take(i as int).filter(involved);
            proof {
                assert(pending[i as int] == op.deep_view());
                assert(pending.take(i + 1) =~= pending.take(i as int).push(op.deep_view()));
                pending.take(i as int).lemma_filter_push(op.deep_view(), involved);
            }
            if involves(op, app_id) {
                write_error(doc, op, "app closed");
                proof {
                    assert(doc@ =~= closed_on(old(doc)@, so_far.push(op.deep_view())));
                }
            }
            i = i + 1;
        }
        proof {
            assert(pending.take(i as int) =~= pending);
        }
        let ghost others = ops_not_involving(app_id@);
        let is_other = |op: &PendingIntentOp| -> (passes: bool)
            ensures
                passes == others(op.deep_view()),
            { !involves(op, app_id) };
        retain(&mut self.pending, is_other, Ghost(others));
    }
}

/// Whether an operation reads from the app or delivers to it.
fn involves(op: &PendingIntentOp, app_id: &str) -> (involved: bool)
    ensures
        involved == op_involves(op.deep_view(), app_id@),
{
    if same_text(op.app_id.as_str(), app_id) {
        return true;
    }
    match &op.target_app {
        Some(target) => same_text(target.as_str(), app_id),
        None => false,
    }
}

/// The target of a transfer; empty where the operation names none.
fn target_app(op: &PendingIntentOp) -> (target: String)
    ensures
        target@ == target_of(op.deep_view()),
{
    match &op.target_app {
        Some(target) => target.clone(),
        None => String::new(),
    }
}

} // verus!
