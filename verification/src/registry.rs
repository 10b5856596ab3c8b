//! What happens to the shared document: the intent registry, the answers to operations, and the
//! web views that come and go.

use vstd::prelude::*;

use crate::doc::AgentDoc;
use crate::doc::DocModel;
use crate::doc::IntentModel;
use crate::doc::IntentRegistration;
use crate::doc::IntentResponse;
use crate::doc::LaunchedWebView;
use crate::doc::OpModel;
use crate::doc::PendingIntentOp;
use crate::doc::RegisteredIntent;
use crate::doc::ResponseModel;
use crate::doc::WebViewModel;
use crate::doc::WebViewStatus;
use crate::list::position;
use crate::list::retain;
use crate::text::same_text;

verus! {

/// The intent `intent_id` of type `intent_type` in the app `app_id`.
pub open spec fn intent(
    app_id: Seq<char>,
    intent_type: Seq<char>,
    intent_id: Seq<char>,
) -> IntentModel {
    IntentModel { app_id, intent_type, intent_id }
}

/// Tells the intents of an app that have this id.
pub open spec fn intent_called(
    app_id: Seq<char>,
    intent_id: Seq<char>,
) -> spec_fn(IntentModel) -> bool {
    |entry: IntentModel| entry.app_id == app_id && entry.intent_id == intent_id
}

/// Tells the intents of an app that have this type.
pub open spec fn intent_of_type(
    app_id: Seq<char>,
    intent_type: Seq<char>,
) -> spec_fn(IntentModel) -> bool {
    |entry: IntentModel| entry.app_id == app_id && entry.intent_type == intent_type
}

/// Tells the intents of every app but one.
pub open spec fn intent_of_other_app(app_id: Seq<char>) -> spec_fn(IntentModel) -> bool {
    |entry: IntentModel| entry.app_id != app_id
}

/// Tells the web views of every app but one.
pub open spec fn view_of_other_app(app_id: Seq<char>) -> spec_fn(WebViewModel) -> bool {
    |view: WebViewModel| view.id != app_id
}

/// Tells every intent but `key`.
pub open spec fn other_than(key: IntentModel) -> spec_fn(IntentModel) -> bool {
    |entry: IntentModel| entry != key
}

/// The answer to `op` with the content `data`.
pub open spec fn answer(op: OpModel, data: Option<Seq<char>>) -> ResponseModel {
    ResponseModel {
        op_id: op.op_id,
        kind: op.kind,
        app_id: op.app_id,
        intent_id: op.intent_id,
        data,
        is_error: false,
        error: None,
    }
}

/// The answer that `op` failed for the reason `error`.
pub open spec fn failure(op: OpModel, error: Seq<char>) -> ResponseModel {
    ResponseModel {
        op_id: op.op_id,
        kind: op.kind,
        app_id: op.app_id,
        intent_id: op.intent_id,
        data: None,
        is_error: true,
        error: Some(error),
    }
}

impl DocModel {
    /// The type of the first intent called `intent_id` that the app has registered.
    pub open spec fn intent_type_of(
        self,
        app_id: Seq<char>,
        intent_id: Seq<char>,
    ) -> Option<Seq<char>> {
        match crate::list::first(
            self.intents,
            intent_called(app_id, intent_id),
        ) {
            Some(found) => Some(found.intent_type),
            None => None,
        }
    }

    /// Whether the app has registered an intent of this type.
    pub open spec fn app_supports(self, app_id: Seq<char>, intent_type: Seq<char>) -> bool {
        crate::list::some_item(self.intents, intent_of_type(app_id, intent_type))
    }

    /// The document with one more response.
    pub open spec fn responded(self, response: ResponseModel) -> DocModel {
        DocModel { intent_responses: self.intent_responses.push(response), ..self }
    }

    /// The document after `key` was registered: entered and announced, unless it was there.
    pub open spec fn registered(self, key: IntentModel) -> DocModel {
        if self.intents.contains(key) {
            self
        } else {
            DocModel {
                intents: self.intents.push(key),
                intent_registrations: self.intent_registrations.push(key),
                ..self
            }
        }
    }

    /// The document after `key` was unregistered: struck from the registry, and announced.
    pub open spec fn unregistered(self, key: IntentModel) -> DocModel {
        DocModel {
            intents: self.intents.filter(other_than(key)),
            intent_unregistrations: self.intent_unregistrations.push(key),
            ..self
        }
    }

    /// The document after the web view `id` came on screen.
    pub open spec fn view_launched(self, id: Seq<char>) -> DocModel {
        DocModel {
            webviews: self.webviews.map_values(
                |w: WebViewModel|
                    if w.id == id {
                        WebViewModel { status: WebViewStatus::Launched, ..w }
                    } else {
                        w
                    },
            ),
            ..self
        }
    }

    /// The document without the web views and the intents of the app.
    pub open spec fn without_app(self, app_id: Seq<char>) -> DocModel {
        DocModel {
            webviews: self.webviews.filter(view_of_other_app(app_id)),
            intents: self.intents.filter(intent_of_other_app(app_id)),
            ..self
        }
    }
}

/// The type of the intent called `intent_id` in the app's registry; `None` where the app has not
/// registered such an intent.
pub fn lookup_intent_type(doc: &AgentDoc, app_id: &str, intent_id: &str) -> (found: Option<String>)
    ensures
        found.deep_view() == doc@.intent_type_of(app_id@, intent_id@),
{
    let ghost model = intent_called(app_id@, intent_id@);
    let passes_model = |i: &RegisteredIntent| -> (passes: bool)
        ensures
            passes == model(i.deep_view()),
        { same_text(i.app_id.as_str(), app_id) && same_text(i.intent_id.as_str(), intent_id) };
    let found = position(&doc.intents, passes_model, Ghost(model));
    match found {
        Some(i) => Some(doc.intents[i].intent_type.clone()),
        None => None,
    }
}

/// Whether the app has registered an intent of this type.
pub fn app_has_intent_type(doc: &AgentDoc, app_id: &str, intent_type: &str) -> (has: bool)
    ensures
        has == doc@.app_supports(app_id@, intent_type@),
{
    let ghost model = intent_of_type(app_id@, intent_type@);
    let passes_model = |i: &RegisteredIntent| -> (passes: bool)
        ensures
            passes == model(i.deep_view()),
        {
            same_text(i.app_id.as_str(), app_id) && same_text(
                i.intent_type.as_str(),
                intent_type,
            )
        };
    let found = position(&doc.intents, passes_model, Ghost(model));
    found.is_some()
}

/// Answers `op`, with content where there is any.
pub fn write_response(doc: &mut AgentDoc, op: &PendingIntentOp, data: Option<String>)
    ensures
        final(doc)@ == old(doc)@.responded(answer(op.deep_view(), data.deep_view())),
{
    doc.intent_responses.push(
        IntentResponse {
            op_id: op.op_id.clone(),
            kind: op.kind.clone(),
            app_id: op.app_id.clone(),
            intent_id: op.intent_id.clone(),
            data,
            is_error: false,
            error: None,
        },
    );
}

/// Answers that `op` failed.
pub fn write_error(doc: &mut AgentDoc, op: &PendingIntentOp, error: &str)
    ensures
        final(doc)@ == old(doc)@.responded(failure(op.deep_view(), error@)),
{
    doc.intent_responses.push(
        IntentResponse {
            op_id: op.op_id.clone(),
            kind: op.kind.clone(),
            app_id: op.app_id.clone(),
            intent_id: op.intent_id.clone(),
            data: None,
            is_error: true,
            error: Some(error.to_owned()),
        },
    );
}

/// Registers an intent and announces it, but only the first time it appears in the app: a later
/// registration of the same intent leaves no duplicate entry and no context noise.
pub fn push_registration(doc: &mut AgentDoc, app_id: &str, intent_type: &str, intent_id: &str)
    ensures
        final(doc)@ == old(doc)@.registered(intent(app_id@, intent_type@, intent_id@)),
{
    let ghost key = intent(app_id@, intent_type@, intent_id@);
    let ghost model = |i: IntentModel| i == key;
    let passes_model = |i: &RegisteredIntent| -> (passes: bool)
        ensures
            passes == model(i.deep_view()),
        { is_intent(i, app_id, intent_type, intent_id) };
    let already = position(&doc.intents, passes_model, Ghost(model));
    if already.is_some() {
        return ;
    }
    doc.intents.push(
        RegisteredIntent {
            app_id: app_id.to_owned(),
            intent_type: intent_type.to_owned(),
            intent_id: intent_id.to_owned(),
        },
    );
    doc.intent_registrations.push(
        IntentRegistration {
            app_id: app_id.to_owned(),
            intent_type: intent_type.to_owned(),
            intent_id: intent_id.to_owned(),
        },
    );
}

/// Whether a registry entry is the intent with this app, type and id.
fn is_intent(entry: &RegisteredIntent, app_id: &str, intent_type: &str, intent_id: &str) -> (same:
    bool)
    ensures
        same == (entry.deep_view() == intent(app_id@, intent_type@, intent_id@)),
{
    same_text(entry.app_id.as_str(), app_id) && same_text(entry.intent_type.as_str(), intent_type)
        && same_text(entry.intent_id.as_str(), intent_id)
}

/// Strikes an intent from the registry and announces the removal.
pub fn push_unregistration(doc: &mut AgentDoc, app_id: &str, intent_type: &str, intent_id: &str)
    ensures
        final(doc)@ == old(doc)@.unregistered(intent(app_id@, intent_type@, intent_id@)),
{
    let ghost key = intent(app_id@, intent_type@, intent_id@);
    let ghost model = other_than(key);
    let passes_model = |i: &RegisteredIntent| -> (passes: bool)
        ensures
            passes == model(i.deep_view()),
        { !is_intent(i, app_id, intent_type, intent_id) };
    retain(&mut doc.intents, passes_model, Ghost(model));
    doc.intent_unregistrations.push(
        IntentRegistration {
            app_id: app_id.to_owned(),
            intent_type: intent_type.to_owned(),
            intent_id: intent_id.to_owned(),
        },
    );
}

/// Marks every web view called `id` as launched.
pub fn mark_launched(doc: &mut AgentDoc, id: &str)
    ensures
        final(doc)@ == old(doc)@.view_launched(id@),
{
    let ghost before = doc@;
    let ghost after = before.view_launched(id@).webviews;
    let mut i: usize = 0;
    while i < doc.webviews.len()
        invariant
            i <= doc.webviews.len(),
            before == old(doc)@,
            after == before.view_launched(id@).webviews,
            doc@ == (DocModel {
                webviews: after.take(i as int) + before.webviews.skip(i as int),
                ..before
            }),
            doc.webviews.len() == before.webviews.len(),
        decreases doc.webviews.len() - i,
    {
        proof {
            assert(doc@.webviews[i as int] == before.webviews[i as int]);
            assert(doc.webviews[i as int].deep_view() == before.webviews[i as int]);
        }
        let ghost entry = doc.webviews@;
        if same_text(doc.webviews[i].id.as_str(), id) {
            doc.webviews[i].status = WebViewStatus::Launched;
        }
        proof {
            assert(doc.webviews.deep_view() =~= after.take(i + 1) + before.webviews.skip(i + 1)) by {
                assert forall|j: int| 0 <= j < doc.webviews.len() implies doc.webviews.deep_view()[j]
                    == (after.take(i + 1) + before.webviews.skip(i + 1))[j] by {
                    assert(entry[j].deep_view() == (after.take(i as int) + before.webviews.skip(
                        i as int,
                    ))[j]);
                }
            }
        }
        i = i + 1;
    }
    proof {
        assert(after.take(i as int) + before.webviews.skip(i as int) =~= after);
    }
}

/// Takes the web views and the intents of an app out of the document.
pub fn remove_app(doc: &mut AgentDoc, app_id: &str)
    ensures
        final(doc)@ == old(doc)@.without_app(app_id@),
{
    let ghost other_view = view_of_other_app(app_id@);
    let passes_other_view = |w: &LaunchedWebView| -> (passes: bool)
        ensures
            passes == other_view(w.deep_view()),
        { !same_text(w.id.as_str(), app_id) };
    retain(&mut doc.webviews, passes_other_view, Ghost(other_view));
    let ghost other_intent = intent_of_other_app(app_id@);
    let passes_other_intent = |i: &RegisteredIntent| -> (passes: bool)
        ensures
            passes == other_intent(i.deep_view()),
        { !same_text(i.app_id.as_str(), app_id) };
    retain(&mut doc.intents, passes_other_intent, Ghost(other_intent));
}

} // verus!
