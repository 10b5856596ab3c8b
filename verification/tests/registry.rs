use a2web::registry::{
    app_has_intent_type, lookup_intent_type, mark_launched, push_registration, push_unregistration,
    remove_app, write_error, write_response,
};
use a2web::{
    AgentDoc, IntentRegistration, IntentResponse, LaunchedWebView, PendingIntentOp, RegisteredIntent,
    WebViewStatus,
};

fn op(kind: &str) -> PendingIntentOp {
    PendingIntentOp {
        op_id: "op-1".to_string(),
        kind: kind.to_string(),
        app_id: "notes-source".to_string(),
        intent_id: "note-1".to_string(),
        data: None,
        target_app: None,
    }
}

fn entry(app: &str, ty: &str, id: &str) -> RegisteredIntent {
    RegisteredIntent {
        app_id: app.to_string(),
        intent_type: ty.to_string(),
        intent_id: id.to_string(),
    }
}

fn notice(app: &str, ty: &str, id: &str) -> IntentRegistration {
    IntentRegistration {
        app_id: app.to_string(),
        intent_type: ty.to_string(),
        intent_id: id.to_string(),
    }
}

fn view(id: &str, status: WebViewStatus) -> LaunchedWebView {
    LaunchedWebView { id: id.to_string(), html: format!("<p>{}</p>", id), status }
}

#[test]
fn a_new_document_is_empty() {
    let doc = AgentDoc::default();
    assert!(doc.webviews.is_empty());
    assert!(doc.intents.is_empty());
    assert!(doc.intent_ops.is_empty());
    assert!(doc.intent_responses.is_empty());
    assert!(doc.intent_registrations.is_empty());
    assert!(doc.intent_unregistrations.is_empty());
    assert!(doc.entities.is_empty());
    assert!(doc.entity_ops.is_empty());
    assert!(doc.entity_responses.is_empty());
    assert!(doc.announcements.is_empty());
    assert!(!doc.should_exit);
    assert_eq!(doc.error_message, None);
}

#[test]
fn the_first_match_gives_the_type() {
    let mut doc = AgentDoc::default();
    doc.intents.push(entry("b", "tasks", "note-1"));
    doc.intents.push(entry("a", "first", "note-1"));
    doc.intents.push(entry("a", "second", "note-1"));
    assert_eq!(lookup_intent_type(&doc, "a", "note-1"), Some("first".to_string()));
    assert_eq!(lookup_intent_type(&doc, "a", "note-2"), None);
    assert_eq!(lookup_intent_type(&doc, "c", "note-1"), None);
    assert!(app_has_intent_type(&doc, "a", "second"));
    assert!(!app_has_intent_type(&doc, "a", "tasks"));
    assert!(!app_has_intent_type(&doc, "", "first"));
}

#[test]
fn responses_repeat_what_was_asked() {
    let mut doc = AgentDoc::default();
    write_response(&mut doc, &op("get"), Some("{}".to_string()));
    write_error(&mut doc, &op("set"), "app window not found");
    assert_eq!(
        doc.intent_responses,
        vec![
            IntentResponse {
                op_id: "op-1".to_string(),
                kind: "get".to_string(),
                app_id: "notes-source".to_string(),
                intent_id: "note-1".to_string(),
                data: Some("{}".to_string()),
                is_error: false,
                error: None,
            },
            IntentResponse {
                op_id: "op-1".to_string(),
                kind: "set".to_string(),
                app_id: "notes-source".to_string(),
                intent_id: "note-1".to_string(),
                data: None,
                is_error: true,
                error: Some("app window not found".to_string()),
            },
        ]
    );
}

#[test]
fn an_intent_is_announced_the_first_time_only() {
    let mut doc = AgentDoc::default();
    push_registration(&mut doc, "a", "notes", "1");
    push_registration(&mut doc, "a", "notes", "1");
    push_registration(&mut doc, "a", "notes", "2");
    push_registration(&mut doc, "b", "notes", "1");
    assert_eq!(
        doc.intents,
        vec![entry("a", "notes", "1"), entry("a", "notes", "2"), entry("b", "notes", "1")]
    );
    assert_eq!(
        doc.intent_registrations,
        vec![notice("a", "notes", "1"), notice("a", "notes", "2"), notice("b", "notes", "1")]
    );
}

#[test]
fn unregistering_undoes_registering() {
    let mut doc = AgentDoc::default();
    push_registration(&mut doc, "a", "notes", "1");
    push_registration(&mut doc, "a", "notes", "2");
    push_unregistration(&mut doc, "a", "notes", "2");
    assert_eq!(doc.intents, vec![entry("a", "notes", "1")]);
    assert_eq!(doc.intent_unregistrations, vec![notice("a", "notes", "2")]);
    assert_eq!(doc.intent_registrations.len(), 2);
}

#[test]
fn unregistering_what_is_not_there_is_announced_too() {
    let mut doc = AgentDoc::default();
    push_unregistration(&mut doc, "a", "notes", "9");
    assert!(doc.intents.is_empty());
    assert_eq!(doc.intent_unregistrations, vec![notice("a", "notes", "9")]);
}

#[test]
fn every_view_of_the_id_is_marked() {
    let mut doc = AgentDoc::default();
    doc.webviews.push(view("a", WebViewStatus::Pending));
    doc.webviews.push(view("b", WebViewStatus::Pending));
    doc.webviews.push(view("a", WebViewStatus::Closed));
    mark_launched(&mut doc, "a");
    assert_eq!(
        doc.webviews,
        vec![
            view("a", WebViewStatus::Launched),
            view("b", WebViewStatus::Pending),
            view("a", WebViewStatus::Launched),
        ]
    );
}

#[test]
fn removing_an_app_leaves_the_others() {
    let mut doc = AgentDoc::default();
    doc.webviews.push(view("a", WebViewStatus::Launched));
    doc.webviews.push(view("b", WebViewStatus::Launched));
    doc.intents.push(entry("a", "notes", "1"));
    doc.intents.push(entry("b", "notes", "1"));
    doc.intents.push(entry("a", "notes", "2"));
    remove_app(&mut doc, "a");
    assert_eq!(doc.webviews, vec![view("b", WebViewStatus::Launched)]);
    assert_eq!(doc.intents, vec![entry("b", "notes", "1")]);
}
