use a2web::host::{AppWindow, Host, HostEvent, ScriptCall};
use a2web::message::{read_message, read_message_text, scheme_content, scheme_content_from_text, AppMessage};
use a2web::script::{receive_script, request_script};
use a2web::{AgentDoc, IntentResponse, LaunchedWebView, PendingIntentOp, RegisteredIntent, WebViewStatus};

fn op(op_id: &str, kind: &str, app: &str) -> PendingIntentOp {
    PendingIntentOp {
        op_id: op_id.to_string(),
        kind: kind.to_string(),
        app_id: app.to_string(),
        intent_id: "note-1".to_string(),
        data: None,
        target_app: None,
    }
}

fn transfer(op_id: &str, from: &str, to: &str) -> PendingIntentOp {
    let mut op = op(op_id, "transfer", from);
    op.target_app = Some(to.to_string());
    op
}

fn set(op_id: &str, app: &str, data: &str) -> PendingIntentOp {
    let mut op = op(op_id, "set", app);
    op.data = Some(data.to_string());
    op
}

fn view(id: &str, status: WebViewStatus) -> LaunchedWebView {
    LaunchedWebView { id: id.to_string(), html: format!("<{}>", id), status }
}

fn entry(app: &str, ty: &str, id: &str) -> RegisteredIntent {
    RegisteredIntent {
        app_id: app.to_string(),
        intent_type: ty.to_string(),
        intent_id: id.to_string(),
    }
}

/// A host with the apps `source` and `target` on screen, and the note registered in `source`.
fn started() -> (Host, AgentDoc) {
    let mut host = Host::new();
    let mut doc = AgentDoc::default();
    doc.webviews.push(view("source", WebViewStatus::Pending));
    doc.webviews.push(view("target", WebViewStatus::Pending));
    let events = host.scan(&mut doc);
    assert_eq!(events.len(), 2);
    host.view_launched(&mut doc, 1, "source");
    host.view_launched(&mut doc, 2, "target");
    let body = r#"{"type":"intent","appId":"source","intent":{"type":"notes","id":"note-1"}}"#;
    assert_eq!(host.receive_text(&mut doc, body), None);
    (host, doc)
}

fn queue(host: &mut Host, doc: &mut AgentDoc, op: &PendingIntentOp) {
    doc.intent_ops.push(op.clone());
    assert_eq!(host.scan(doc), vec![HostEvent::IntentOp { op: op.clone() }]);
    assert!(doc.intent_ops.is_empty());
}

fn last_error(doc: &AgentDoc) -> Option<String> {
    let response = doc.intent_responses.last().unwrap();
    assert_eq!(response.is_error, response.error.is_some());
    response.error.clone()
}

const NOTE: &str = r#"{"title":"T","content":"C"}"#;
const NOTE_1: &str = r#"{"content":"C","id":"note-1","title":"T"}"#;

#[test]
fn wanted_views_are_launched_once() {
    let mut host = Host::new();
    let mut doc = AgentDoc::default();
    doc.webviews.push(view("a", WebViewStatus::Pending));
    doc.webviews.push(view("b", WebViewStatus::Launched));
    doc.webviews.push(view("a", WebViewStatus::Pending));
    doc.webviews.push(view("c", WebViewStatus::Pending));
    let events = host.scan(&mut doc);
    assert_eq!(
        events,
        vec![
            HostEvent::WebAppLaunch { id: "a".to_string(), html: "<a>".to_string() },
            HostEvent::WebAppLaunch { id: "c".to_string(), html: "<c>".to_string() },
        ]
    );
    assert_eq!(host.launching, vec!["a", "c"]);
    assert!(host.scan(&mut doc).is_empty());
    host.view_launched(&mut doc, 5, "a");
    assert_eq!(host.launching, vec!["c"]);
    assert_eq!(host.windows, vec![AppWindow { key: 5, app_id: "a".to_string() }]);
    assert_eq!(doc.webviews[0].status, WebViewStatus::Launched);
    assert_eq!(doc.webviews[2].status, WebViewStatus::Launched);
    assert!(host.scan(&mut doc).is_empty());
}

#[test]
fn a_window_key_stands_for_one_window() {
    let mut host = Host::new();
    let mut doc = AgentDoc::default();
    host.view_launched(&mut doc, 5, "a");
    host.view_launched(&mut doc, 5, "b");
    assert_eq!(host.windows, vec![AppWindow { key: 5, app_id: "b".to_string() }]);
}

#[test]
fn queued_operations_move_to_the_pending_ones() {
    let (mut host, mut doc) = started();
    doc.intent_ops.push(op("1", "get", "source"));
    doc.intent_ops.push(op("2", "get", "target"));
    assert_eq!(host.scan(&mut doc).len(), 2);
    assert!(doc.intent_ops.is_empty());
    assert_eq!(host.pending, vec![op("1", "get", "source"), op("2", "get", "target")]);
    doc.intent_ops.push(op("1", "get", "target"));
    doc.intent_ops.push(op("3", "get", "source"));
    let events = host.scan(&mut doc);
    assert_eq!(events, vec![HostEvent::IntentOp { op: op("3", "get", "source") }]);
    assert_eq!(doc.intent_ops, vec![op("1", "get", "target")]);
    assert!(host.scan(&mut doc).is_empty());
}

#[test]
fn a_repeated_id_in_the_queue_is_dispatched_twice_and_pending_once() {
    let (mut host, mut doc) = started();
    doc.intent_ops.push(op("1", "get", "source"));
    doc.intent_ops.push(op("1", "get", "target"));
    assert_eq!(host.scan(&mut doc).len(), 2);
    assert_eq!(host.pending, vec![op("1", "get", "target")]);
    assert!(doc.intent_ops.is_empty());
}

#[test]
fn a_get_is_answered_with_content() {
    let (mut host, mut doc) = started();
    let get = op("7", "get", "source");
    queue(&mut host, &mut doc, &get);
    assert_eq!(
        host.dispatch_op(&mut doc, &get),
        Some(ScriptCall { window: 1, script: request_script("7", "notes", "note-1") })
    );
    assert_eq!(host.pending.len(), 1);
    let body = format!(
        r#"{{"type":"intent-content","appId":"source","opId":"7","intent":{{"type":"notes","id":"note-1","data":{}}}}}"#,
        NOTE
    );
    assert_eq!(host.receive_text(&mut doc, &body), None);
    assert!(host.pending.is_empty());
    assert_eq!(
        doc.intent_responses,
        vec![IntentResponse {
            op_id: "7".to_string(),
            kind: "get".to_string(),
            app_id: "source".to_string(),
            intent_id: "note-1".to_string(),
            data: Some(NOTE_1.to_string()),
            is_error: false,
            error: None,
        }]
    );
    assert_eq!(host.receive_text(&mut doc, &body), None);
    assert_eq!(doc.intent_responses.len(), 1);
}

#[test]
fn bad_content_fails_a_get_and_a_transfer() {
    let (mut host, mut doc) = started();
    doc.intents.push(entry("target", "notes", "other"));
    for pending in [op("8", "get", "source"), transfer("9", "source", "target")] {
        queue(&mut host, &mut doc, &pending);
        assert!(host.dispatch_op(&mut doc, &pending).is_some());
        let body = format!(
            r#"{{"type":"intent-content","opId":"{}","intent":{{"id":"note-1","data":{{}}}}}}"#,
            pending.op_id
        );
        assert_eq!(host.receive_text(&mut doc, &body), None);
        assert_eq!(last_error(&doc).unwrap(), "invalid content for intent scheme");
        assert!(host.pending.is_empty());
    }
}

#[test]
fn a_transfer_registers_the_clone_and_carries_no_content() {
    let (mut host, mut doc) = started();
    doc.intents.push(entry("target", "notes", "other"));
    let op = transfer("9", "source", "target");
    queue(&mut host, &mut doc, &op);
    assert!(host.dispatch_op(&mut doc, &op).is_some());
    let content = AppMessage::Content {
        op_id: "9".to_string(),
        intent_type: "notes".to_string(),
        intent_id: "note-1".to_string(),
        content: Some(NOTE_1.to_string()),
    };
    let event = host.receive(&mut doc, content);
    assert_eq!(
        event,
        Some(HostEvent::IntentContentReady {
            op_id: "9".to_string(),
            intent_type: "notes".to_string(),
            intent_id: "note-1".to_string(),
            data: NOTE_1.to_string(),
        })
    );
    assert!(doc.intent_responses.is_empty());
    assert_eq!(host.pending.len(), 1);
    let call = host.deliver_content(&mut doc, "9", "notes", "note-1", NOTE_1);
    assert_eq!(
        call,
        Some(ScriptCall {
            window: 2,
            script: receive_script("notes", "note-1", NOTE_1, "transfer"),
        })
    );
    assert!(doc.intents.contains(&entry("target", "notes", "note-1")));
    assert!(doc.intents.contains(&entry("source", "notes", "note-1")));
    assert_eq!(doc.intent_responses.len(), 1);
    assert_eq!(doc.intent_responses[0].data, None);
    assert!(!doc.intent_responses[0].is_error);
    assert!(host.pending.is_empty());
    assert_eq!(host.deliver_content(&mut doc, "9", "notes", "note-1", NOTE_1), None);
    assert_eq!(doc.intent_responses.len(), 1);
}

#[test]
fn a_transfer_needs_the_type_in_the_target() {
    let (mut host, mut doc) = started();
    let to_target = transfer("9", "source", "target");
    queue(&mut host, &mut doc, &to_target);
    assert_eq!(host.dispatch_op(&mut doc, &to_target), None);
    assert_eq!(last_error(&doc).unwrap(), "target app 'target' has no intent of type 'notes'");
    assert!(host.pending.is_empty());
    let nowhere = op("10", "transfer", "source");
    assert_eq!(host.dispatch_op(&mut doc, &nowhere), None);
    assert_eq!(last_error(&doc).unwrap(), "target app '' has no intent of type 'notes'");
}

#[test]
fn a_transfer_needs_the_target_window() {
    let (mut host, mut doc) = started();
    doc.intents.push(entry("elsewhere", "notes", "other"));
    let op = transfer("9", "source", "elsewhere");
    queue(&mut host, &mut doc, &op);
    assert!(host.dispatch_op(&mut doc, &op).is_some());
    assert_eq!(host.deliver_content(&mut doc, "9", "notes", "note-1", NOTE_1), None);
    assert_eq!(last_error(&doc).unwrap(), "target app window not found");
    assert!(host.pending.is_empty());
}

#[test]
fn a_set_delivers_normalized_content() {
    let (mut host, mut doc) = started();
    let op = set("3", "source", NOTE);
    queue(&mut host, &mut doc, &op);
    assert_eq!(
        host.dispatch_op(&mut doc, &op),
        Some(ScriptCall {
            window: 1,
            script: receive_script("notes", "note-1", NOTE_1, "agent"),
        })
    );
    assert!(host.pending.is_empty());
    assert_eq!(doc.intent_responses.len(), 1);
    assert_eq!(doc.intent_responses[0].data, None);
    assert_eq!(last_error(&doc), None);
}

#[test]
fn a_set_with_bad_content_fails() {
    let (mut host, mut doc) = started();
    for data in ["", "{", "[]", r#"{"title":"","content":""}"#] {
        assert_eq!(host.dispatch_op(&mut doc, &set("3", "source", data)), None);
        assert_eq!(last_error(&doc).unwrap(), "invalid content for intent scheme");
    }
    assert_eq!(host.dispatch_op(&mut doc, &op("3", "set", "source")), None);
    assert_eq!(last_error(&doc).unwrap(), "invalid content for intent scheme");
}

#[test]
fn an_operation_needs_a_registered_intent_and_a_window() {
    let (mut host, mut doc) = started();
    assert_eq!(host.dispatch_op(&mut doc, &op("1", "get", "target")), None);
    assert_eq!(
        last_error(&doc).unwrap(),
        "no intent with this id is registered in the app"
    );
    doc.intents.push(entry("hidden", "notes", "note-1"));
    assert_eq!(host.dispatch_op(&mut doc, &op("2", "get", "hidden")), None);
    assert_eq!(last_error(&doc).unwrap(), "app window not found");
    assert_eq!(host.dispatch_op(&mut doc, &set("3", "hidden", NOTE)), None);
    assert_eq!(last_error(&doc).unwrap(), "app window not found");
    assert_eq!(host.dispatch_op(&mut doc, &op("4", "list", "source")), None);
    assert_eq!(last_error(&doc).unwrap(), "unknown intent op kind");
}

#[test]
fn content_given_by_hand_goes_out_as_it_is() {
    let (mut host, mut doc) = started();
    let call = host.dispatch_op_with(&mut doc, &op("3", "set", "source"), Some("{}".to_string()));
    assert_eq!(call.unwrap().script, receive_script("notes", "note-1", "{}", "agent"));
    assert_eq!(host.dispatch_op_with(&mut doc, &set("3", "source", NOTE), None), None);
}

#[test]
fn closing_a_window_fails_what_involves_its_app() {
    let (mut host, mut doc) = started();
    doc.intents.push(entry("target", "notes", "note-1"));
    let ops = [
        op("1", "get", "source"),
        op("2", "get", "target"),
        transfer("3", "target", "source"),
        transfer("4", "source", "target"),
    ];
    for op in &ops {
        queue(&mut host, &mut doc, op);
    }
    host.close_window(&mut doc, 1);
    assert_eq!(host.windows, vec![AppWindow { key: 2, app_id: "target".to_string() }]);
    assert_eq!(host.pending, vec![op("2", "get", "target")]);
    assert_eq!(doc.webviews, vec![view("target", WebViewStatus::Launched)]);
    assert_eq!(doc.intents, vec![entry("target", "notes", "note-1")]);
    let failed: Vec<String> = doc.intent_responses.iter().map(|r| r.op_id.clone()).collect();
    assert_eq!(failed, vec!["1", "3", "4"]);
    assert_eq!(last_error(&doc).unwrap(), "app closed");
    host.close_window(&mut doc, 1);
    assert_eq!(doc.intent_responses.len(), 3);
}

#[test]
fn only_valid_intents_are_registered() {
    let (mut host, mut doc) = started();
    for body in [
        r#"{"type":"intent","appId":"a","intent":{"type":"tasks","id":"x"}}"#,
        r#"{"type":"intent","appId":"a","intent":{"type":"notes","id":""}}"#,
        r#"{"type":"intent","appId":"a","intent":{"type":"notes"}}"#,
        r#"{"type":"intent","appId":"a","intent":null}"#,
        r#"{"type":"intent","appId":"a"}"#,
        r#"{"appId":"a","intent":{"type":"notes","id":"x"}}"#,
        "no json",
    ] {
        assert_eq!(host.receive_text(&mut doc, body), None);
    }
    assert_eq!(doc.intents, vec![entry("source", "notes", "note-1")]);
    assert_eq!(doc.intent_registrations.len(), 1);
    let body = r#"{"type":"intent","intent":{"type":"notes","id":"x"}}"#;
    assert_eq!(host.receive_text(&mut doc, body), None);
    assert_eq!(doc.intents[1], entry("webapp", "notes", "x"));
}

#[test]
fn unregistering_is_not_checked() {
    let (mut host, mut doc) = started();
    let body = r#"{"type":"intent-unregister","appId":"source","intent":{"type":"notes","id":"note-1"}}"#;
    assert_eq!(host.receive_text(&mut doc, body), None);
    assert!(doc.intents.is_empty());
    let body = r#"{"type":"intent-unregister","appId":"source","intent":{}}"#;
    assert_eq!(host.receive_text(&mut doc, body), None);
    assert_eq!(doc.intent_unregistrations.len(), 2);
    assert_eq!(doc.intent_unregistrations[1].intent_type, "");
}

#[test]
fn messages_are_read() {
    assert_eq!(read_message_text("{"), AppMessage::Ignored);
    assert_eq!(read_message(&serde_json::Value::Null), AppMessage::Ignored);
    assert_eq!(
        read_message_text(r#"{"type":"intent-content","opId":"","intent":{}}"#),
        AppMessage::Ignored
    );
    assert_eq!(
        read_message_text(r#"{"type":"intent-content","opId":"1"}"#),
        AppMessage::Content {
            op_id: "1".to_string(),
            intent_type: String::new(),
            intent_id: String::new(),
            content: None,
        }
    );
    assert_eq!(
        read_message_text(
            r#"{"type":"intent-content","opId":"1","intent":{"type":"t","id":"i","data":{"title":"a","content":"b","n":1}}}"#
        ),
        AppMessage::Content {
            op_id: "1".to_string(),
            intent_type: "t".to_string(),
            intent_id: "i".to_string(),
            content: Some(r#"{"content":"b","id":"i","n":1,"title":"a"}"#.to_string()),
        }
    );
    assert_eq!(
        read_message_text(r#"{"type":"intent-unregister","intent":{"id":"i"}}"#),
        AppMessage::Unregister {
            app_id: "webapp".to_string(),
            intent_type: String::new(),
            intent_id: "i".to_string(),
        }
    );
}

#[test]
fn content_is_normalized_from_text() {
    assert_eq!(scheme_content_from_text("note-1", NOTE), Some(NOTE_1.to_string()));
    assert_eq!(scheme_content_from_text("note-1", "x"), None);
    assert_eq!(scheme_content("note-1", &serde_json::Value::Bool(true)), None);
}

#[test]
fn content_for_other_operations_is_ignored() {
    let (mut host, mut doc) = started();
    let op = set("3", "source", NOTE);
    queue(&mut host, &mut doc, &op);
    let body = r#"{"type":"intent-content","opId":"3","intent":{"id":"note-1","data":{}}}"#;
    assert_eq!(host.receive_text(&mut doc, body), None);
    assert_eq!(host.pending.len(), 1);
    assert!(doc.intent_responses.is_empty());
}
