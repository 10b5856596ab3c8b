use a2web::bridge::{apply_request, PiToHarnessMsg};
use a2web::host::Host;
use a2web::message::AppMessage;
use a2web::{AgentDoc, PendingIntentOp, RegisteredIntent};

fn entry(app: &str, id: &str) -> RegisteredIntent {
    RegisteredIntent {
        app_id: app.to_string(),
        intent_type: "notes".to_string(),
        intent_id: id.to_string(),
    }
}

fn register(app: &str, id: &str) -> AppMessage {
    AppMessage::Register {
        app_id: app.to_string(),
        intent_type: "notes".to_string(),
        intent_id: id.to_string(),
    }
}

fn op(op_id: &str, kind: &str, app: &str) -> PendingIntentOp {
    PendingIntentOp {
        op_id: op_id.to_string(),
        kind: kind.to_string(),
        app_id: app.to_string(),
        intent_id: "1".to_string(),
        data: None,
        target_app: Some("b".to_string()),
    }
}

/// Two apps on screen, each with the note `1`.
fn started() -> (Host, AgentDoc) {
    let mut host = Host::new();
    let mut doc = AgentDoc::default();
    host.view_launched(&mut doc, 1, "a");
    host.view_launched(&mut doc, 2, "b");
    assert_eq!(host.receive(&mut doc, register("a", "1")), None);
    assert_eq!(host.receive(&mut doc, register("b", "1")), None);
    (host, doc)
}

fn pending(host: &mut Host, doc: &mut AgentDoc, op: &PendingIntentOp) {
    doc.intent_ops.push(op.clone());
    host.scan(doc);
}

#[test]
fn the_registry_holds_nothing_twice() {
    let (mut host, mut doc) = started();
    for _ in 0..3 {
        host.receive(&mut doc, register("a", "1"));
        let transfer = op("t", "transfer", "a");
        pending(&mut host, &mut doc, &transfer);
        host.deliver_content(&mut doc, "t", "notes", "1", "{}");
    }
    assert_eq!(doc.intents, vec![entry("a", "1"), entry("b", "1")]);
    assert_eq!(doc.intent_registrations.len(), 2);
}

#[test]
fn delivered_content_makes_no_difference_to_the_document() {
    let mut ends = Vec::new();
    for data in ["{}", "{\"secret\":true}"] {
        let (mut host, mut doc) = started();
        let transfer = op("t", "transfer", "a");
        pending(&mut host, &mut doc, &transfer);
        let call = host.deliver_content(&mut doc, "t", "notes", "9", data).unwrap();
        assert!(call.script.contains(data));
        ends.push((host, doc));
    }
    assert_eq!(ends[0], ends[1]);
}

#[test]
fn content_to_set_makes_no_difference_to_the_document() {
    let mut ends = Vec::new();
    for data in ["{}", "{\"secret\":true}"] {
        let (mut host, mut doc) = started();
        let set = op("s", "set", "a");
        pending(&mut host, &mut doc, &set);
        let call = host.dispatch_op_with(&mut doc, &set, Some(data.to_string())).unwrap();
        assert!(call.script.contains(data));
        ends.push((host, doc));
    }
    assert_eq!(ends[0], ends[1]);
}

#[test]
fn an_operation_on_a_closed_app_is_refused() {
    let (mut host, mut doc) = started();
    host.close_window(&mut doc, 1);
    assert_eq!(host.dispatch_op(&mut doc, &op("1", "get", "a")), None);
    assert_eq!(
        doc.intent_responses[0].error,
        Some("no intent with this id is registered in the app".to_string())
    );
}

#[test]
fn each_pending_operation_is_answered_once() {
    let (mut host, mut doc) = started();
    for kind in ["get", "transfer", "set", "other"] {
        let op = op(kind, kind, "a");
        pending(&mut host, &mut doc, &op);
        host.dispatch_op(&mut doc, &op);
    }
    host.close_window(&mut doc, 1);
    host.close_window(&mut doc, 2);
    assert!(host.pending.is_empty());
    for kind in ["get", "transfer", "set", "other"] {
        assert_eq!(doc.intent_responses.iter().filter(|r| r.op_id == kind).count(), 1, "{}", kind);
    }
    assert!(doc.intent_responses.iter().all(|r| r.data.is_none()));
}

#[test]
fn a_request_to_end_stays() {
    let (mut host, mut doc) = started();
    assert!(!apply_request(&mut doc, PiToHarnessMsg::Exit));
    assert!(apply_request(&mut doc, PiToHarnessMsg::CloseWebView { app_id: "a".to_string() }));
    host.scan(&mut doc);
    host.close_window(&mut doc, 2);
    assert!(doc.should_exit);
}

#[test]
fn logs_only_grow() {
    let (mut host, mut doc) = started();
    let before = doc.clone();
    host.receive(
        &mut doc,
        AppMessage::Unregister {
            app_id: "a".to_string(),
            intent_type: "notes".to_string(),
            intent_id: "1".to_string(),
        },
    );
    host.dispatch_op(&mut doc, &op("1", "get", "a"));
    host.close_window(&mut doc, 2);
    assert!(doc.intents.is_empty());
    assert_eq!(doc.intent_registrations, before.intent_registrations);
    assert_eq!(doc.intent_unregistrations.len(), 1);
    assert_eq!(doc.intent_responses.len(), 1);
}
