use a2web::bridge::{apply_request, Forwarder, HarnessToPiMsg, PiToHarnessMsg};
use a2web::doc::{Announcement, EntityResponse, PendingEntityOp, RegisteredEntity};
use a2web::{AgentDoc, LaunchedWebView, RegisteredIntent, WebViewStatus};

fn announcement(id: &str) -> Announcement {
    Announcement {
        kind: "entity_registered".to_string(),
        app_id: "notes-source".to_string(),
        intent_type: "notes".to_string(),
        entity_id: Some(id.to_string()),
    }
}

fn announced(id: &str) -> HarnessToPiMsg {
    HarnessToPiMsg::Announcement {
        kind: "entity_registered".to_string(),
        app_id: "notes-source".to_string(),
        intent_type: "notes".to_string(),
        entity_id: Some(id.to_string()),
    }
}

fn response(op_id: &str) -> EntityResponse {
    EntityResponse {
        op_id: op_id.to_string(),
        kind: "read".to_string(),
        app_id: "notes-source".to_string(),
        intent_type: "notes".to_string(),
        entity_id: "note-1".to_string(),
        data: Some("{}".to_string()),
        is_error: false,
        error: None,
    }
}

fn responded(op_id: &str) -> HarnessToPiMsg {
    HarnessToPiMsg::EntityResponse {
        op_id: op_id.to_string(),
        kind: "read".to_string(),
        app_id: "notes-source".to_string(),
        intent_type: "notes".to_string(),
        entity_id: "note-1".to_string(),
        data: Some("{}".to_string()),
        is_error: false,
        error: None,
    }
}

#[test]
fn a_launch_request_queues_a_view() {
    let mut doc = AgentDoc::default();
    let request = PiToHarnessMsg::LaunchWebView { app_id: "a".to_string(), html: "<p>".to_string() };
    assert!(apply_request(&mut doc, request));
    assert_eq!(
        doc.webviews,
        vec![LaunchedWebView {
            id: "a".to_string(),
            html: "<p>".to_string(),
            status: WebViewStatus::Pending,
        }]
    );
}

#[test]
fn a_close_request_clears_the_app() {
    let mut doc = AgentDoc::default();
    for app in ["a", "b"] {
        doc.webviews.push(LaunchedWebView {
            id: app.to_string(),
            html: String::new(),
            status: WebViewStatus::Launched,
        });
        doc.intents.push(RegisteredIntent {
            app_id: app.to_string(),
            intent_type: "notes".to_string(),
            intent_id: "1".to_string(),
        });
        doc.entities.push(RegisteredEntity {
            app_id: app.to_string(),
            intent_type: "notes".to_string(),
            entity_id: "1".to_string(),
        });
    }
    assert!(apply_request(&mut doc, PiToHarnessMsg::CloseWebView { app_id: "a".to_string() }));
    assert_eq!(doc.webviews.len(), 1);
    assert_eq!(doc.webviews[0].id, "b");
    assert_eq!(doc.intents.len(), 1);
    assert_eq!(doc.intents[0].app_id, "b");
    assert_eq!(doc.entities.len(), 1);
    assert_eq!(doc.entities[0].app_id, "b");
}

#[test]
fn an_entity_op_is_queued() {
    let mut doc = AgentDoc::default();
    let request = PiToHarnessMsg::EntityOp {
        op_id: "1".to_string(),
        kind: "transfer".to_string(),
        app_id: "a".to_string(),
        intent_type: "notes".to_string(),
        entity_id: "note-1".to_string(),
        data: None,
        target_app: Some("b".to_string()),
    };
    assert!(apply_request(&mut doc, request));
    assert_eq!(
        doc.entity_ops,
        vec![PendingEntityOp {
            op_id: "1".to_string(),
            kind: "transfer".to_string(),
            app_id: "a".to_string(),
            intent_type: "notes".to_string(),
            entity_id: "note-1".to_string(),
            data: None,
            target_app: Some("b".to_string()),
        }]
    );
}

#[test]
fn exit_ends_the_session_and_the_forwarding() {
    let mut doc = AgentDoc::default();
    assert!(!apply_request(&mut doc, PiToHarnessMsg::Exit));
    assert!(doc.should_exit);
    doc.announcements.push(announcement("note-1"));
    let mut forwarder = Forwarder::new();
    assert_eq!(forwarder.forward(&doc), None);
    assert_eq!(forwarder, Forwarder::new());
}

#[test]
fn each_entry_is_forwarded_once() {
    let mut doc = AgentDoc::default();
    let mut forwarder = Forwarder::new();
    assert_eq!(forwarder.forward(&doc), Some(vec![]));
    doc.announcements.push(announcement("note-1"));
    doc.entity_responses.push(response("1"));
    doc.announcements.push(announcement("note-2"));
    assert_eq!(
        forwarder.forward(&doc),
        Some(vec![announced("note-1"), announced("note-2"), responded("1")])
    );
    assert_eq!(forwarder.forward(&doc), Some(vec![]));
    doc.entity_responses.push(response("2"));
    assert_eq!(forwarder.forward(&doc), Some(vec![responded("2")]));
    assert_eq!(forwarder, Forwarder { announcements: 2, responses: 2 });
}

#[test]
fn a_shorter_log_forwards_nothing() {
    let mut doc = AgentDoc::default();
    doc.announcements.push(announcement("note-1"));
    let mut forwarder = Forwarder { announcements: 3, responses: 0 };
    assert_eq!(forwarder.forward(&doc), Some(vec![]));
    assert_eq!(forwarder.announcements, 3);
}
