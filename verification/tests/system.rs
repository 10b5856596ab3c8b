use a2web::script::{page, page_with, receive_script, request_script, target_error, BRIDGE};
use a2web::system::{
    connect_step, host_program, listed_pids, pids_in_text, port_filter, port_text, sync_url,
    trim_text, ConnectStep,
};
use a2web::text::same_text;

#[test]
fn ports_are_written_in_decimal() {
    assert_eq!(port_text(0), "0");
    assert_eq!(port_text(7), "7");
    assert_eq!(port_text(10), "10");
    assert_eq!(port_text(2342), "2342");
    assert_eq!(port_text(65535), "65535");
    assert_eq!(sync_url(2342), "ws://127.0.0.1:2342/sync");
    assert_eq!(port_filter(2341), ":2341");
}

#[test]
fn pids_stand_on_lines() {
    assert_eq!(listed_pids(b"12\n 345 \r\n6"), vec!["12", "345", "6"]);
    assert_eq!(listed_pids(b"12\n"), vec!["12"]);
    assert!(listed_pids(b"").is_empty());
    assert_eq!(pids_in_text("\n\n1"), vec!["", "", "1"]);
}

#[test]
fn pids_agree_with_lines_and_trim() {
    for text in ["", "\n", "a", "a\n", "a\n\n", "\ta b\u{3000}\r\n\u{85}c", "\r", "é\n\u{2028}x\u{a0}"] {
        let expected: Vec<String> = text.lines().map(|line| line.trim().to_string()).collect();
        assert_eq!(pids_in_text(text), expected);
        assert_eq!(trim_text(text), text.trim());
    }
}

#[test]
fn white_space_is_what_unicode_says() {
    let mut point: u32 = 0;
    while point <= 0x10ffff {
        if let Some(c) = char::from_u32(point) {
            if c.is_whitespace() || point < 0x400 || (0x1fff <= point && point <= 0x3001) {
                let text = format!("{}", c);
                assert_eq!(trim_text(&text).is_empty(), c.is_whitespace(), "{:x}", point);
            }
        }
        point += 1;
    }
}

#[test]
fn bytes_that_are_no_text_are_replaced() {
    assert_eq!(listed_pids(b"1\xff2"), vec!["1\u{fffd}2"]);
}

#[test]
fn the_host_program_has_three_places() {
    let beside = host_program(true, true);
    assert!(beside.from_program);
    assert_eq!(beside.levels_up, 1);
    assert_eq!(beside.segments, vec!["web-host"]);
    let built = host_program(true, false);
    assert!(built.from_program);
    assert_eq!(built.levels_up, 2);
    assert_eq!(built.segments, vec!["web-host", "target", "debug", "web-host"]);
    let below = host_program(false, true);
    assert!(!below.from_program);
    assert_eq!(below.levels_up, 0);
    assert_eq!(below.segments, vec!["target", "debug", "web-host"]);
}

#[test]
fn texts_are_compared_by_character() {
    assert!(same_text("", ""));
    assert!(same_text("é", "é"));
    assert!(!same_text("get", "set"));
    assert!(!same_text("get", "get "));
}

#[test]
fn scripts_quote_what_they_carry() {
    assert_eq!(
        request_script("op-\"1\"", "notes", "a\nb"),
        r#"document.dispatchEvent(new CustomEvent('intent-request', { detail: { requestId: "op-\"1\"", type: "notes", id: "a\nb" } }));"#
    );
    assert_eq!(
        receive_script("notes", "n", r#"{"title":"T"}"#, "agent"),
        r#"document.dispatchEvent(new CustomEvent('intent-receive', { detail: { type: "notes", id: "n", data: {"title":"T"}, source: "agent" } }));"#
    );
}

#[test]
fn the_page_carries_the_app_id() {
    let expected = format!(
        r#"<!DOCTYPE html><html><head><meta charset="utf-8"><meta name="viewport" content="width=device-width,initial-scale=1">
<script>window.__a2web={{appId:{}}};</script>
<script>{}</script><script>{}</script></head><body>{}</body></html>"#,
        r#""my \"app\"\n""#, "MCP", BRIDGE, "<p>hi</p>"
    );
    assert_eq!(page("my \"app\"\n", "MCP", "<p>hi</p>"), expected);
    assert_eq!(page_with(r#""my \"app\"\n""#, "MCP", "<p>hi</p>"), expected);
    assert!(BRIDGE.starts_with("(function(){\nvar ipc = window.ipc, aid = window.__a2web.appId;\n"));
    assert!(BRIDGE.ends_with("})();"));
}

#[test]
fn the_target_error_names_app_and_type() {
    assert_eq!(target_error("draft", "notes"), "target app 'draft' has no intent of type 'notes'");
}

#[test]
fn the_app_id_literal_escapes_what_json_escapes() {
    let mut app_id = String::from("é\u{7f}/<");
    for point in 0..0x80u32 {
        app_id.push(char::from_u32(point).unwrap());
    }
    let literal = serde_json::to_string(&app_id).unwrap();
    assert!(literal.contains("\\u0000\\u0001"));
    assert!(literal.contains("\\b\\t\\n\\u000b\\f\\r\\u000e"));
    assert!(literal.contains("\\u001f !\\\"#"));
    assert_eq!(page(&app_id, "", ""), page_with(&literal, "", ""));
}

#[test]
fn thirty_tries_are_made_with_waits_between() {
    assert_eq!(connect_step(1, true), ConnectStep::Connected);
    assert_eq!(connect_step(30, true), ConnectStep::Connected);
    assert_eq!(connect_step(1, false), ConnectStep::Wait { millis: 500, try_again: true });
    assert_eq!(connect_step(29, false), ConnectStep::Wait { millis: 500, try_again: true });
    assert_eq!(connect_step(30, false), ConnectStep::Wait { millis: 500, try_again: false });
}
