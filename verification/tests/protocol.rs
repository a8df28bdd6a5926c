use whynottao::protocol::{next_protocol_id, ProtocolRegistry};

#[test]
fn protocol_ids_are_unique_when_protocols_share_a_counter() {
    let mut registry: ProtocolRegistry<&str, ()> = ProtocolRegistry::new();
    registry.register_protocol_raw("app".to_string(), "first handler");
    registry.register_protocol_raw("api".to_string(), "second handler");

    assert_eq!(registry.begin_request(0, ()), 0);
    assert_eq!(registry.begin_request(1, ()), 1);
}

#[test]
fn next_protocol_id_hands_out_and_advances() {
    let mut counter: u64 = 0;
    assert_eq!(next_protocol_id(&mut counter), 0);
    assert_eq!(next_protocol_id(&mut counter), 1);
    assert_eq!(counter, 2);
}

use whynottao::error::ErrorStatus;
use whynottao::protocol::{
    build_wry_response, handler_failure_text, CustomProtocolResponse, HandlerFailure,
};
use whynottao::HeaderData;

fn response(status: Option<u16>, mime: Option<&str>, headers: Option<Vec<HeaderData>>) -> CustomProtocolResponse {
    CustomProtocolResponse {
        status_code: status,
        headers,
        body: b"hello".to_vec(),
        mime_type: mime.map(|m| m.to_string()),
    }
}

fn header(k: &str, v: Option<&str>) -> HeaderData {
    HeaderData { key: k.to_string(), value: v.map(|s| s.to_string()) }
}

#[test]
fn response_defaults_to_200_octet_stream() {
    let plan = build_wry_response(response(None, None, None)).unwrap();
    assert_eq!(plan.status, 200);
    assert_eq!(plan.headers, vec![("Content-Type".to_string(), "application/octet-stream".to_string())]);
    assert_eq!(plan.body, b"hello".to_vec());
}

#[test]
fn response_keeps_headers_with_values_in_order() {
    let plan = build_wry_response(response(
        Some(404),
        Some("text/plain"),
        Some(vec![
            header("Access-Control-Allow-Origin", Some("*")),
            header("X-Skipped", None),
            header("Cache-Control", Some("no-store")),
        ]),
    ))
    .unwrap();
    assert_eq!(plan.status, 404);
    assert_eq!(
        plan.headers,
        vec![
            ("Content-Type".to_string(), "text/plain".to_string()),
            ("Access-Control-Allow-Origin".to_string(), "*".to_string()),
            ("Cache-Control".to_string(), "no-store".to_string()),
        ]
    );
}

#[test]
fn response_with_bad_status_is_refused() {
    let e = build_wry_response(response(Some(99), None, None)).unwrap_err();
    assert_eq!(e.status, ErrorStatus::GenericFailure);
    assert_eq!(e.message, "Protocol response build error: invalid status code");
    assert!(build_wry_response(response(Some(1000), None, None)).is_err());
    assert!(build_wry_response(response(Some(100), None, None)).is_ok());
    assert!(build_wry_response(response(Some(999), None, None)).is_ok());
}

#[test]
fn response_with_bad_header_is_refused() {
    let e = build_wry_response(response(None, None, Some(vec![header("bad name", Some("x"))]))).unwrap_err();
    assert_eq!(e.message, "Protocol response build error: invalid HTTP header name");
    let e = build_wry_response(response(None, None, Some(vec![header("X-Ok", Some("a\nb"))]))).unwrap_err();
    assert_eq!(e.message, "Protocol response build error: failed to parse header value");
    let e = build_wry_response(response(None, Some("text/html\u{7f}"), None)).unwrap_err();
    assert_eq!(e.message, "Protocol response build error: failed to parse header value");
    assert!(build_wry_response(response(None, Some("text/plain; charset=utf-8\tx"), None)).is_ok());
}

#[test]
fn completing_a_request_answers_it_once() {
    let mut registry: ProtocolRegistry<(), &str> = ProtocolRegistry::new();
    registry.register_protocol_raw("app".to_string(), ());
    registry.register_protocol_raw("api".to_string(), ());
    let first = registry.begin_request(0, "first responder");
    let second = registry.begin_request(1, "second responder");
    assert_eq!((first, second), (0, 1));

    let (responder, plan) = registry.complete_protocol(second, response(Some(201), None, None)).unwrap().unwrap();
    assert_eq!(responder, "second responder");
    assert_eq!(plan.status, 201);
    assert!(registry.complete_protocol(second, response(None, None, None)).unwrap().is_none());
    assert!(registry.complete_protocol(42, response(None, None, None)).unwrap().is_none());

    let (responder, _) = registry.complete_protocol(first, response(None, None, None)).unwrap().unwrap();
    assert_eq!(responder, "first responder");
}

#[test]
fn refused_response_still_ends_the_request() {
    let mut registry: ProtocolRegistry<(), u8> = ProtocolRegistry::new();
    registry.register_protocol_raw("app".to_string(), ());
    let id = registry.begin_request(0, 7);
    assert!(registry.complete_protocol(id, response(Some(42), None, None)).is_err());
    assert!(registry.complete_protocol(id, response(None, None, None)).unwrap().is_none());
}

#[test]
fn failed_handler_gets_a_500_answer() {
    let mut registry: ProtocolRegistry<(), u8> = ProtocolRegistry::new();
    registry.register_protocol_raw("app".to_string(), ());
    let id = registry.begin_request(0, 9);
    assert!(registry.fail_request(0, id + 1, HandlerFailure::Unavailable).is_none());
    let (responder, plan) = registry.fail_request(0, id, HandlerFailure::NotRegistered).unwrap();
    assert_eq!(responder, 9);
    assert_eq!(plan.status, 500);
    assert_eq!(plan.headers, vec![("Content-Type".to_string(), "text/plain".to_string())]);
    assert_eq!(plan.body, b"Protocol handler is not registered".to_vec());
    assert!(registry.fail_request(0, id, HandlerFailure::NotRegistered).is_none());
    assert_eq!(handler_failure_text(HandlerFailure::Unavailable), "Protocol handler is unavailable");
    assert_eq!(handler_failure_text(HandlerFailure::InvocationFailed), "Protocol handler invocation failed");
}

#[test]
fn registry_reports_schemes_and_handlers() {
    let mut registry: ProtocolRegistry<u32, ()> = ProtocolRegistry::new();
    assert_eq!(registry.len(), 0);
    registry.register_protocol_raw("app".to_string(), 5);
    assert_eq!(registry.len(), 1);
    assert_eq!(registry.scheme(0), "app");
    assert_eq!(*registry.handler(0), 5);
}

#[test]
fn answering_a_request_restores_the_registry() {
    let mut registry: ProtocolRegistry<(), u8> = ProtocolRegistry::new();
    registry.register_protocol_raw("app".to_string(), ());
    let id = registry.begin_request(0, 1);
    assert_eq!(registry.next_request_id(), 1);
    let (responder, _) = registry.complete_protocol(id, response(None, None, None)).unwrap().unwrap();
    assert_eq!(responder, 1);
    assert_eq!(registry.next_request_id(), 1);
    assert!(registry.complete_protocol(id, response(None, None, None)).unwrap().is_none());
    assert!(registry.fail_request(0, id, HandlerFailure::Unavailable).is_none());
    assert_eq!(registry.begin_request(0, 2), 1);
}

#[test]
fn successive_ids_count_up_from_the_counter() {
    let mut counter: u64 = 40;
    let ids: Vec<u64> = (0..5).map(|_| next_protocol_id(&mut counter)).collect();
    assert_eq!(ids, vec![40, 41, 42, 43, 44]);
    assert_eq!(counter, 45);
}
