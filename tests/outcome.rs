use chrono::NaiveDate;
use crabping::dispatch::collect;
use crabping::outcome::{finish_exchange, prepare_target, record_exchange, transport_failure, RequestResult};

fn at(millis: u32) -> chrono::NaiveDateTime {
    NaiveDate::from_ymd_opt(2024, 3, 1).unwrap().and_hms_milli_opt(12, 0, 0, millis).unwrap()
}

#[test]
fn single_request_pong() {
    let r = record_exchange(0, 12, "200 OK".to_string(), Some("pong".to_string()));
    let report = collect(1, vec![r]);
    assert_eq!(report.len(), 1);
    match &report[0] {
        RequestResult::Success { sequence_id, latency_ms, status, body } => {
            assert_eq!(*sequence_id, 0);
            assert_eq!(*latency_ms, 12);
            assert_eq!(status, "200 OK");
            assert_eq!(body, "pong");
        }
        other => panic!("expected a success, got {:?}", other),
    }
}

#[test]
fn finish_exchange_decodes_body_and_times_it() {
    let r = finish_exchange(4, &at(100), &at(137), "200 OK".to_string(), b"pong".to_vec());
    assert_eq!(
        r,
        RequestResult::Success {
            sequence_id: 4,
            latency_ms: 37,
            status: "200 OK".to_string(),
            body: "pong".to_string(),
        }
    );
    assert_eq!(r.latency(), Some(37));
    assert!(r.is_success());
    assert_eq!(r.sequence_id(), 4);
}

#[test]
fn finish_exchange_keeps_multibyte_text() {
    let r = finish_exchange(1, &at(0), &at(5), "404 Not Found".to_string(), "h\u{e9}llo".as_bytes().to_vec());
    match r {
        RequestResult::Success { status, body, latency_ms, .. } => {
            assert_eq!(status, "404 Not Found");
            assert_eq!(body, "h\u{e9}llo");
            assert_eq!(latency_ms, 5);
        }
        other => panic!("expected a success, got {:?}", other),
    }
}

#[test]
fn finish_exchange_rejects_invalid_utf8() {
    let r = finish_exchange(2, &at(0), &at(9), "200 OK".to_string(), vec![0x70, 0xff, 0xfe]);
    assert_eq!(
        r,
        RequestResult::Failure { sequence_id: 2, cause: "Response body is not valid UTF-8".to_string() }
    );
    assert_eq!(r.latency(), None);
    assert!(!r.is_success());
}

#[test]
fn record_exchange_without_text_is_failure() {
    let r = record_exchange(3, 8, "200 OK".to_string(), None);
    assert_eq!(
        r,
        RequestResult::Failure { sequence_id: 3, cause: "Response body is not valid UTF-8".to_string() }
    );
}

#[test]
fn http_error_status_is_still_success() {
    let r = record_exchange(0, 3, "500 Internal Server Error".to_string(), Some(String::new()));
    assert!(r.is_success());
    assert_eq!(r.latency(), Some(3));
}

#[test]
fn transport_failure_keeps_cause() {
    let r = transport_failure(7, "connection refused".to_string());
    assert_eq!(r, RequestResult::Failure { sequence_id: 7, cause: "connection refused".to_string() });
    assert_eq!(r.sequence_id(), 7);
}

#[test]
fn prepare_target_accepts_absolute_url() {
    let r = prepare_target("http://example.com/ping", 0);
    let uri = r.expect("address should parse");
    assert_eq!(uri.host(), Some("example.com"));
}

#[test]
fn prepare_target_turns_bad_address_into_failure() {
    let r = prepare_target("ht tp://bad address", 6);
    match r {
        Err(f) => assert_eq!(
            f,
            RequestResult::Failure { sequence_id: 6, cause: "Failed to parse url address".to_string() }
        ),
        Ok(_) => panic!("a bad address must not parse"),
    }
}
