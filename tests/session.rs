use glucose_status::dexcom::{
    Api, Error, ErrorResponse, GlucoseMeasurement, Login, LoginStep, Poll, RemoteCode, Reply,
    SessionCache, Startup, ACCOUNT_ID_URL, MAX_RENEWALS, MEASURE_GLUCOSE_URL, SESSION_ID_URL,
};
use glucose_status::status::format_status;

const APP: &str = "d89443d2-327c-4a6f-89e5-496bbb0317db";

fn text_reply(body: &str) -> Reply {
    Reply { body: body.to_string(), readings: None, failure: None }
}

fn error_reply(code: &str) -> Reply {
    let body = format!(
        "{{\"Code\":\"{code}\",\"Message\":\"m\",\"SubCode\":\"s\",\"TypeName\":\"t\"}}"
    );
    Reply {
        body,
        readings: None,
        failure: Some(ErrorResponse {
            code: code.to_string(),
            message: "m".to_string(),
            description: "s".to_string(),
            kind: "t".to_string(),
        }),
    }
}

fn readings_reply(body: &str, readings: Vec<GlucoseMeasurement>) -> Reply {
    Reply { body: body.to_string(), readings: Some(readings), failure: None }
}

fn record(username: &str) -> SessionCache {
    SessionCache {
        username: username.to_string(),
        account_id: "acc-1".to_string(),
        session_id: "sess-1".to_string(),
    }
}

fn ready(stored: SessionCache) -> Api {
    match Api::new(&stored.username.clone(), "pw", Some(stored)) {
        Ok(Startup::Ready(api)) => api,
        other => panic!("expected a ready manager, got {other:?}"),
    }
}

fn login(username: &str, stored: Option<SessionCache>) -> Login {
    match Api::new(username, "pw", stored) {
        Ok(Startup::Login(l)) => l,
        other => panic!("expected a login, got {other:?}"),
    }
}

fn reading(value: u32) -> GlucoseMeasurement {
    GlucoseMeasurement {
        wt: "Date(1700000000000)".to_string(),
        st: "Date(1700000000001)".to_string(),
        dt: "Date(1700000000002+0100)".to_string(),
        value,
        trend: "Flat".to_string(),
    }
}

#[test]
fn empty_username_is_refused() {
    assert!(matches!(Api::new("", "pw", None), Err(Error::ArgUsername)));
    assert!(matches!(Api::new("", "", Some(record(""))), Err(Error::ArgUsername)));
}

#[test]
fn empty_password_is_refused() {
    assert!(matches!(Api::new("user", "", None), Err(Error::ArgPassword)));
    assert!(matches!(Api::new("user", "", Some(record("user"))), Err(Error::ArgPassword)));
}

#[test]
fn foreign_record_derives_both_identifiers() {
    let l = login("user", Some(record("someone-else")));
    let first = l.request();
    assert_eq!(first.url, ACCOUNT_ID_URL);
    assert_eq!(
        first.body,
        format!("{{\"accountName\":\"user\",\"password\":\"pw\",\"applicationId\":\"{APP}\"}}")
    );
    let l = match l.on_reply(text_reply("\"acc-9\"")) {
        LoginStep::Continue(l) => l,
        other => panic!("expected to continue, got {other:?}"),
    };
    let second = l.request();
    assert_eq!(second.url, SESSION_ID_URL);
    assert_eq!(
        second.body,
        format!("{{\"accountId\":\"acc-9\",\"password\":\"pw\",\"applicationId\":\"{APP}\"}}")
    );
    let api = match l.on_reply(text_reply("\"sess-9\"")) {
        LoginStep::Done(api) => api,
        other => panic!("expected a ready manager, got {other:?}"),
    };
    assert_eq!(api.cache(), &SessionCache {
        username: "user".to_string(),
        account_id: "acc-9".to_string(),
        session_id: "sess-9".to_string(),
    });
}

#[test]
fn missing_record_derives_both_identifiers() {
    let l = login("user", None);
    assert_eq!(l.request().url, ACCOUNT_ID_URL);
}

#[test]
fn matching_record_needs_no_derivation() {
    let api = ready(record("user"));
    assert_eq!(api.cache(), &record("user"));
}

#[test]
fn saved_record_reloads_unchanged() {
    let first = ready(record("user"));
    let saved = first.cache().clone();
    let again = ready(saved.clone());
    assert_eq!(again.cache(), &saved);
    assert_eq!(SessionCache::try_load_cache(Some(saved.clone()), "user"), Some(saved));
    assert_eq!(SessionCache::try_load_cache(Some(record("user")), "other"), None);
    assert_eq!(SessionCache::try_load_cache(None, "user"), None);
}

#[test]
fn request_strings_are_escaped() {
    let l = login("a\"b\\c", None);
    assert_eq!(
        l.request().body,
        format!("{{\"accountName\":\"a\\\"b\\\\c\",\"password\":\"pw\",\"applicationId\":\"{APP}\"}}")
    );
}

#[test]
fn derivation_error_codes_are_mapped() {
    let cases = [
        ("AccountPasswordInvalid", Error::InvalidPassword),
        ("MaxAuthenticationAttemptsReached", Error::MaxAuthenticationAttemptsReached),
        ("SessionIdNotFound", Error::SessionNotFound),
        ("SessionNotValid", Error::SessionInvalid),
        ("SomethingNew", Error::UnknownCode("SomethingNew".to_string())),
    ];
    for (code, expected) in cases {
        match login("user", None).on_reply(error_reply(code)) {
            LoginStep::Failed(e) => assert_eq!(e, expected),
            other => panic!("expected a failure, got {other:?}"),
        }
    }
}

#[test]
fn remote_codes_are_read() {
    assert_eq!(RemoteCode::from_code("SessionNotValid".to_string()), RemoteCode::SessionInvalid);
    assert_eq!(
        RemoteCode::from_code("sessionnotvalid".to_string()),
        RemoteCode::Unrecognized("sessionnotvalid".to_string())
    );
    assert_eq!(Error::from_remote(RemoteCode::InvalidPassword), Error::InvalidPassword);
}

#[test]
fn unparseable_derivation_body_is_unknown() {
    let body = "<html>Service Unavailable</html>";
    match login("user", None).on_reply(text_reply(body)) {
        LoginStep::Failed(e) => assert_eq!(e, Error::Unknown(body.to_string())),
        other => panic!("expected a failure, got {other:?}"),
    }
}

#[test]
fn readings_request_names_the_session() {
    let api = ready(record("user"));
    let q = api.get_latest_glucose_request();
    assert_eq!(q.url, MEASURE_GLUCOSE_URL);
    assert_eq!(q.body, "{\"sessionId\":\"sess-1\",\"minutes\":60,\"maxCount\":1}");
}

#[test]
fn empty_readings_give_none() {
    let mut api = ready(record("user"));
    match api.get_latest_glucose(readings_reply("[]", Vec::new())) {
        Poll::Done(Ok(None)) => {}
        other => panic!("expected no reading, got {other:?}"),
    }
}

#[test]
fn one_reading_is_kept_verbatim() {
    let mut api = ready(record("user"));
    match api.get_latest_glucose(readings_reply("[...]", vec![reading(123)])) {
        Poll::Done(Ok(Some(m))) => assert_eq!(m, reading(123)),
        other => panic!("expected a reading, got {other:?}"),
    }
}

#[test]
fn extra_readings_are_dropped() {
    let mut api = ready(record("user"));
    match api.get_latest_glucose(readings_reply("[...]", vec![reading(100), reading(200)])) {
        Poll::Done(Ok(Some(m))) => assert_eq!(m.value, 100),
        other => panic!("expected a reading, got {other:?}"),
    }
}

#[test]
fn expired_session_is_renewed_once() {
    let mut api = ready(record("user"));
    let renewal = match api.get_latest_glucose(error_reply("SessionNotValid")) {
        Poll::Renew(q) => q,
        other => panic!("expected a renewal, got {other:?}"),
    };
    assert_eq!(renewal.url, SESSION_ID_URL);
    assert_eq!(
        renewal.body,
        format!("{{\"accountId\":\"acc-1\",\"password\":\"pw\",\"applicationId\":\"{APP}\"}}")
    );
    let outcome = api.finish_renewal(text_reply("\"sess-2\""));
    assert!(outcome.persist);
    assert_eq!(outcome.error, Error::SessionInvalid);
    assert_eq!(api.cache().session_id, "sess-2");
    assert_eq!(api.cache().account_id, "acc-1");
}

#[test]
fn failed_renewal_reports_its_own_error() {
    let mut api = ready(record("user"));
    let outcome = api.finish_renewal(error_reply("AccountPasswordInvalid"));
    assert!(!outcome.persist);
    assert_eq!(outcome.error, Error::InvalidPassword);
    assert_eq!(api.cache(), &record("user"));
}

#[test]
fn other_reading_errors_are_reported() {
    let mut api = ready(record("user"));
    match api.get_latest_glucose(error_reply("SessionIdNotFound")) {
        Poll::Done(Err(e)) => assert_eq!(e, Error::SessionNotFound),
        other => panic!("expected an error, got {other:?}"),
    }
}

#[test]
fn unparseable_readings_body_is_unknown() {
    let mut api = ready(record("user"));
    let body = "not json at all {";
    match api.get_latest_glucose(text_reply(body)) {
        Poll::Done(Err(e)) => assert_eq!(e, Error::Unknown(body.to_string())),
        other => panic!("expected an error, got {other:?}"),
    }
}

fn status_after_reading(value: u32) -> String {
    let mut api = ready(record("user"));
    let body = format!(
        "[{{\"Value\": {value}, \"Trend\": \"Flat\", \"WT\": \"Date(1)\", \"ST\": \"Date(2)\", \"DT\": \"Date(3)\"}}]"
    );
    let parsed: serde_json::Value = serde_json::from_str(&body).unwrap();
    let first = &parsed[0];
    let decoded = GlucoseMeasurement {
        wt: first["WT"].as_str().unwrap().to_string(),
        st: first["ST"].as_str().unwrap().to_string(),
        dt: first["DT"].as_str().unwrap().to_string(),
        value: first["Value"].as_u64().unwrap() as u32,
        trend: first["Trend"].as_str().unwrap().to_string(),
    };
    match api.get_latest_glucose(readings_reply(&body, vec![decoded])) {
        Poll::Done(Ok(Some(m))) => format_status(m.value),
        other => panic!("expected a reading, got {other:?}"),
    }
}

#[test]
fn end_to_end_status_lines() {
    assert_eq!(status_after_reading(150), "We chillin (150 mg/dL)");
    assert_eq!(status_after_reading(45), "I'm in sugar withdrawls, send help (45 mg/dL)");
    assert_eq!(status_after_reading(310), "I'm currently ODing on sugar, send help (310 mg/dL)");
}

#[test]
fn renewals_stop_at_the_cap() {
    let mut api = ready(record("user"));
    for n in 0..MAX_RENEWALS {
        match api.get_latest_glucose(error_reply("SessionNotValid")) {
            Poll::Renew(q) => assert_eq!(q.url, SESSION_ID_URL),
            other => panic!("expected a renewal, got {other:?}"),
        }
        let outcome = api.finish_renewal(text_reply(&format!("\"sess-{n}\"")));
        assert!(outcome.persist);
        assert_eq!(outcome.error, Error::SessionInvalid);
    }
    match api.get_latest_glucose(error_reply("SessionNotValid")) {
        Poll::Done(Err(e)) => assert_eq!(e, Error::MaxRetriesReached),
        other => panic!("expected the cap, got {other:?}"),
    }
    match api.get_latest_glucose(error_reply("SessionNotValid")) {
        Poll::Renew(_) => {}
        other => panic!("expected a fresh renewal, got {other:?}"),
    }
}

#[test]
fn answered_query_resets_the_renewal_count() {
    let mut api = ready(record("user"));
    for _ in 0..MAX_RENEWALS {
        assert!(matches!(api.get_latest_glucose(error_reply("SessionNotValid")), Poll::Renew(_)));
        api.finish_renewal(text_reply("\"s\""));
    }
    assert!(matches!(
        api.get_latest_glucose(readings_reply("[...]", vec![reading(90)])),
        Poll::Done(Ok(Some(_)))
    ));
    assert!(matches!(api.get_latest_glucose(error_reply("SessionNotValid")), Poll::Renew(_)));
}
