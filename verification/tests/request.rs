use r_webservice::service::request::{RequestConfig, RequestValue, RequestState, Stage, BodyEvent, PollAnswer, Subval};
use r_webservice::types::error::ServiceError;

#[test]
fn body_reader_by_content_type() {
    assert_eq!(RequestState::new("application/json").body, Stage::Json);
    assert_eq!(RequestState::new("Application/JSON; charset=utf-8").body, Stage::Json);
    assert_eq!(RequestState::new("multipart/form-data; boundary=x").body, Stage::Multipart);
    assert_eq!(RequestState::new("application/x-www-form-urlencoded").body, Stage::Urlencoded);
    assert_eq!(RequestState::new("application/xml").body, Stage::Marker);
    assert_eq!(RequestState::new("multipart/mixed").body, Stage::Marker);
    assert_eq!(RequestState::new("text/plain").body, Stage::Marker);
    assert_eq!(RequestState::new("").body, Stage::Marker);
    let s = RequestState::new("application/json");
    assert_eq!((s.path, s.query), (Stage::Marker, Stage::Marker));
}

#[test]
fn a_json_request_is_read_in_steps() {
    let mut s = RequestState::new("application/json");
    s.path_read();
    s.query_started();
    assert!(!s.query_polled(false));
    assert_eq!(s.query, Stage::Query);
    assert!(s.query_polled(true));
    assert_eq!(s.body_polled(BodyEvent::NotReady), PollAnswer::Pending);
    assert_eq!(s.body, Stage::Json);
    assert_eq!(s.body_polled(BodyEvent::Ready(true)), PollAnswer::Ready);
    assert_eq!((s.path, s.query, s.body), (Stage::MarkerProcessed, Stage::MarkerProcessed, Stage::MarkerProcessed));
    assert_eq!(s.body_polled(BodyEvent::NotReady), PollAnswer::Fail(ServiceError::HTTPRequestBadRequest));
    assert_eq!(s.body, Stage::MarkerPending);
    assert_eq!(s.body_polled(BodyEvent::NotReady), PollAnswer::Pending);
}

#[test]
fn a_request_without_body_reader_is_a_bad_request() {
    let mut s = RequestState::new("");
    s.path_read();
    s.query_started();
    assert!(s.query_polled(true));
    assert_eq!(s.body_polled(BodyEvent::NotReady), PollAnswer::Fail(ServiceError::HTTPRequestBadRequest));
    let mut u = RequestState::new("application/x-www-form-urlencoded");
    u.path_read();
    u.query_started();
    u.query_polled(true);
    assert_eq!(u.body_polled(BodyEvent::NotReady), PollAnswer::Fail(ServiceError::HTTPRequestBadRequest));
}

#[test]
fn a_failed_multipart_body_is_a_bad_request() {
    let mut s = RequestState::new("multipart/form-data");
    s.path_read();
    s.query_started();
    s.query_polled(true);
    assert_eq!(s.body_polled(BodyEvent::NotReady), PollAnswer::Pending);
    assert_eq!(s.body_polled(BodyEvent::Ready(false)), PollAnswer::Fail(ServiceError::HTTPRequestBadRequest));
    assert_eq!(s.body, Stage::MarkerPending);
}

#[test]
fn the_config_is_set_once() {
    let mut slot: Option<RequestConfig> = None;
    RequestValue::<(), (), ()>::set_config(&mut slot, "/tmp/a");
    assert!(slot.is_some());
    let before = format!("{:?}", slot);
    RequestValue::<(), (), ()>::set_config(&mut slot, "/tmp/b");
    assert_eq!(format!("{:?}", slot), before);
    assert!(before.contains("/tmp/a"));
}

#[test]
fn a_request_value_keeps_its_parts() {
    let v = RequestValue::from_parts(1, "q".to_string(), vec![2]);
    assert_eq!(v.into_parts(), (1, "q".to_string(), vec![2]));
    let s = Subval::new("x".to_string());
    assert!(format!("{:?}", s).contains("x"));
}

#[test]
fn json_bodies_are_limited() {
    assert_eq!(r_webservice::service::request::JSON_BODY_LIMIT, 2 * 1024 * 1024);
}
