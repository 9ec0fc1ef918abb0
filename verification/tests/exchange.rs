use colissimo_track::errors::Error;
use colissimo_track::exchange::{read_session_token, Action, Phase, Reply, Request};
use colissimo_track::get_tracking_info;
use colissimo_track::model::Shipment;
use hyper::header::{HeaderValue, SET_COOKIE};
use hyper::HeaderMap;
use std::future::Future;
use std::task::{Context, Poll, Waker};

const TIMELINE: &str = r#"[
    {"code":"PC1","id":1,"shortLabel":"Pris en charge","status":true,"date":"2023-01-01T00:00:00+01:00"},
    {"code":"ET1","id":2,"shortLabel":"En cours d'acheminement","status":false},
    {"code":"ET2","id":3,"shortLabel":"Arrivé sur site","status":false},
    {"code":"MD2","id":4,"shortLabel":"En cours de livraison","status":false},
    {"code":"DI1","id":5,"shortLabel":"Livré","status":false}]"#;

fn shipment_json() -> String {
    format!(
        r#"{{"idShip":"AB123","entryDate":"2023-01-01T00:00:00+01:00","estimDate":"2023-01-05T00:00:00+01:00","event":[],"product":"colissimo","timeline":{}}}"#,
        TIMELINE
    )
}

fn cookie(value: &'static str) -> HeaderMap {
    let mut headers = HeaderMap::new();
    headers.insert(SET_COOKIE, HeaderValue::from_static(value));
    headers
}

/// A failure of the kind that the transport reports, made without a network.
fn transport_failure() -> hyper::Error {
    let (sender, body) = hyper::Body::channel();
    sender.abort();
    let mut reading = Box::pin(hyper::body::to_bytes(body));
    let mut context = Context::from_waker(Waker::noop());
    match reading.as_mut().poll(&mut context) {
        Poll::Ready(Err(cause)) => cause,
        _ => panic!("an aborted body fails at once"),
    }
}

/// A transport that answers from what it was given and keeps what it was asked.
struct Stub {
    token_page: Option<HeaderMap>,
    tracking: bool,
    body: Option<Vec<u8>>,
    sent: Vec<Request>,
    bodies_read: usize,
}

impl Stub {
    fn new(token_page: Option<HeaderMap>, tracking: bool, body: Option<&str>) -> Stub {
        Stub {
            token_page,
            tracking,
            body: body.map(|text| text.as_bytes().to_vec()),
            sent: Vec::new(),
            bodies_read: 0,
        }
    }

    fn send(&mut self, request: Request) -> Reply {
        self.sent.push(request);
        let answer = if self.sent.len() == 1 {
            self.token_page.clone()
        } else if self.tracking {
            Some(HeaderMap::new())
        } else {
            None
        };
        match answer {
            Some(headers) => Reply::Response(headers),
            None => Reply::Failure(transport_failure()),
        }
    }

    fn read_body(&mut self) -> Reply {
        self.bodies_read += 1;
        match self.body.clone() {
            Some(body) => Reply::Body(body),
            None => Reply::Failure(transport_failure()),
        }
    }
}

fn run(shipment_id: &str, stub: &mut Stub) -> Result<Shipment, Error> {
    let (mut exchange, mut action) = get_tracking_info(shipment_id);
    for _ in 0..4 {
        let reply = match action {
            Action::Finish(outcome) => {
                assert_eq!(exchange.phase(), Phase::Closed);
                return outcome;
            }
            Action::Send(request) => stub.send(request),
            Action::ReadBody => stub.read_body(),
        };
        (exchange, action) = exchange.advance(reply);
    }
    panic!("the exchange did not end");
}

#[test]
fn end_to_end_scenario() {
    let body = format!(r#"{{"shipment":{},"returnMessage":null}}"#, shipment_json());
    let mut stub = Stub::new(Some(cookie("sess=XYZ; Path=/")), true, Some(&body));
    let shipment = run("AB123", &mut stub).expect("a shipment");
    assert_eq!(shipment.id, "AB123");
    assert_eq!(shipment.service, "colissimo");
    assert!(shipment.events.is_empty());
    assert_eq!(shipment.entry_date.seconds, 1_672_527_600);
    assert_eq!(shipment.estimated_date.seconds, 1_672_873_200);
    assert_eq!(shipment.timeline_step(), 1);

    assert_eq!(stub.sent.len(), 2);
    assert_eq!(stub.bodies_read, 1);
    let first = &stub.sent[0];
    assert_eq!(first.uri, "https://www.laposte.fr/outils/suivre-vos-envois?code=AB123");
    assert!(first.headers.is_empty());
    let second = &stub.sent[1];
    assert_eq!(second.uri, "https://api.laposte.fr/ssu/v1/suivi-unifie/idship/AB123?lang=fr_FR");
    assert_eq!(second.headers.len(), 2);
    assert_eq!(second.headers[0].name, "accept");
    assert_eq!(second.headers[0].value, "application/json");
    assert_eq!(second.headers[1].name, "cookie");
    assert_eq!(second.headers[1].value, "sess=XYZ");
}

#[test]
fn end_to_end_with_a_body_that_is_a_shipment_without_its_envelope() {
    let mut stub = Stub::new(Some(cookie("sess=XYZ; Path=/")), true, Some(&shipment_json()));
    assert!(matches!(run("AB123", &mut stub), Err(Error::Response)));
    assert_eq!(stub.sent.len(), 2);
}

#[test]
fn end_to_end_with_the_carriers_error() {
    let body = r#"{"returnCode":104,"returnMessage":"Aucun colis ne correspond"}"#;
    let mut stub = Stub::new(Some(cookie("JSESSIONID=0a1b; HttpOnly")), true, Some(body));
    match run("6A12345678901", &mut stub) {
        Err(Error::Server(message)) => assert_eq!(message, "Aucun colis ne correspond"),
        other => panic!("unexpected outcome {:?}", other),
    }
    assert_eq!(stub.sent[1].headers[1].value, "JSESSIONID=0a1b");
}

#[test]
fn nothing_is_sent_for_an_illegal_identifier() {
    for id in ["", "AB 123", "AB-123", "AB123!", "é1"] {
        let body = format!(r#"{{"shipment":{}}}"#, shipment_json());
        let mut stub = Stub::new(Some(cookie("sess=XYZ; Path=/")), true, Some(&body));
        assert!(matches!(run(id, &mut stub), Err(Error::IllegalParcelId)), "{:?}", id);
        assert!(stub.sent.is_empty(), "{:?}", id);
        assert_eq!(stub.bodies_read, 0, "{:?}", id);
    }
}

#[test]
fn failure_of_the_first_request_is_reported_with_its_cause() {
    let mut stub = Stub::new(None, true, Some("{}"));
    match run("AB123", &mut stub) {
        Err(Error::Request(cause)) => assert!(cause.is_body_write_aborted()),
        other => panic!("unexpected outcome {:?}", other),
    }
    assert_eq!(stub.sent.len(), 1);
}

#[test]
fn failure_of_the_second_request_is_reported_with_its_cause() {
    let mut stub = Stub::new(Some(cookie("sess=XYZ")), false, Some("{}"));
    match run("AB123", &mut stub) {
        Err(Error::Request(cause)) => assert!(cause.is_body_write_aborted()),
        other => panic!("unexpected outcome {:?}", other),
    }
    assert_eq!(stub.sent.len(), 2);
    assert_eq!(stub.bodies_read, 0);
}

#[test]
fn body_that_cannot_be_read_is_a_malformed_response() {
    let mut stub = Stub::new(Some(cookie("sess=XYZ")), true, None);
    assert!(matches!(run("AB123", &mut stub), Err(Error::Response)));
    assert_eq!(stub.bodies_read, 1);
}

#[test]
fn body_that_is_no_json_is_the_end_of_the_exchange() {
    for body in ["", "<html></html>", "{", "[]"] {
        let mut stub = Stub::new(Some(cookie("sess=XYZ")), true, Some(body));
        assert!(matches!(run("AB123", &mut stub), Err(Error::Response)), "{:?}", body);
    }
}

#[test]
fn response_without_a_cookie_is_malformed() {
    let mut stub = Stub::new(Some(HeaderMap::new()), true, Some("{}"));
    assert!(matches!(run("AB123", &mut stub), Err(Error::Response)));
    assert_eq!(stub.sent.len(), 1);
}

#[test]
fn cookie_that_is_no_text_is_malformed() {
    let mut headers = HeaderMap::new();
    headers.insert(SET_COOKIE, HeaderValue::from_bytes(b"sess=\xfa\xfb; Path=/").expect("a value"));
    assert_eq!(read_session_token(&headers), None);
    let mut stub = Stub::new(Some(headers), true, Some("{}"));
    assert!(matches!(run("AB123", &mut stub), Err(Error::Response)));
    assert_eq!(stub.sent.len(), 1);
}

#[test]
fn session_token_is_taken_from_the_first_cookie() {
    let mut headers = HeaderMap::new();
    headers.insert("content-type", HeaderValue::from_static("text/html"));
    headers.append(SET_COOKIE, HeaderValue::from_static("first=1; Path=/"));
    headers.append(SET_COOKIE, HeaderValue::from_static("second=2; Path=/"));
    assert_eq!(read_session_token(&headers), Some("first=1".to_string()));
    assert_eq!(read_session_token(&cookie("tokenonly")), Some("tokenonly".to_string()));
    assert_eq!(read_session_token(&cookie("")), Some(String::new()));
    assert_eq!(read_session_token(&HeaderMap::new()), None);
    let mut other = HeaderMap::new();
    other.insert("cookie", HeaderValue::from_static("sess=XYZ"));
    assert_eq!(read_session_token(&other), None);
}

#[test]
fn cookie_with_a_tab_is_sent_back_as_it_came() {
    let mut stub = Stub::new(Some(cookie("se\tss=X Y;Z")), true, Some("{}"));
    assert!(matches!(run("AB123", &mut stub), Err(Error::Response)));
    assert_eq!(stub.sent.len(), 2);
    assert_eq!(stub.sent[1].headers[1].value, "se\tss=X Y");
}

#[test]
fn requests_are_built_from_the_identifier_and_the_token() {
    let request = Request::token_page("6A12345678901");
    assert_eq!(request.uri, "https://www.laposte.fr/outils/suivre-vos-envois?code=6A12345678901");
    assert!(request.headers.is_empty());
    let request = Request::tracking("6A12345678901", "a=b");
    assert_eq!(
        request.uri,
        "https://api.laposte.fr/ssu/v1/suivi-unifie/idship/6A12345678901?lang=fr_FR"
    );
    assert_eq!(request.headers.len(), 2);
    assert_eq!(
        (request.headers[0].name.as_str(), request.headers[0].value.as_str()),
        ("accept", "application/json")
    );
    assert_eq!(
        (request.headers[1].name.as_str(), request.headers[1].value.as_str()),
        ("cookie", "a=b")
    );
}

#[test]
fn reply_that_answers_nothing_ends_the_exchange() {
    let (exchange, _) = get_tracking_info("AB123");
    let (exchange, action) = exchange.advance(Reply::Body(b"{}".to_vec()));
    assert_eq!(exchange.phase(), Phase::Closed);
    assert!(matches!(action, Action::Finish(Err(Error::Response))));
    let (exchange, action) = exchange.advance(Reply::Response(cookie("sess=XYZ")));
    assert_eq!(exchange.phase(), Phase::Closed);
    assert!(matches!(action, Action::Finish(Err(Error::Response))));

    let (exchange, _) = get_tracking_info("AB123");
    let (exchange, _) = exchange.advance(Reply::Response(cookie("sess=XYZ")));
    assert_eq!(exchange.phase(), Phase::Tracking);
    let (exchange, action) = exchange.advance(Reply::Body(b"{}".to_vec()));
    assert_eq!(exchange.phase(), Phase::Closed);
    assert!(matches!(action, Action::Finish(Err(Error::Response))));

    let (exchange, _) = get_tracking_info("AB123");
    let (exchange, _) = exchange.advance(Reply::Response(cookie("sess=XYZ")));
    let (exchange, _) = exchange.advance(Reply::Response(HeaderMap::new()));
    assert_eq!(exchange.phase(), Phase::Body);
    let (exchange, action) = exchange.advance(Reply::Response(HeaderMap::new()));
    assert_eq!(exchange.phase(), Phase::Closed);
    assert!(matches!(action, Action::Finish(Err(Error::Response))));
}

#[test]
fn exchange_goes_through_its_phases_in_order() {
    let (exchange, action) = get_tracking_info("AB123");
    assert_eq!(exchange.phase(), Phase::TokenPage);
    assert!(matches!(action, Action::Send(_)));
    let (exchange, action) = exchange.advance(Reply::Response(cookie("sess=XYZ; Path=/")));
    assert_eq!(exchange.phase(), Phase::Tracking);
    assert!(matches!(action, Action::Send(_)));
    let (exchange, action) = exchange.advance(Reply::Response(HeaderMap::new()));
    assert_eq!(exchange.phase(), Phase::Body);
    assert!(matches!(action, Action::ReadBody));
    let (exchange, action) = exchange.advance(Reply::Body(br#"{"returnMessage":"KO"}"#.to_vec()));
    assert_eq!(exchange.phase(), Phase::Closed);
    match action {
        Action::Finish(Err(Error::Server(message))) => assert_eq!(message, "KO"),
        other => panic!("unexpected action {:?}", other),
    }
}

#[test]
fn identifier_too_long_for_the_second_request_is_found_out_there() {
    let id = "A".repeat(65_480);
    let mut stub = Stub::new(Some(cookie("sess=XYZ")), true, Some("{}"));
    assert!(matches!(run(&id, &mut stub), Err(Error::Response)));
    assert_eq!(stub.sent.len(), 1);
    assert_eq!(stub.sent[0].uri.len(), 65_533);

    let id = "A".repeat(65_482);
    let mut stub = Stub::new(Some(cookie("sess=XYZ")), true, Some("{}"));
    assert!(matches!(run(&id, &mut stub), Err(Error::IllegalParcelId)));
    assert!(stub.sent.is_empty());
}

#[test]
fn transport_failure_becomes_a_request_error() {
    let error = Error::from(transport_failure());
    assert!(matches!(error, Error::Request(_)));
}
