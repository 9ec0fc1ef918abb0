//! The exchange with the carrier, step by step. Nothing here touches the network: the
//! caller carries out each [`Action`] and reports what came of it in a [`Reply`].

use crate::errors::{Error, ErrorView};
use crate::model::decode::envelope_in;
use crate::model::{outcome_view, APIResponse, Shipment, ShipmentView};
use crate::transport::{
    first_header, header_of, header_text, header_value_accepted, header_value_is_accepted,
    lemma_header_text_is_accepted, uri_accepted, uri_is_accepted,
};
use crate::{
    access_token, extract_access_token, lemma_token_end, token_end, valid_shipment_id,
    validate_shipment_id,
};
use hyper::header::HeaderValue;
use hyper::Error as TransportError;
use hyper::HeaderMap;
use vstd::prelude::*;

verus! {

/// One header of a request.
#[derive(Debug)]
pub struct Header {
    pub name: String,
    pub value: String,
}

/// A `GET` request.
#[derive(Debug)]
pub struct Request {
    pub uri: String,
    pub headers: Vec<Header>,
}

/// What the next [`Reply`] answers.
#[derive(Clone, Copy, Debug, PartialEq, Eq, Structural)]
pub enum Phase {
    /// The request for the page that sets the session cookie.
    TokenPage,
    /// The request to the tracking API.
    Tracking,
    /// The reading of the tracking API's response.
    Body,
    /// Nothing: the exchange is over.
    Closed,
}

#[derive(Debug)]
enum Awaited {
    TokenPage { shipment_id: String },
    Tracking,
    Body,
    Nothing,
}

/// Where the exchange with the carrier stands. One begins with [`get_tracking_info`],
/// so that it never is about an identifier that is not valid.
#[derive(Debug)]
pub struct Exchange {
    awaited: Awaited,
}

/// What the caller has to do next.
#[derive(Debug)]
pub enum Action {
    /// Send the request, then report the response's headers or why there was none.
    Send(Request),
    /// Read the whole body of the response just reported, then report it or why there
    /// is none.
    ReadBody,
    /// Nothing more: this is the outcome.
    Finish(Result<Shipment, Error>),
}

/// What came of an [`Action`].
#[derive(Debug)]
pub enum Reply {
    /// A response arrived, with these headers.
    Response(HeaderMap<HeaderValue>),
    /// The request could not be sent, or the body could not be read.
    Failure(TransportError),
    /// The body of the response.
    Body(Vec<u8>),
}

pub struct RequestView {
    pub uri: Seq<char>,
    /// Names and values, in the order in which they are to be sent.
    pub headers: Seq<(Seq<char>, Seq<char>)>,
}

pub enum ExchangeView {
    TokenPage { shipment_id: Seq<char> },
    Tracking,
    Body,
    Closed,
}

pub enum ActionView {
    Send(RequestView),
    ReadBody,
    Finish(Result<ShipmentView, ErrorView>),
}

pub enum ReplyView {
    Response(HeaderMap<HeaderValue>),
    Failure(TransportError),
    Body(Seq<u8>),
}

impl View for Request {
    type V = RequestView;

    open spec fn view(&self) -> RequestView {
        RequestView {
            uri: self.uri@,
            headers: Seq::new(
                self.headers@.len(),
                |i: int| (self.headers@[i].name@, self.headers@[i].value@),
            ),
        }
    }
}

impl View for Exchange {
    type V = ExchangeView;

    closed spec fn view(&self) -> ExchangeView {
        match self.awaited {
            Awaited::TokenPage { shipment_id } => ExchangeView::TokenPage {
                shipment_id: shipment_id@,
            },
            Awaited::Tracking => ExchangeView::Tracking,
            Awaited::Body => ExchangeView::Body,
            Awaited::Nothing => ExchangeView::Closed,
        }
    }
}

impl ExchangeView {
    /// An exchange that waits for the token page is about a valid identifier, one that
    /// its request could be built from.
    pub open spec fn wf(self) -> bool {
        self matches ExchangeView::TokenPage { shipment_id } ==> valid_shipment_id(shipment_id)
            && uri_accepted(token_page_uri(shipment_id))
    }

    pub open spec fn phase(self) -> Phase {
        match self {
            ExchangeView::TokenPage { .. } => Phase::TokenPage,
            ExchangeView::Tracking => Phase::Tracking,
            ExchangeView::Body => Phase::Body,
            ExchangeView::Closed => Phase::Closed,
        }
    }
}

impl View for Action {
    type V = ActionView;

    open spec fn view(&self) -> ActionView {
        match self {
            Action::Send(request) => ActionView::Send(request@),
            Action::ReadBody => ActionView::ReadBody,
            Action::Finish(outcome) => ActionView::Finish(outcome_view(*outcome)),
        }
    }
}

impl View for Reply {
    type V = ReplyView;

    open spec fn view(&self) -> ReplyView {
        match self {
            Reply::Response(headers) => ReplyView::Response(*headers),
            Reply::Failure(cause) => ReplyView::Failure(*cause),
            Reply::Body(body) => ReplyView::Body(body@),
        }
    }
}

/// The page that sets the session cookie.
pub open spec fn token_page_uri(shipment_id: Seq<char>) -> Seq<char> {
    "https://www.laposte.fr/outils/suivre-vos-envois?code="@ + shipment_id
}

/// The tracking API's resource for a shipment, in French.
pub open spec fn tracking_uri(shipment_id: Seq<char>) -> Seq<char> {
    "https://api.laposte.fr/ssu/v1/suivi-unifie/idship/"@ + shipment_id + "?lang=fr_FR"@
}

/// The first request: the page, with no header of the library's own.
pub open spec fn token_page_request(shipment_id: Seq<char>) -> RequestView {
    RequestView { uri: token_page_uri(shipment_id), headers: seq![] }
}

/// The second request: the API, asked for JSON, with the session token as its cookie.
pub open spec fn tracking_request(shipment_id: Seq<char>, token: Seq<char>) -> RequestView {
    RequestView {
        uri: tracking_uri(shipment_id),
        headers: seq![("accept"@, "application/json"@), ("cookie"@, token)],
    }
}

/// The session token that a response sets: the first pair of its first `Set-Cookie`
/// header, where it has one and that one is text.
pub open spec fn session_token(headers: HeaderMap<HeaderValue>) -> Option<Seq<char>> {
    match header_of(headers, "set-cookie"@) {
        Some(value) => match header_text(value) {
            Some(text) => Some(access_token(text)),
            None => None,
        },
        None => None,
    }
}

/// What the body of the tracking API's response comes to.
pub open spec fn tracking_outcome(body: Seq<u8>) -> Result<ShipmentView, ErrorView> {
    match envelope_in(body) {
        Some(envelope) => envelope.collapse(),
        None => Err(ErrorView::Response),
    }
}

/// How a retrieval begins: with the first request, or, for an identifier that is not
/// valid or that no request can be built from, with its refusal.
pub open spec fn opening(shipment_id: Seq<char>) -> (ExchangeView, ActionView) {
    if valid_shipment_id(shipment_id) && uri_accepted(token_page_uri(shipment_id)) {
        (
            ExchangeView::TokenPage { shipment_id },
            ActionView::Send(token_page_request(shipment_id)),
        )
    } else {
        (ExchangeView::Closed, ActionView::Finish(Err(ErrorView::IllegalParcelId)))
    }
}

/// How the exchange goes on when `reply` comes in at `exchange`. A reply that answers
/// nothing that was asked ends it as a malformed response does.
pub open spec fn next(exchange: ExchangeView, reply: ReplyView) -> (ExchangeView, ActionView) {
    match (exchange, reply) {
        (ExchangeView::TokenPage { shipment_id }, ReplyView::Response(headers)) => {
            match session_token(headers) {
                Some(token) => if uri_accepted(tracking_uri(shipment_id))
                    && header_value_accepted(token) {
                    (ExchangeView::Tracking, ActionView::Send(tracking_request(shipment_id, token)))
                } else {
                    (ExchangeView::Closed, ActionView::Finish(Err(ErrorView::Response)))
                },
                None => (ExchangeView::Closed, ActionView::Finish(Err(ErrorView::Response))),
            }
        },
        (ExchangeView::TokenPage { .. }, ReplyView::Failure(cause)) => (
            ExchangeView::Closed,
            ActionView::Finish(Err(ErrorView::Request(cause))),
        ),
        (ExchangeView::Tracking, ReplyView::Response(_)) => (
            ExchangeView::Body,
            ActionView::ReadBody,
        ),
        (ExchangeView::Tracking, ReplyView::Failure(cause)) => (
            ExchangeView::Closed,
            ActionView::Finish(Err(ErrorView::Request(cause))),
        ),
        (ExchangeView::Body, ReplyView::Body(body)) => (
            ExchangeView::Closed,
            ActionView::Finish(tracking_outcome(body)),
        ),
        _ => (ExchangeView::Closed, ActionView::Finish(Err(ErrorView::Response))),
    }
}

/// Ends the exchange with an error.
fn fail(error: Error) -> (r: (Exchange, Action))
    ensures
        r.0@ == ExchangeView::Closed,
        r.1@ == ActionView::Finish(Err(error@)),
{
    (Exchange { awaited: Awaited::Nothing }, Action::Finish(Err(error)))
}

/// Begins the retrieval of what the carrier knows of a shipment. Nothing is sent for an
/// identifier that is not valid: the exchange is then over before it began.
///
/// The caller carries out the action that comes back and hands what came of it to
/// [`Exchange::advance`], until the action is [`Action::Finish`].
pub fn get_tracking_info(shipment_id: &str) -> (r: (Exchange, Action))
    ensures
        (r.0@, r.1@) == opening(shipment_id@),
        r.0@.wf(),
        !valid_shipment_id(shipment_id@) ==> r.1@ == ActionView::Finish(
            Err(ErrorView::IllegalParcelId),
        ),
{
    if validate_shipment_id(shipment_id).is_err() {
        return fail(Error::IllegalParcelId);
    }
    let request = Request::token_page(shipment_id);
    if !uri_is_accepted(request.uri.as_str()) {
        return fail(Error::IllegalParcelId);
    }
    (
        Exchange { awaited: Awaited::TokenPage { shipment_id: shipment_id.to_owned() } },
        Action::Send(request),
    )
}

impl Request {
    /// The request for the page that sets the session cookie.
    pub fn token_page(shipment_id: &str) -> (r: Request)
        ensures
            r@ == token_page_request(shipment_id@),
    {
        let mut uri = "https://www.laposte.fr/outils/suivre-vos-envois?code=".to_owned();
        uri.append(shipment_id);
        let r = Request { uri, headers: Vec::new() };
        assert(r@.headers =~= seq![]);
        r
    }

    /// The request to the tracking API.
    pub fn tracking(shipment_id: &str, token: &str) -> (r: Request)
        ensures
            r@ == tracking_request(shipment_id@, token@),
    {
        let mut uri = "https://api.laposte.fr/ssu/v1/suivi-unifie/idship/".to_owned();
        uri.append(shipment_id);
        uri.append("?lang=fr_FR");
        let mut headers: Vec<Header> = Vec::new();
        headers.push(Header { name: "accept".to_owned(), value: "application/json".to_owned() });
        headers.push(Header { name: "cookie".to_owned(), value: token.to_owned() });
        let r = Request { uri, headers };
        assert(r@.headers =~= seq![("accept"@, "application/json"@), ("cookie"@, token@)]);
        r
    }
}

/// Finds the session token in the headers of the first response.
pub fn read_session_token(headers: &HeaderMap<HeaderValue>) -> (r: Option<String>)
    ensures
        match session_token(*headers) {
            Some(token) => r matches Some(found) && found@ == token,
            None => r is None,
        },
{
    match first_header(headers, "set-cookie") {
        Some(value) => match value.to_str() {
            Ok(text) => match extract_access_token(text) {
                Some(token) => Some(token.to_owned()),
                None => None,
            },
            Err(_) => None,
        },
        None => None,
    }
}

impl Exchange {
    #[verifier::type_invariant]
    spec fn well_formed(self) -> bool {
        self@.wf()
    }

    /// What the exchange waits for.
    pub fn phase(&self) -> (r: Phase)
        ensures
            r == self@.phase(),
    {
        match &self.awaited {
            Awaited::TokenPage { .. } => Phase::TokenPage,
            Awaited::Tracking => Phase::Tracking,
            Awaited::Body => Phase::Body,
            Awaited::Nothing => Phase::Closed,
        }
    }

    /// Takes in what came of the last action and says what to do next. A request comes
    /// back only for an identifier that is valid.
    pub fn advance(self, reply: Reply) -> (r: (Exchange, Action))
        ensures
            (r.0@, r.1@) == next(self@, reply@),
            r.0@.wf(),
            r.1@ is Send ==> self@ is TokenPage && valid_shipment_id(self@->shipment_id),
    {
        proof {
            use_type_invariant(&self);
        }
        match (self.awaited, reply) {
            (Awaited::TokenPage { shipment_id }, Reply::Response(headers)) => {
                match read_session_token(&headers) {
                    Some(token) => {
                        let request = Request::tracking(shipment_id.as_str(), token.as_str());
                        if uri_is_accepted(request.uri.as_str()) && header_value_is_accepted(
                            token.as_str(),
                        ) {
                            (Exchange { awaited: Awaited::Tracking }, Action::Send(request))
                        } else {
                            fail(Error::Response)
                        }
                    },
                    None => fail(Error::Response),
                }
            },
            (Awaited::TokenPage { .. }, Reply::Failure(cause)) => fail(Error::Request(cause)),
            (Awaited::Tracking, Reply::Response(_)) => (
                Exchange { awaited: Awaited::Body },
                Action::ReadBody,
            ),
            (Awaited::Tracking, Reply::Failure(cause)) => fail(Error::Request(cause)),
            (Awaited::Body, Reply::Body(body)) => {
                let outcome = match APIResponse::from_slice(body.as_slice()) {
                    Ok(envelope) => Result::<Shipment, Error>::from(envelope),
                    Err(error) => Err(error),
                };
                (Exchange { awaited: Awaited::Nothing }, Action::Finish(outcome))
            },
            _ => fail(Error::Response),
        }
    }
}

/// A request goes out only in answer to the response that set the session cookie: it is
/// the request to the tracking API for the shipment that the exchange is about, and its
/// cookie is the token of that response. So the two requests are never in flight
/// together, and nothing is sent once the exchange has failed.
pub proof fn lemma_second_request_follows_first(exchange: ExchangeView, reply: ReplyView)
    requires
        next(exchange, reply).1 is Send,
    ensures
        exchange is TokenPage,
        reply is Response,
        session_token(reply->Response_0) is Some,
        next(exchange, reply) == (
            ExchangeView::Tracking,
            ActionView::Send(
                tracking_request(
                    exchange->shipment_id,
                    session_token(reply->Response_0)->0,
                ),
            ),
        ),
{
}

/// No request goes out for an identifier that is not valid: not the first, and none
/// from an exchange that began as exchanges do.
pub proof fn lemma_requests_are_for_valid_identifiers(
    shipment_id: Seq<char>,
    exchange: ExchangeView,
    reply: ReplyView,
)
    requires
        exchange.wf(),
    ensures
        opening(shipment_id).0.wf(),
        next(exchange, reply).0.wf(),
        opening(shipment_id).1 is Send ==> valid_shipment_id(shipment_id),
        next(exchange, reply).1 is Send ==> valid_shipment_id(exchange->shipment_id),
{
}

/// Whatever is reported, the exchange is over after three replies at most, and the
/// outcome is handed out exactly when it ends.
pub proof fn lemma_three_replies_end_it(
    shipment_id: Seq<char>,
    first: ReplyView,
    second: ReplyView,
    third: ReplyView,
)
    ensures
        ({
            let begun = opening(shipment_id);
            let one = next(begun.0, first);
            let two = next(one.0, second);
            let three = next(two.0, third);
            &&& three.0 is Closed
            &&& begun.0 is Closed <==> begun.1 is Finish
            &&& one.0 is Closed <==> one.1 is Finish
            &&& two.0 is Closed <==> two.1 is Finish
            &&& three.1 is Finish
        }),
{
}

/// The session token of a response can always be sent back as a cookie: building the
/// second request never fails on it.
pub proof fn lemma_session_token_can_be_sent(headers: HeaderMap<HeaderValue>)
    requires
        session_token(headers) is Some,
    ensures
        header_value_accepted(session_token(headers)->0),
{
    let value = header_of(headers, "set-cookie"@)->0;
    let text = header_text(value)->0;
    lemma_token_end(text, 0);
    lemma_header_text_is_accepted(value, token_end(text));
}

/// A retrieval that nothing disturbs, step by step: the page is asked for, its cookie's
/// token goes out with the request to the API, the response's body is read, and what
/// the body comes to is the outcome.
pub proof fn lemma_undisturbed_retrieval(
    shipment_id: Seq<char>,
    token_page: HeaderMap<HeaderValue>,
    tracking: HeaderMap<HeaderValue>,
    body: Seq<u8>,
)
    requires
        valid_shipment_id(shipment_id),
        uri_accepted(token_page_uri(shipment_id)),
        uri_accepted(tracking_uri(shipment_id)),
        session_token(token_page) is Some,
    ensures
        opening(shipment_id) == (
            ExchangeView::TokenPage { shipment_id },
            ActionView::Send(token_page_request(shipment_id)),
        ),
        next(ExchangeView::TokenPage { shipment_id }, ReplyView::Response(token_page)) == (
            ExchangeView::Tracking,
            ActionView::Send(tracking_request(shipment_id, session_token(token_page)->0)),
        ),
        next(ExchangeView::Tracking, ReplyView::Response(tracking)) == (
            ExchangeView::Body,
            ActionView::ReadBody,
        ),
        next(ExchangeView::Body, ReplyView::Body(body)) == (
            ExchangeView::Closed,
            ActionView::Finish(tracking_outcome(body)),
        ),
{
    lemma_session_token_can_be_sent(token_page);
}

} // verus!
