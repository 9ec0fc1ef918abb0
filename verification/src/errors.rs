use hyper::Error as TransportError;
use vstd::prelude::*;

verus! {

/// `hyper::Error`: why a request could not be sent. Carried, never inspected.
#[verifier::external_type_specification]
#[verifier::external_body]
pub struct ExTransportError(TransportError);

/// Why tracking information could not be had.
#[derive(Debug)]
pub enum Error {
    /// An illegal parcel ID was given, which caused an error while building the request
    IllegalParcelId,
    /// The request couldn't be sent
    Request(TransportError),
    /// The server sent an unexpected response
    Response,
    /// The server sent an expected response, but signals an error in this response
    Server(String),
}

impl From<TransportError> for Error {
    fn from(cause: TransportError) -> (r: Self) {
        Error::Request(cause)
    }
}

impl vstd::std_specs::convert::FromSpecImpl<TransportError> for Error {
    open spec fn obeys_from_spec() -> bool {
        true
    }

    open spec fn from_spec(cause: TransportError) -> Self {
        Error::Request(cause)
    }
}

/// An error, with its message as a sequence of characters.
pub enum ErrorView {
    IllegalParcelId,
    Request(TransportError),
    Response,
    Server(Seq<char>),
}

impl View for Error {
    type V = ErrorView;

    open spec fn view(&self) -> ErrorView {
        match self {
            Error::IllegalParcelId => ErrorView::IllegalParcelId,
            Error::Request(cause) => ErrorView::Request(*cause),
            Error::Response => ErrorView::Response,
            Error::Server(message) => ErrorView::Server(message@),
        }
    }
}

} // verus!
