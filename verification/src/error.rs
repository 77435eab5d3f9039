//! The closed error taxonomy surfaced by search and lookup, uniform over
//! entity kinds.
use vstd::prelude::*;
use vstd::string::StringExecFns;

verus! {

/// The closed set of failure kinds of this library.
#[derive(Debug, Clone)]
pub enum Error {
    /// The transport fetch could not complete.
    TransportFailure,
    /// The top-level response is not valid structured data.
    EnvelopeUnparseable,
    /// The remote document itself encodes an error; its message is passed
    /// through.
    RemoteRejected(String),
    /// A field expected to hold a unique identifier failed its format check.
    InvalidIdentifier,
    /// A closed-vocabulary field held a string outside its known table.
    UnrecognizedEnumValue,
    /// A field required by the detail-document schema was absent, null, or
    /// of the wrong shape.
    MissingRequiredField,
}

/// Mathematical model of an [`Error`]: the same kinds, with the remote
/// message seen as a character sequence.
pub enum ErrorModel {
    TransportFailure,
    EnvelopeUnparseable,
    RemoteRejected(Seq<char>),
    InvalidIdentifier,
    UnrecognizedEnumValue,
    MissingRequiredField,
}

impl View for Error {
    type V = ErrorModel;

    open spec fn view(&self) -> ErrorModel {
        match self {
            Error::TransportFailure => ErrorModel::TransportFailure,
            Error::EnvelopeUnparseable => ErrorModel::EnvelopeUnparseable,
            Error::RemoteRejected(m) => ErrorModel::RemoteRejected(m@),
            Error::InvalidIdentifier => ErrorModel::InvalidIdentifier,
            Error::UnrecognizedEnumValue => ErrorModel::UnrecognizedEnumValue,
            Error::MissingRequiredField => ErrorModel::MissingRequiredField,
        }
    }
}

impl PartialEq for Error {
    fn eq(&self, other: &Error) -> (r: bool) {
        match (self, other) {
            (Error::TransportFailure, Error::TransportFailure) => true,
            (Error::EnvelopeUnparseable, Error::EnvelopeUnparseable) => true,
            (Error::RemoteRejected(a), Error::RemoteRejected(b)) => *a == *b,
            (Error::InvalidIdentifier, Error::InvalidIdentifier) => true,
            (Error::UnrecognizedEnumValue, Error::UnrecognizedEnumValue) => true,
            (Error::MissingRequiredField, Error::MissingRequiredField) => true,
            _ => false,
        }
    }
}

impl vstd::std_specs::cmp::PartialEqSpecImpl for Error {
    open spec fn obeys_eq_spec() -> bool {
        true
    }

    open spec fn eq_spec(&self, other: &Error) -> bool {
        self@ == other@
    }
}

/// The text of each error kind, as shown to a caller.
pub open spec fn message_text(e: Error) -> Seq<char> {
    match e {
        Error::TransportFailure => "error requesting resource"@,
        Error::EnvelopeUnparseable => "error parsing response body"@,
        Error::RemoteRejected(m) => "rejected by the remote service: "@ + m@,
        Error::InvalidIdentifier => "error parsing identifier"@,
        Error::UnrecognizedEnumValue => "value outside its known vocabulary"@,
        Error::MissingRequiredField => "required field absent, null, or of the wrong shape"@,
    }
}

impl Error {
    /// A human-readable description of the error.
    pub fn message(&self) -> (r: String)
        ensures
            r@ == message_text(*self),
    {
        match self {
            Error::TransportFailure => "error requesting resource".to_owned(),
            Error::EnvelopeUnparseable => "error parsing response body".to_owned(),
            Error::RemoteRejected(m) => {
                "rejected by the remote service: ".to_owned().concat(m.as_str())
            },
            Error::InvalidIdentifier => "error parsing identifier".to_owned(),
            Error::UnrecognizedEnumValue => "value outside its known vocabulary".to_owned(),
            Error::MissingRequiredField => {
                "required field absent, null, or of the wrong shape".to_owned()
            },
        }
    }
}

} // verus!
