//! The failures that the client reports.

use vstd::prelude::*;

verus! {

/// Why a JSON value does not have the shape of the record asked for.
#[derive(Debug, Clone, PartialEq, Eq, Hash)]
pub enum DecodeError {
    /// A record was expected and the value is not an object.
    NotAnObject,
    /// A list was expected and the value is not an array.
    NotAnArray,
    /// The object lacks a member that the record requires.
    MissingField(String),
    /// The member is there and its value cannot be taken for the field.
    InvalidField(String),
    /// The element at this index of a list is not the record asked for.
    InvalidElement(usize),
}

/// The model of a [`DecodeError`].
pub ghost enum DecodeErrorView {
    NotAnObject,
    NotAnArray,
    MissingField(Seq<char>),
    InvalidField(Seq<char>),
    InvalidElement(int),
}

impl View for DecodeError {
    type V = DecodeErrorView;

    open spec fn view(&self) -> DecodeErrorView {
        match self {
            DecodeError::NotAnObject => DecodeErrorView::NotAnObject,
            DecodeError::NotAnArray => DecodeErrorView::NotAnArray,
            DecodeError::MissingField(name) => DecodeErrorView::MissingField(name@),
            DecodeError::InvalidField(name) => DecodeErrorView::InvalidField(name@),
            DecodeError::InvalidElement(index) => DecodeErrorView::InvalidElement(*index as int),
        }
    }
}

/// The parser's rejection of a text that is no JSON document: the parser's
/// own error, and the message that the error prints.
#[derive(Debug)]
pub struct SyntaxError {
    pub error: serde_json::Error,
    pub message: String,
}

impl View for SyntaxError {
    type V = Seq<char>;

    /// The model of a rejection is its message.
    open spec fn view(&self) -> Seq<char> {
        self.message@
    }
}

/// Why a text could not be turned into a typed record: it is not JSON at
/// all, or it is JSON of another shape.
#[derive(Debug)]
pub enum JsonError {
    /// The text is not a JSON document.
    Syntax(SyntaxError),
    /// The document does not have the shape of the record.
    Shape(DecodeError),
}

/// The model of a [`JsonError`]: the parser's message, or the fault in the
/// shape.
pub ghost enum JsonErrorView {
    Syntax(Seq<char>),
    Shape(DecodeErrorView),
}

impl View for JsonError {
    type V = JsonErrorView;

    open spec fn view(&self) -> JsonErrorView {
        match self {
            JsonError::Syntax(cause) => JsonErrorView::Syntax(cause@),
            JsonError::Shape(cause) => JsonErrorView::Shape(cause@),
        }
    }
}

/// Everything that can go wrong in an exchange with the service. No error is
/// retried or swallowed: each is handed to the caller.
#[derive(Debug)]
pub enum GamploError {
    /// The network exchange itself failed; the transport's message.
    HttpRequest(String),
    /// A response body that had to be looked at as plain JSON is no JSON
    /// text.
    Json(SyntaxError),
    /// The service rejected the token, with its reason.
    Authentication(String),
    /// A well-formed response lacks a top-level member.
    MissingField { field: String, response: String },
    /// A response could not be mapped onto the record named, because it is
    /// no JSON or JSON of another shape; `data` is the offending payload.
    Deserialization { target: String, data: String, source: JsonError },
    /// The service answered that the operation failed.
    ApiError(String),
    /// No token could be discovered.
    TokenNotFound(String),
}

/// The model of a [`GamploError`].
pub ghost enum GamploErrorView {
    HttpRequest(Seq<char>),
    Json(Seq<char>),
    Authentication(Seq<char>),
    MissingField { field: Seq<char>, response: Seq<char> },
    Deserialization { target: Seq<char>, data: Seq<char>, source: JsonErrorView },
    ApiError(Seq<char>),
    TokenNotFound(Seq<char>),
}

impl View for GamploError {
    type V = GamploErrorView;

    open spec fn view(&self) -> GamploErrorView {
        match self {
            GamploError::HttpRequest(message) => GamploErrorView::HttpRequest(message@),
            GamploError::Json(cause) => GamploErrorView::Json(cause@),
            GamploError::Authentication(reason) => GamploErrorView::Authentication(reason@),
            GamploError::MissingField { field, response } => GamploErrorView::MissingField {
                field: field@,
                response: response@,
            },
            GamploError::Deserialization { target, data, source } => {
                GamploErrorView::Deserialization {
                    target: target@,
                    data: data@,
                    source: source@,
                }
            },
            GamploError::ApiError(detail) => GamploErrorView::ApiError(detail@),
            GamploError::TokenNotFound(detail) => GamploErrorView::TokenNotFound(detail@),
        }
    }
}

/// The model of the outcome of an operation that hands out a record.
pub open spec fn outcome_view<T: View>(outcome: Result<T, GamploError>) -> Result<
    T::V,
    GamploErrorView,
> {
    match outcome {
        Ok(record) => Ok(record@),
        Err(error) => Err(error@),
    }
}

/// The model of the outcome of an operation that hands out a record or
/// nothing.
pub open spec fn optional_outcome_view<T: View>(outcome: Result<Option<T>, GamploError>) -> Result<
    Option<T::V>,
    GamploErrorView,
> {
    match outcome {
        Ok(Some(record)) => Ok(Some(record@)),
        Ok(None) => Ok(None),
        Err(error) => Err(error@),
    }
}

} // verus!
