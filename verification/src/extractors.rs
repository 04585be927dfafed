//! Requests that could not be read: each kind of rejection is answered
//! with a JSON body that gives the status, a message and, where one is
//! known, the place of the offending parameter.

use vstd::prelude::*;
use crate::text::{decimal, decimal_text, joined, replace_char, replaced};

verus! {

/// Status of the answer to a request that is at fault.
pub const STATUS_BAD_REQUEST: u16 = 400;

/// Status of the answer where the handler's own types are at fault.
pub const STATUS_INTERNAL_SERVER_ERROR: u16 = 500;

/// Why the parameters of a path could not be read.
#[derive(Debug)]
pub enum ErrorKind {
    /// The path holds another number of parameters than the handler takes.
    WrongNumberOfParameters,
    /// The parameter under `key` could not be parsed.
    ParseErrorAtKey { key: String },
    /// The parameter at `index` could not be parsed.
    ParseErrorAtIndex { index: usize },
    /// A parameter could not be parsed.
    ParseError,
    /// The parameter under `key` is not UTF-8.
    InvalidUtf8InPathParam { key: String },
    /// The handler asks for a type that no path can give.
    UnsupportedType,
    /// The parameter under `key` was refused by its type, with `message`.
    DeserializeError { key: String, value: String, message: String },
    /// Something else, in the words of `0`.
    Message(String),
    /// A kind that is not known here.
    Other,
}

/// A path that was rejected. `text` is the rejection in words.
#[derive(Debug)]
pub enum PathRejection {
    FailedToDeserializePathParams { kind: ErrorKind, text: String },
    MissingPathParams { text: String },
    Other { text: String },
}

/// A query string that was rejected. `text` is the rejection in words.
#[derive(Debug)]
pub enum QueryRejection {
    FailedToDeserializeQueryString { text: String },
    Other { text: String },
}

/// A request that was rejected before its handler ran.
#[derive(Debug)]
pub enum ParserRejection {
    /// The input was read but broke a rule; `text` lists the broken rules,
    /// one a line.
    ValidationErrors { text: String },
    /// The JSON body could not be read; `text` says why.
    JsonRejection { text: String },
    PathRejection(PathRejection),
    QueryRejection(QueryRejection),
}

/// The body of the answer to a rejected request.
#[derive(Debug)]
pub struct ParserRejectionResponse {
    pub status_code: u16,
    pub message: String,
    pub location: Option<String>,
}

/// The content of the answer to a rejected request.
pub struct Answer {
    pub status_code: u16,
    pub message: Seq<char>,
    pub location: Option<Seq<char>>,
}

impl View for ParserRejectionResponse {
    type V = Answer;

    open spec fn view(&self) -> Answer {
        Answer {
            status_code: self.status_code,
            message: self.message@,
            location: self.location.deep_view(),
        }
    }
}

impl ErrorKind {
    /// The answer to a path whose parameters could not be read for this
    /// reason, `text` being the reason in words.
    pub open spec fn answer(self, text: Seq<char>) -> Answer {
        match self {
            ErrorKind::WrongNumberOfParameters => Answer {
                status_code: STATUS_BAD_REQUEST,
                message: text,
                location: None,
            },
            ErrorKind::ParseErrorAtKey { key } => Answer {
                status_code: STATUS_BAD_REQUEST,
                message: text,
                location: Some(key@),
            },
            ErrorKind::ParseErrorAtIndex { index } => Answer {
                status_code: STATUS_BAD_REQUEST,
                message: text,
                location: Some(decimal(index as nat)),
            },
            ErrorKind::ParseError => Answer {
                status_code: STATUS_BAD_REQUEST,
                message: text,
                location: None,
            },
            ErrorKind::InvalidUtf8InPathParam { key } => Answer {
                status_code: STATUS_BAD_REQUEST,
                message: text,
                location: Some(key@),
            },
            ErrorKind::UnsupportedType => Answer {
                status_code: STATUS_INTERNAL_SERVER_ERROR,
                message: text,
                location: None,
            },
            ErrorKind::DeserializeError { key, value, message } => Answer {
                status_code: STATUS_INTERNAL_SERVER_ERROR,
                message: message@,
                location: Some(key@),
            },
            ErrorKind::Message(message) => Answer {
                status_code: STATUS_BAD_REQUEST,
                message: message@,
                location: None,
            },
            ErrorKind::Other => Answer {
                status_code: STATUS_BAD_REQUEST,
                message: "Unhandled deserialization error: "@ + text,
                location: None,
            },
        }
    }
}

impl ParserRejection {
    /// The answer to the rejected request.
    pub open spec fn answer(self) -> Answer {
        match self {
            ParserRejection::ValidationErrors { text } => Answer {
                status_code: STATUS_BAD_REQUEST,
                message: replaced("Input validation error: ["@ + text@ + "]"@, '\n', ", "@),
                location: None,
            },
            ParserRejection::JsonRejection { text } => Answer {
                status_code: STATUS_BAD_REQUEST,
                message: text@,
                location: None,
            },
            ParserRejection::PathRejection(rejection) => match rejection {
                PathRejection::FailedToDeserializePathParams { kind, text } => kind.answer(text@),
                PathRejection::MissingPathParams { text } => Answer {
                    status_code: STATUS_BAD_REQUEST,
                    message: text@,
                    location: None,
                },
                PathRejection::Other { text } => Answer {
                    status_code: STATUS_BAD_REQUEST,
                    message: "Unhandled path rejection: "@ + text@,
                    location: None,
                },
            },
            ParserRejection::QueryRejection(rejection) => match rejection {
                QueryRejection::FailedToDeserializeQueryString { text } => Answer {
                    status_code: STATUS_BAD_REQUEST,
                    message: text@,
                    location: None,
                },
                QueryRejection::Other { text } => Answer {
                    status_code: STATUS_BAD_REQUEST,
                    message: "Unhandled query rejection: "@ + text@,
                    location: None,
                },
            },
        }
    }

    /// The body of an answer with the given status, message and place.
    pub fn into_json_response(status_code: u16, message: String, location: Option<String>) -> (body:
        ParserRejectionResponse)
        ensures
            body.status_code == status_code,
            body.message == message,
            body.location == location,
    {
        ParserRejectionResponse { status_code, message, location }
    }

    /// The answer to the rejected request: 400 where the request is at
    /// fault, 500 where the handler's own types are, with the rejection in
    /// words and the place of the offending parameter where one is known.
    pub fn into_response(self) -> (body: ParserRejectionResponse)
        ensures
            body@ == self.answer(),
    {
        match self {
            ParserRejection::ValidationErrors { text } => {
                let listed = joined(joined("Input validation error: [", text.as_str()).as_str(), "]");
                let message = replace_char(listed.as_str(), '\n', ", ");
                Self::into_json_response(STATUS_BAD_REQUEST, message, None)
            },
            ParserRejection::JsonRejection { text } => Self::into_json_response(
                STATUS_BAD_REQUEST,
                text,
                None,
            ),
            ParserRejection::PathRejection(rejection) => match rejection {
                PathRejection::FailedToDeserializePathParams { kind, text } => {
                    match kind {
                        ErrorKind::WrongNumberOfParameters => Self::into_json_response(
                            STATUS_BAD_REQUEST,
                            text,
                            None,
                        ),
                        ErrorKind::ParseErrorAtKey { key } => Self::into_json_response(
                            STATUS_BAD_REQUEST,
                            text,
                            Some(key),
                        ),
                        ErrorKind::ParseErrorAtIndex { index } => Self::into_json_response(
                            STATUS_BAD_REQUEST,
                            text,
                            Some(decimal_text(index as u64)),
                        ),
                        ErrorKind::ParseError => Self::into_json_response(
                            STATUS_BAD_REQUEST,
                            text,
                            None,
                        ),
                        ErrorKind::InvalidUtf8InPathParam { key } => Self::into_json_response(
                            STATUS_BAD_REQUEST,
                            text,
                            Some(key),
                        ),
                        ErrorKind::UnsupportedType => Self::into_json_response(
                            STATUS_INTERNAL_SERVER_ERROR,
                            text,
                            None,
                        ),
                        ErrorKind::DeserializeError { key, value, message } => {
                            Self::into_json_response(
                                STATUS_INTERNAL_SERVER_ERROR,
                                message,
                                Some(key),
                            )
                        },
                        ErrorKind::Message(message) => Self::into_json_response(
                            STATUS_BAD_REQUEST,
                            message,
                            None,
                        ),
                        ErrorKind::Other => Self::into_json_response(
                            STATUS_BAD_REQUEST,
                            joined("Unhandled deserialization error: ", text.as_str()),
                            None,
                        ),
                    }
                },
                PathRejection::MissingPathParams { text } => Self::into_json_response(
                    STATUS_BAD_REQUEST,
                    text,
                    None,
                ),
                PathRejection::Other { text } => Self::into_json_response(
                    STATUS_BAD_REQUEST,
                    joined("Unhandled path rejection: ", text.as_str()),
                    None,
                ),
            },
            ParserRejection::QueryRejection(rejection) => match rejection {
                QueryRejection::FailedToDeserializeQueryString { text } => Self::into_json_response(
                    STATUS_BAD_REQUEST,
                    text,
                    None,
                ),
                QueryRejection::Other { text } => Self::into_json_response(
                    STATUS_BAD_REQUEST,
                    joined("Unhandled query rejection: ", text.as_str()),
                    None,
                ),
            },
        }
    }
}

/// What the extraction of a request part gives: the value, if it was read
/// and keeps its rules, and the rejection otherwise. `read` is what reading
/// gave; `broken` lists, one a line, the rules that the value breaks, and is
/// `None` where it breaks none.
pub open spec fn extracted<T>(read: Result<T, ParserRejection>, broken: Option<String>) -> Result<
    T,
    ParserRejection,
> {
    match read {
        Ok(value) => match broken {
            Some(text) => Err(ParserRejection::ValidationErrors { text }),
            None => Ok(value),
        },
        Err(rejection) => Err(rejection),
    }
}

/// Decides on an extracted request part.
fn extract<T>(read: Result<T, ParserRejection>, broken: Option<String>) -> (value: Result<
    T,
    ParserRejection,
>)
    ensures
        value == extracted(read, broken),
{
    match read {
        Ok(value) => match broken {
            Some(text) => Err(ParserRejection::ValidationErrors { text }),
            None => Ok(value),
        },
        Err(rejection) => Err(rejection),
    }
}

/// A JSON body that was read and keeps its rules.
#[derive(Debug)]
pub struct Body<T>(pub T);

/// Path parameters that were read and keep their rules.
#[derive(Debug)]
pub struct Param<T>(pub T);

/// A query string that was read and keeps its rules.
#[derive(Debug)]
pub struct Query<T>(pub T);

impl<T> Body<T> {
    /// The body of a request, or the rejection that answers it.
    pub fn from_request(read: Result<T, ParserRejection>, broken: Option<String>) -> (body: Result<
        Self,
        ParserRejection,
    >)
        ensures
            match extracted(read, broken) {
                Ok(value) => body == Ok::<Self, ParserRejection>(Body(value)),
                Err(rejection) => body == Err::<Self, ParserRejection>(rejection),
            },
    {
        match extract(read, broken) {
            Ok(value) => Ok(Body(value)),
            Err(rejection) => Err(rejection),
        }
    }
}

impl<T> Param<T> {
    /// The path parameters of a request, or the rejection that answers it.
    pub fn from_request_parts(read: Result<T, ParserRejection>, broken: Option<String>) -> (param:
        Result<Self, ParserRejection>)
        ensures
            match extracted(read, broken) {
                Ok(value) => param == Ok::<Self, ParserRejection>(Param(value)),
                Err(rejection) => param == Err::<Self, ParserRejection>(rejection),
            },
    {
        match extract(read, broken) {
            Ok(value) => Ok(Param(value)),
            Err(rejection) => Err(rejection),
        }
    }
}

impl<T> Query<T> {
    /// The query string of a request, or the rejection that answers it.
    pub fn from_request_parts(read: Result<T, ParserRejection>, broken: Option<String>) -> (query:
        Result<Self, ParserRejection>)
        ensures
            match extracted(read, broken) {
                Ok(value) => query == Ok::<Self, ParserRejection>(Query(value)),
                Err(rejection) => query == Err::<Self, ParserRejection>(rejection),
            },
    {
        match extract(read, broken) {
            Ok(value) => Ok(Query(value)),
            Err(rejection) => Err(rejection),
        }
    }
}

} // verus!
