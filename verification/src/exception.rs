//! The errors that a handler of the JSON API answers with: each stands for
//! one HTTP status and carries, if the handler wishes, a message of its own
//! in place of the status's usual phrase.

use vstd::prelude::*;
use crate::text::owned;

verus! {

/// An error answer of the API.
#[derive(Debug)]
pub enum HttpException {
    /// 400
    BadRequestException(Option<String>),
    /// 401
    UnauthorizedException(Option<String>),
    /// 403
    ForbiddenException(Option<String>),
    /// 404
    NotFoundException(Option<String>),
    /// 405
    MethodNotAllowedException(Option<String>),
    /// 406
    NotAcceptableException(Option<String>),
    /// 408
    RequestTimeoutException(Option<String>),
    /// 409
    ConflictException(Option<String>),
    /// 410
    GoneException(Option<String>),
    /// 412
    PreconditionFailedException(Option<String>),
    /// 413
    PayloadTooLargeException(Option<String>),
    /// 415
    UnsupportedMediaTypeException(Option<String>),
    /// 418
    ImATeapotException(Option<String>),
    /// 422
    UnprocessableEntityException(Option<String>),
    /// 500
    InternalServerErrorException(Option<String>),
    /// 501
    NotImplementedException(Option<String>),
    /// 502
    BadGatewayException(Option<String>),
    /// 503
    ServiceUnavailableException(Option<String>),
    /// 504
    GatewayTimeoutException(Option<String>),
    /// 505
    HttpVersionNotSupportedException(Option<String>),
}

/// The body of an error answer.
#[derive(Debug)]
pub struct ExceptionResponse {
    pub status_code: u16,
    pub message: String,
}

impl HttpException {
    /// The HTTP status that the error stands for.
    pub open spec fn status(self) -> u16 {
        match self {
            HttpException::BadRequestException(_) => 400,
            HttpException::UnauthorizedException(_) => 401,
            HttpException::ForbiddenException(_) => 403,
            HttpException::NotFoundException(_) => 404,
            HttpException::MethodNotAllowedException(_) => 405,
            HttpException::NotAcceptableException(_) => 406,
            HttpException::RequestTimeoutException(_) => 408,
            HttpException::ConflictException(_) => 409,
            HttpException::GoneException(_) => 410,
            HttpException::PreconditionFailedException(_) => 412,
            HttpException::PayloadTooLargeException(_) => 413,
            HttpException::UnsupportedMediaTypeException(_) => 415,
            HttpException::ImATeapotException(_) => 418,
            HttpException::UnprocessableEntityException(_) => 422,
            HttpException::InternalServerErrorException(_) => 500,
            HttpException::NotImplementedException(_) => 501,
            HttpException::BadGatewayException(_) => 502,
            HttpException::ServiceUnavailableException(_) => 503,
            HttpException::GatewayTimeoutException(_) => 504,
            HttpException::HttpVersionNotSupportedException(_) => 505,
        }
    }

    /// The usual phrase of the error's status.
    pub open spec fn default_message(self) -> Seq<char> {
        match self {
            HttpException::BadRequestException(_) => "Bad Request"@,
            HttpException::UnauthorizedException(_) => "Unauthorized"@,
            HttpException::ForbiddenException(_) => "Forbidden"@,
            HttpException::NotFoundException(_) => "Not Found"@,
            HttpException::MethodNotAllowedException(_) => "Method Not Allowed"@,
            HttpException::NotAcceptableException(_) => "Not Acceptable"@,
            HttpException::RequestTimeoutException(_) => "Request Timeout"@,
            HttpException::ConflictException(_) => "Conflict"@,
            HttpException::GoneException(_) => "Gone"@,
            HttpException::PreconditionFailedException(_) => "Precondition Failed"@,
            HttpException::PayloadTooLargeException(_) => "Payload Too Large"@,
            HttpException::UnsupportedMediaTypeException(_) => "Unsupported Media Type"@,
            HttpException::ImATeapotException(_) => "I'm a teapot"@,
            HttpException::UnprocessableEntityException(_) => "Unprocessable Entity"@,
            HttpException::InternalServerErrorException(_) => "Internal Server Error"@,
            HttpException::NotImplementedException(_) => "Not Implemented"@,
            HttpException::BadGatewayException(_) => "Bad Gateway"@,
            HttpException::ServiceUnavailableException(_) => "Service Unavailable"@,
            HttpException::GatewayTimeoutException(_) => "Gateway Timeout"@,
            HttpException::HttpVersionNotSupportedException(_) => "HTTP Version Not Supported"@,
        }
    }

    /// The message that the handler gave the error, if it gave one.
    pub open spec fn custom_message(self) -> Option<String> {
        match self {
            HttpException::BadRequestException(custom) => custom,
            HttpException::UnauthorizedException(custom) => custom,
            HttpException::ForbiddenException(custom) => custom,
            HttpException::NotFoundException(custom) => custom,
            HttpException::MethodNotAllowedException(custom) => custom,
            HttpException::NotAcceptableException(custom) => custom,
            HttpException::RequestTimeoutException(custom) => custom,
            HttpException::ConflictException(custom) => custom,
            HttpException::GoneException(custom) => custom,
            HttpException::PreconditionFailedException(custom) => custom,
            HttpException::PayloadTooLargeException(custom) => custom,
            HttpException::UnsupportedMediaTypeException(custom) => custom,
            HttpException::ImATeapotException(custom) => custom,
            HttpException::UnprocessableEntityException(custom) => custom,
            HttpException::InternalServerErrorException(custom) => custom,
            HttpException::NotImplementedException(custom) => custom,
            HttpException::BadGatewayException(custom) => custom,
            HttpException::ServiceUnavailableException(custom) => custom,
            HttpException::GatewayTimeoutException(custom) => custom,
            HttpException::HttpVersionNotSupportedException(custom) => custom,
        }
    }

    /// The message that the answer shows: the handler's own where there is
    /// one, the usual phrase otherwise.
    pub open spec fn shown_message(self) -> Seq<char> {
        match self.custom_message() {
            Some(custom) => custom@,
            None => self.default_message(),
        }
    }

    /// The status of the error and the usual phrase of that status.
    pub fn status_and_default_message(&self) -> (pair: (u16, &'static str))
        ensures
            pair.0 == self.status(),
            pair.1@ == self.default_message(),
    {
        match self {
            HttpException::BadRequestException(_) => (400, "Bad Request"),
            HttpException::UnauthorizedException(_) => (401, "Unauthorized"),
            HttpException::ForbiddenException(_) => (403, "Forbidden"),
            HttpException::NotFoundException(_) => (404, "Not Found"),
            HttpException::MethodNotAllowedException(_) => (405, "Method Not Allowed"),
            HttpException::NotAcceptableException(_) => (406, "Not Acceptable"),
            HttpException::RequestTimeoutException(_) => (408, "Request Timeout"),
            HttpException::ConflictException(_) => (409, "Conflict"),
            HttpException::GoneException(_) => (410, "Gone"),
            HttpException::PreconditionFailedException(_) => (412, "Precondition Failed"),
            HttpException::PayloadTooLargeException(_) => (413, "Payload Too Large"),
            HttpException::UnsupportedMediaTypeException(_) => (415, "Unsupported Media Type"),
            HttpException::ImATeapotException(_) => (418, "I'm a teapot"),
            HttpException::UnprocessableEntityException(_) => (422, "Unprocessable Entity"),
            HttpException::InternalServerErrorException(_) => (500, "Internal Server Error"),
            HttpException::NotImplementedException(_) => (501, "Not Implemented"),
            HttpException::BadGatewayException(_) => (502, "Bad Gateway"),
            HttpException::ServiceUnavailableException(_) => (503, "Service Unavailable"),
            HttpException::GatewayTimeoutException(_) => (504, "Gateway Timeout"),
            HttpException::HttpVersionNotSupportedException(_) => (505, "HTTP Version Not Supported"),
        }
    }

    /// The handler's own message, taken out of the error.
    fn into_custom_message(self) -> (custom: Option<String>)
        ensures
            custom == self.custom_message(),
    {
        match self {
            HttpException::BadRequestException(custom) => custom,
            HttpException::UnauthorizedException(custom) => custom,
            HttpException::ForbiddenException(custom) => custom,
            HttpException::NotFoundException(custom) => custom,
            HttpException::MethodNotAllowedException(custom) => custom,
            HttpException::NotAcceptableException(custom) => custom,
            HttpException::RequestTimeoutException(custom) => custom,
            HttpException::ConflictException(custom) => custom,
            HttpException::GoneException(custom) => custom,
            HttpException::PreconditionFailedException(custom) => custom,
            HttpException::PayloadTooLargeException(custom) => custom,
            HttpException::UnsupportedMediaTypeException(custom) => custom,
            HttpException::ImATeapotException(custom) => custom,
            HttpException::UnprocessableEntityException(custom) => custom,
            HttpException::InternalServerErrorException(custom) => custom,
            HttpException::NotImplementedException(custom) => custom,
            HttpException::BadGatewayException(custom) => custom,
            HttpException::ServiceUnavailableException(custom) => custom,
            HttpException::GatewayTimeoutException(custom) => custom,
            HttpException::HttpVersionNotSupportedException(custom) => custom,
        }
    }

    /// The usual phrase of the error's status, whatever message the handler
    /// gave: the text under which the error is logged.
    pub fn message(&self) -> (text: String)
        ensures
            text@ == self.default_message(),
    {
        owned(self.status_and_default_message().1)
    }

    /// The answer for the error: its status, and as message the handler's
    /// own where there is one, the usual phrase otherwise.
    pub fn into_response(self) -> (response: ExceptionResponse)
        ensures
            response.status_code == self.status(),
            response.message@ == self.shown_message(),
    {
        let (status, default_message) = self.status_and_default_message();
        let message = match self.into_custom_message() {
            Some(custom) => custom,
            None => owned(default_message),
        };
        ExceptionResponse { status_code: status, message }
    }
}

} // verus!
