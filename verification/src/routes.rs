//! What the handlers of the JSON API decide, apart from reading requests
//! and writing answers.

use vstd::prelude::*;
use crate::dtos::AccessCodeDto;
use crate::exception::HttpException;
use crate::synclan::ISynclan;
use crate::text::{joined, owned, str_eq};

verus! {

/// Status of an answer that went well.
pub const STATUS_OK: u16 = 200;

/// Status of an answer that sends the client elsewhere for now.
pub const STATUS_TEMPORARY_REDIRECT: u16 = 307;

/// What a handler answers with when all went well.
#[derive(Debug)]
pub enum HttpResponse<T> {
    Json { payload: Option<T>, message: Option<String> },
    RedirectTo { uri: String },
}

/// The body of a JSON answer.
#[derive(Debug)]
pub struct JsonResponse<T> {
    pub status_code: u16,
    pub payload: T,
    pub message: Option<String>,
}

/// An answer, ready to be written.
#[derive(Debug)]
pub enum Rendered<T> {
    /// A JSON body under its status.
    Json { status: u16, body: JsonResponse<Option<T>> },
    /// A redirection to `location`.
    Redirect { status: u16, location: String },
}

impl<T> HttpResponse<T> {
    /// The answer to write: a JSON answer has status 200, in its body too; a
    /// redirection is temporary.
    pub fn into_response(self) -> (rendered: Rendered<T>)
        ensures
            match self {
                HttpResponse::Json { payload, message } => rendered == (Rendered::Json {
                    status: STATUS_OK,
                    body: JsonResponse { status_code: STATUS_OK, payload, message },
                }),
                HttpResponse::RedirectTo { uri } => rendered == (Rendered::<T>::Redirect {
                    status: STATUS_TEMPORARY_REDIRECT,
                    location: uri,
                }),
            },
    {
        match self {
            HttpResponse::Json { payload, message } => Rendered::Json {
                status: STATUS_OK,
                body: JsonResponse { status_code: STATUS_OK, payload, message },
            },
            HttpResponse::RedirectTo { uri } => Rendered::Redirect {
                status: STATUS_TEMPORARY_REDIRECT,
                location: uri,
            },
        }
    }
}

/// Checks the access code that a peer presents against the one of the
/// latest document. The peer is let in exactly if the document holds a code
/// and the presented one equals it; anything else is answered with 401.
pub fn verify_access_code(latest: &ISynclan, input: &AccessCodeDto) -> (verdict: Result<
    HttpResponse<()>,
    HttpException,
>)
    ensures
        latest@.authorized_access_code == Some(input.code@) ==> {
            &&& verdict matches Ok(HttpResponse::Json { payload, message })
            &&& payload is None
            &&& message.deep_view() == Some("Authorization code verification passed."@)
        },
        latest@.authorized_access_code != Some(input.code@) ==> {
            &&& verdict matches Err(HttpException::UnauthorizedException(custom))
            &&& custom is None
        },
{
    match &latest.authorized_access_code {
        Some(code) => {
            if str_eq(code.as_str(), input.code.as_str()) {
                Ok(
                    HttpResponse::Json {
                        payload: None,
                        message: Some(owned("Authorization code verification passed.")),
                    },
                )
            } else {
                Err(HttpException::UnauthorizedException(None))
            }
        },
        None => Err(HttpException::UnauthorizedException(None)),
    }
}

/// Where an upload goes.
#[derive(Debug)]
pub struct UploadTarget {
    /// The upload directory of the document.
    pub root: String,
    /// The folder of the day, below the root.
    pub folder: String,
    /// The name of the file, below the folder.
    pub file_name: String,
    /// What the client is told: folder and file name, with a slash between.
    pub payload: String,
}

/// Decides where a file that is uploaded on the day `date` under the name
/// `file_name` goes. Without an upload directory in the committed document
/// uploads are not available (503).
pub fn upload_handler(committed: &ISynclan, date: &str, file_name: &str) -> (target: Result<
    UploadTarget,
    HttpException,
>)
    ensures
        match committed@.file_upload_dir {
            Some(dir) => {
                &&& target matches Ok(t)
                &&& t.root@ == dir
                &&& t.folder@ == date@
                &&& t.file_name@ == file_name@
                &&& t.payload@ == date@ + "/"@ + file_name@
            },
            None => {
                &&& target matches Err(HttpException::ServiceUnavailableException(custom))
                &&& custom.deep_view() == Some("File upload directory is not configured."@)
            },
        },
{
    match &committed.file_upload_dir {
        Some(dir) => Ok(
            UploadTarget {
                root: dir.clone(),
                folder: owned(date),
                file_name: owned(file_name),
                payload: joined(joined(date, "/").as_str(), file_name),
            },
        ),
        None => Err(
            HttpException::ServiceUnavailableException(
                Some(owned("File upload directory is not configured.")),
            ),
        ),
    }
}

} // verus!
