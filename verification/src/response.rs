//! Responses handed back to the webview, and the errors that a request can
//! end in before it is turned into one.

use crate::mime::plain_text;
use crate::mime::MimeType;
use vstd::prelude::*;
use vstd::string::StrSliceExecFns;
use vstd::string::StringExecFns;
use vstd::utf8::encode_utf8;

verus! {

/// Status of a response that carries a resource, or stands in for one.
pub const STATUS_OK: u16 = 200;

/// Status of a response that reports a failed request.
pub const STATUS_FAILURE: u16 = 500;

/// What the webview gets back: a status, at most one content type header,
/// and the body bytes.
#[derive(Clone, Debug, PartialEq, Eq)]
pub struct ResourceResponse {
    pub status: u16,
    pub content_type: Option<String>,
    pub body: Vec<u8>,
}

/// Mathematical value of a [`ResourceResponse`].
pub struct ResponseModel {
    pub status: int,
    pub content_type: Option<Seq<char>>,
    pub body: Seq<u8>,
}

impl View for ResourceResponse {
    type V = ResponseModel;

    open spec fn view(&self) -> ResponseModel {
        ResponseModel {
            status: self.status as int,
            content_type: match self.content_type {
                Some(header) => Some(header@),
                None => None,
            },
            body: self.body@,
        }
    }
}

/// Why a request could not be served.
#[derive(Clone, Debug, PartialEq, Eq)]
pub enum ResourceError {
    /// The requested path did not lead to readable bytes; the text is the
    /// platform's account of what went wrong.
    ResourceNotFound(String),
    /// The resource exists, but its extension is not in the MIME table.
    UnsupportedMimeType,
}

/// Mathematical value of a [`ResourceError`].
pub enum ErrorModel {
    ResourceNotFound(Seq<char>),
    UnsupportedMimeType,
}

impl View for ResourceError {
    type V = ErrorModel;

    open spec fn view(&self) -> ErrorModel {
        match self {
            ResourceError::ResourceNotFound(text) => ErrorModel::ResourceNotFound(text@),
            ResourceError::UnsupportedMimeType => ErrorModel::UnsupportedMimeType,
        }
    }
}

/// Text reported for a failed read that came without a description.
pub open spec fn unavailable_text() -> Seq<char> {
    "resource unavailable"@
}

/// Text reported for a resource whose extension the MIME table lacks.
pub open spec fn unsupported_text() -> Seq<char> {
    "unsupported resource type"@
}

impl ErrorModel {
    /// What the error says of itself. It is never empty: a failed read that
    /// came without a description is reported as unavailable.
    pub open spec fn description(self) -> Seq<char> {
        match self {
            ErrorModel::ResourceNotFound(text) => if text.len() == 0 {
                unavailable_text()
            } else {
                text
            },
            ErrorModel::UnsupportedMimeType => unsupported_text(),
        }
    }
}

/// The response that carries a resource of the given type.
pub open spec fn success_response(mime: MimeType, bytes: Seq<u8>) -> ResponseModel {
    ResponseModel { status: 200, content_type: Some(mime.text()), body: bytes }
}

/// The response that reports `error`: its description, as UTF-8 plain text.
pub open spec fn failure_response(error: ErrorModel) -> ResponseModel {
    ResponseModel {
        status: 500,
        content_type: Some(plain_text()),
        body: encode_utf8(error.description()),
    }
}

/// The response given where local resources cannot be resolved at all.
pub open spec fn degraded_response() -> ResponseModel {
    ResponseModel { status: 200, content_type: None, body: Seq::empty() }
}

/// Text that is not empty encodes to at least one byte.
pub proof fn lemma_encoding_nonempty(text: Seq<char>)
    requires
        text.len() > 0,
    ensures
        encode_utf8(text).len() > 0,
{
    assert(vstd::utf8::encode_scalar(text[0] as u32).len() > 0);
}

/// Every error has something to say.
pub proof fn lemma_description_nonempty(error: ErrorModel)
    ensures
        error.description().len() > 0,
{
    reveal_strlit("resource unavailable");
    reveal_strlit("unsupported resource type");
}

impl ResourceError {
    /// The error's textual description.
    pub fn description(&self) -> (text: String)
        ensures
            text@ == self@.description(),
    {
        match self {
            ResourceError::ResourceNotFound(text) => {
                if text.as_str().unicode_len() == 0 {
                    String::from_str("resource unavailable")
                } else {
                    text.clone()
                }
            },
            ResourceError::UnsupportedMimeType => String::from_str("unsupported resource type"),
        }
    }
}

impl ResourceResponse {
    /// A successful response carrying `body` as a resource of type `mime`.
    pub fn success(mime: MimeType, body: Vec<u8>) -> (response: ResourceResponse)
        ensures
            response@ == success_response(mime, body@),
    {
        ResourceResponse {
            status: STATUS_OK,
            content_type: Some(String::from_str(mime.as_str())),
            body,
        }
    }

    /// The failure response that reports `error`.
    pub fn failure(error: &ResourceError) -> (response: ResourceResponse)
        ensures
            response@ == failure_response(error@),
    {
        proof {
            reveal_strlit("text/plain");
        }
        assert("text/plain"@ =~= plain_text());
        let text: String = error.description();
        ResourceResponse {
            status: STATUS_FAILURE,
            content_type: Some(String::from_str("text/plain")),
            body: text.as_str().as_bytes_vec(),
        }
    }

    /// The empty successful response of a platform without local resources.
    pub fn degraded() -> (response: ResourceResponse)
        ensures
            response@ == degraded_response(),
    {
        ResourceResponse { status: STATUS_OK, content_type: None, body: Vec::new() }
    }
}

} // verus!
