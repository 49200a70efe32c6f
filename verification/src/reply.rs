//! HTTP replies as the gateway shapes them.
//!
//! A reply is the whole of what a handler decides: the status code, the
//! content type, and the body. The surrounding server sends it out without
//! looking inside.

use vstd::prelude::*;
use vstd::string::StringExecFns;

verus! {

/// The body of a gateway reply: text (a JSON document or an error message)
/// or the raw bytes of a downloaded file.
pub enum ReplyBody {
    Text(String),
    Raw(Vec<u8>),
}

/// An HTTP response as the gateway decides it.
pub struct HttpReply {
    pub status: u16,
    pub content_type: String,
    pub body: ReplyBody,
}

/// A rejected request: status 400 with a human-readable message.
pub fn bad_request(msg: String) -> (r: HttpReply)
    ensures
        r.status == 400,
        r.content_type@ == "text/plain; charset=utf-8"@,
        r.body == ReplyBody::Text(msg),
{
    HttpReply {
        status: 400,
        content_type: String::from_str("text/plain; charset=utf-8"),
        body: ReplyBody::Text(msg),
    }
}

/// A failed remote call: status 500 with a fixed, generic message. The
/// message is all a caller learns; whatever detail the failure carried is
/// not part of the reply.
pub fn server_error(msg: String) -> (r: HttpReply)
    ensures
        r.status == 500,
        r.content_type@ == "text/plain; charset=utf-8"@,
        r.body == ReplyBody::Text(msg),
{
    HttpReply {
        status: 500,
        content_type: String::from_str("text/plain; charset=utf-8"),
        body: ReplyBody::Text(msg),
    }
}

/// A successful JSON reply: status 200 with the given document.
pub fn json_ok(body: String) -> (r: HttpReply)
    ensures
        r.status == 200,
        r.content_type@ == "application/json"@,
        r.body == ReplyBody::Text(body),
{
    HttpReply {
        status: 200,
        content_type: String::from_str("application/json"),
        body: ReplyBody::Text(body),
    }
}

/// A successful download reply: status 200, the bytes verbatim, and the
/// content type fixed to `application/pdf`.
pub fn pdf_ok(content: Vec<u8>) -> (r: HttpReply)
    ensures
        r.status == 200,
        r.content_type@ == "application/pdf"@,
        r.body == ReplyBody::Raw(content),
{
    HttpReply {
        status: 200,
        content_type: String::from_str("application/pdf"),
        body: ReplyBody::Raw(content),
    }
}

} // verus!
