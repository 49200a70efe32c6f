//! The Download endpoint: one file's raw content by identifier.
//!
//! The gateway asks the remote for the file's media under the read-only
//! scope and hands the collected bytes back verbatim, always under the
//! content type `application/pdf`, whatever the stored file's own type is.

use vstd::prelude::*;
use vstd::string::StringExecFns;
use crate::reply::{pdf_ok, server_error, HttpReply, ReplyBody};

verus! {

/// One remote media-get call as the gateway issues it.
pub struct DownloadPlan {
    /// The identifier of the file asked for.
    pub file_id: String,
    /// The form of the answer: the file's raw media.
    pub alt: String,
    /// The credential scope of the call.
    pub scope: String,
}

/// The plan for a Download: the file's media, read-only.
pub fn download_begin(file_id: String) -> (r: DownloadPlan)
    ensures
        r.file_id == file_id,
        r.alt@ == "media"@,
        r.scope@ == "https://www.googleapis.com/auth/drive.readonly"@,
{
    DownloadPlan {
        file_id,
        alt: String::from_str("media"),
        scope: String::from_str("https://www.googleapis.com/auth/drive.readonly"),
    }
}

/// The reply for a successful Download: status 200, the collected bytes
/// verbatim, and the content type fixed to `application/pdf` — also when
/// the stored file's own MIME type differs.
pub fn download_success(content: Vec<u8>) -> (r: HttpReply)
    ensures
        r.status == 200,
        r.content_type@ == "application/pdf"@,
        r.body == ReplyBody::Raw(content),
{
    pdf_ok(content)
}

/// The reply when the remote call fails: status 500 and a fixed, generic
/// message. No detail of the failure reaches the caller.
pub fn download_failure() -> (r: HttpReply)
    ensures
        r.status == 500,
        r.content_type@ == "text/plain; charset=utf-8"@,
        r.body matches ReplyBody::Text(m) && m@ == "Error al descargar archivo"@,
{
    server_error(String::from_str("Error al descargar archivo"))
}

/// The reply when the answer's body cannot be collected: status 500 and a
/// fixed, generic message.
pub fn download_read_failure() -> (r: HttpReply)
    ensures
        r.status == 500,
        r.content_type@ == "text/plain; charset=utf-8"@,
        r.body matches ReplyBody::Text(m) && m@ == "Error al leer el archivo"@,
{
    server_error(String::from_str("Error al leer el archivo"))
}

} // verus!
