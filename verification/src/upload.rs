//! The Upload endpoint: one file into one folder.
//!
//! The multipart body arrives part by part and chunk by chunk; an
//! `UploadAssembly` gathers it. Once the body is read, `finish` decides the
//! request: an empty body or a missing `folder_id` is rejected with status
//! 400, anything else becomes the plan for the remote create call. Two
//! identical requests build two identical plans — the gateway keeps no
//! identity of what it uploaded and never deduplicates; every accepted
//! request creates one more remote object.

use vstd::prelude::*;
use vstd::string::StringExecFns;
use crate::query::{get_param, lookup};
use crate::records::{render_created, created_json, RemoteFile};
use crate::reply::{bad_request, json_ok, server_error, HttpReply, ReplyBody};

verus! {

/// One remote create call as the gateway issues it.
pub struct UploadPlan {
    /// The name of the created file: the declared filename, or the default.
    pub name: String,
    /// The content type the gateway fixes for uploads.
    pub mime_type: String,
    /// The sole parent of the created file: the requested folder.
    pub parents: Vec<String>,
    /// The buffered bytes to upload.
    pub content: Vec<u8>,
}

/// Gathers the one file part of an Upload request as the multipart body
/// arrives: the declared filename if any part declares one (the default
/// name otherwise), and the content chunks concatenated in order.
pub struct UploadAssembly {
    pub name: String,
    pub content: Vec<u8>,
}

impl UploadAssembly {
    /// An empty assembly: no content yet, the default filename.
    pub fn new() -> (r: Self)
        ensures
            r.name@ == "uploaded.pdf"@,
            r.content@ == Seq::<u8>::empty(),
    {
        UploadAssembly { name: String::from_str("uploaded.pdf"), content: Vec::new() }
    }

    /// A new part begins: a declared filename replaces the name held so
    /// far; a part without one leaves it.
    pub fn begin_part(&mut self, filename: Option<String>)
        ensures
            final(self).content == old(self).content,
            final(self).name@ == match filename {
                Option::Some(f) => f@,
                Option::None => old(self).name@,
            },
    {
        match filename {
            Option::Some(f) => {
                self.name = f;
            },
            Option::None => {},
        }
    }

    /// One chunk of the part's content arrives and is appended.
    pub fn push_chunk(&mut self, chunk: &[u8])
        ensures
            final(self).name == old(self).name,
            final(self).content@ == old(self).content@ + chunk@,
    {
        let n = chunk.len();
        let mut i: usize = 0;
        proof {
            assert(old(self).content@ + chunk@.take(0) =~= old(self).content@);
        }
        while i < n
            invariant
                i <= n,
                n == chunk@.len(),
                self.name == old(self).name,
                self.content@ == old(self).content@ + chunk@.take(i as int),
            decreases n - i,
        {
            let b = chunk[i];
            self.content.push(b);
            proof {
                assert(old(self).content@ + chunk@.take(i as int + 1) =~= (old(self).content@
                    + chunk@.take(i as int)).push(chunk@[i as int]));
            }
            i = i + 1;
        }
        proof {
            assert(chunk@.take(n as int) =~= chunk@);
        }
    }

    /// Decides the Upload once the whole body is read: an empty body is
    /// rejected first, then a missing `folder_id`; otherwise the plan for
    /// the remote create call, with the gateway's fixed content type and
    /// the folder as the sole parent.
    pub fn finish(self, params: &Vec<(String, String)>) -> (r: Result<UploadPlan, HttpReply>)
        ensures
            match r {
                Result::Ok(plan) => {
                    &&& self.content@.len() > 0
                    &&& lookup(params@, "folder_id"@) matches Option::Some(fid)
                        && plan.parents@.len() == 1 && plan.parents@[0]@ == fid
                    &&& plan.name == self.name
                    &&& plan.mime_type@ == "application/pdf"@
                    &&& plan.content == self.content
                },
                Result::Err(reply) => {
                    &&& self.content@.len() == 0 || lookup(params@, "folder_id"@) is None
                    &&& reply.status == 400
                    &&& reply.content_type@ == "text/plain; charset=utf-8"@
                    &&& reply.body matches ReplyBody::Text(m) && m@ == (if self.content@.len()
                        == 0 {
                        "El archivo está vacío."@
                    } else {
                        "El parámetro 'folder_id' es requerido."@
                    })
                },
            },
    {
        if self.content.len() == 0 {
            return Result::Err(bad_request(String::from_str("El archivo está vacío.")));
        }
        let key = String::from_str("folder_id");
        match get_param(params, &key) {
            Option::Some(fid) => {
                let mut parents: Vec<String> = Vec::new();
                parents.push(fid);
                Result::Ok(
                    UploadPlan {
                        name: self.name,
                        mime_type: String::from_str("application/pdf"),
                        parents,
                        content: self.content,
                    },
                )
            },
            Option::None => Result::Err(
                bad_request(String::from_str("El parámetro 'folder_id' es requerido.")),
            ),
        }
    }
}

/// The reply for a successful Upload: status 200 and the created-file
/// object the remote answered with, as JSON.
pub fn upload_success(created: &RemoteFile) -> (r: HttpReply)
    ensures
        r.status == 200,
        r.content_type@ == "application/json"@,
        r.body matches ReplyBody::Text(b) && b@ == created_json(*created),
{
    json_ok(render_created(created))
}

/// The reply when a chunk of the multipart body cannot be read: status 500
/// and a fixed, generic message.
pub fn upload_read_failure() -> (r: HttpReply)
    ensures
        r.status == 500,
        r.content_type@ == "text/plain; charset=utf-8"@,
        r.body matches ReplyBody::Text(m) && m@ == "Error al leer el archivo"@,
{
    server_error(String::from_str("Error al leer el archivo"))
}

/// The reply for a failed remote create call: status 500 and a fixed,
/// generic message. No detail of the failure reaches the caller.
pub fn upload_failure() -> (r: HttpReply)
    ensures
        r.status == 500,
        r.content_type@ == "text/plain; charset=utf-8"@,
        r.body matches ReplyBody::Text(m) && m@ == "Error al subir archivo"@,
{
    server_error(String::from_str("Error al subir archivo"))
}

} // verus!
