//! The List endpoint: files of one folder.
//!
//! The gateway turns the request's query parameters into one remote list
//! call — a filter on the folder, the four queried fields, the read-only
//! scope — and turns the remote answer into the HTTP reply.

use vstd::prelude::*;
use vstd::string::StringExecFns;
use crate::json::push_char;
use crate::query::{get_param, lookup};
use crate::records::{render_list, list_json, RemoteFile};
use crate::reply::{bad_request, json_ok, server_error, HttpReply, ReplyBody};

verus! {

/// One remote list call as the gateway issues it.
pub struct ListPlan {
    /// The filter expression: items whose parent is the given folder.
    pub query: String,
    /// The fields asked of the remote: exactly the four the gateway exposes.
    pub fields: String,
    /// The credential scope of the call.
    pub scope: String,
}

/// Decides a List request from its query parameters: without a `folder_id`
/// the request is rejected with status 400, whatever else it carries; with
/// one, the plan for the remote call is built.
pub fn list_begin(params: &Vec<(String, String)>) -> (r: Result<ListPlan, HttpReply>)
    ensures
        match r {
            Result::Ok(plan) => {
                &&& lookup(params@, "folder_id"@) matches Option::Some(fid) && plan.query@ == seq![
                    '\'',
                ] + fid + "' in parents"@
                &&& plan.fields@ == "files(id,name,mimeType,createdTime)"@
                &&& plan.scope@ == "https://www.googleapis.com/auth/drive.readonly"@
            },
            Result::Err(reply) => {
                &&& lookup(params@, "folder_id"@) is None
                &&& reply.status == 400
                &&& reply.content_type@ == "text/plain; charset=utf-8"@
                &&& reply.body matches ReplyBody::Text(m) && m@
                    == "El parámetro 'folder_id' es requerido."@
            },
        },
{
    let key = String::from_str("folder_id");
    match get_param(params, &key) {
        Option::Some(fid) => {
            let mut query = String::new();
            push_char(&mut query, '\'');
            query.append(fid.as_str());
            query.append("' in parents");
            proof {
                assert(query@ =~= seq!['\''] + fid@ + "' in parents"@);
            }
            Result::Ok(
                ListPlan {
                    query,
                    fields: String::from_str("files(id,name,mimeType,createdTime)"),
                    scope: String::from_str("https://www.googleapis.com/auth/drive.readonly"),
                },
            )
        },
        Option::None => Result::Err(
            bad_request(String::from_str("El parámetro 'folder_id' es requerido.")),
        ),
    }
}

/// The reply for a successful List call: status 200 and a JSON array with
/// each remote record projected onto the exposed fields, in the order the
/// remote answer gave them. A remote answer without a file list counts as
/// an empty one.
pub fn list_success(files: Option<Vec<RemoteFile>>) -> (r: HttpReply)
    ensures
        r.status == 200,
        r.content_type@ == "application/json"@,
        r.body matches ReplyBody::Text(b) && b@ == list_json(
            match files {
                Option::Some(fs) => fs@,
                Option::None => Seq::empty(),
            },
        ),
{
    match files {
        Option::Some(fs) => json_ok(render_list(&fs)),
        Option::None => {
            let empty: Vec<RemoteFile> = Vec::new();
            json_ok(render_list(&empty))
        },
    }
}

/// The reply for a failed remote list call: status 500 and a fixed, generic
/// message. No detail of the failure reaches the caller.
pub fn list_failure() -> (r: HttpReply)
    ensures
        r.status == 500,
        r.content_type@ == "text/plain; charset=utf-8"@,
        r.body matches ReplyBody::Text(m) && m@ == "Error al listar archivos"@,
{
    server_error(String::from_str("Error al listar archivos"))
}

} // verus!
