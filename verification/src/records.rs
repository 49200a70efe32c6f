//! File records: the gateway's model of a remote file object, the record it
//! exposes to its own callers, and the JSON rendering of both.
//!
//! The remote store's file object is rich; the gateway traffics only in the
//! plain fields modelled here. A `RemoteFile` carries what a remote answer
//! can hand the gateway; a `FileRecord` is the projection the List endpoint
//! exposes: exactly the four queried fields and nothing else.

use vstd::prelude::*;
use vstd::string::StringExecFns;
use crate::json::{
    escaped, quoted, joined, member, push_char, quote_json, render_member, JsonJoiner,
};

verus! {

/// What the gateway reads of a remote file object, each field as a plain
/// value. Fields the remote did not send are `None`. `kind` and `size`
/// ride along in upload answers but are never part of a List response.
pub struct RemoteFile {
    pub id: Option<String>,
    pub name: Option<String>,
    pub mime_type: Option<String>,
    pub created_time: Option<String>,
    pub kind: Option<String>,
    pub size: Option<String>,
}

/// A record as the List endpoint exposes it: exactly the four queried
/// fields.
pub struct FileRecord {
    pub id: Option<String>,
    pub name: Option<String>,
    pub mime_type: Option<String>,
    pub created_time: Option<String>,
}

/// The projection of a remote file onto the fields the gateway exposes.
pub open spec fn projected(f: RemoteFile) -> FileRecord {
    FileRecord { id: f.id, name: f.name, mime_type: f.mime_type, created_time: f.created_time }
}

fn clone_opt(o: &Option<String>) -> (r: Option<String>)
    ensures
        r == *o,
{
    match o {
        Option::Some(s) => Option::Some(s.clone()),
        Option::None => Option::None,
    }
}

/// Projects a remote file onto a `FileRecord`.
pub fn project(f: &RemoteFile) -> (r: FileRecord)
    ensures
        r == projected(*f),
{
    FileRecord {
        id: clone_opt(&f.id),
        name: clone_opt(&f.name),
        mime_type: clone_opt(&f.mime_type),
        created_time: clone_opt(&f.created_time),
    }
}

/// A string field as JSON: a quoted literal when present, `null` when
/// absent.
pub open spec fn nullable(o: Option<String>) -> Seq<char> {
    match o {
        Option::Some(s) => quoted(s@),
        Option::None => seq!['n', 'u', 'l', 'l'],
    }
}

fn render_nullable(o: &Option<String>) -> (r: String)
    ensures
        r@ == nullable(*o),
{
    match o {
        Option::Some(s) => quote_json(s.as_str()),
        Option::None => {
            let mut out = String::new();
            push_char(&mut out, 'n');
            push_char(&mut out, 'u');
            push_char(&mut out, 'l');
            push_char(&mut out, 'l');
            proof {
                assert(out@ =~= seq!['n', 'u', 'l', 'l']);
            }
            out
        },
    }
}

/// The members of one List entry, in the order the gateway writes them.
/// Every entry carries exactly these four keys.
pub open spec fn entry_members(r: FileRecord) -> Seq<Seq<char>> {
    seq![
        member("id"@, nullable(r.id)),
        member("name"@, nullable(r.name)),
        member("mime_type"@, nullable(r.mime_type)),
        member("created_time"@, nullable(r.created_time)),
    ]
}

/// One List entry as a JSON object.
pub open spec fn entry_json(r: FileRecord) -> Seq<char> {
    seq!['{'] + joined(entry_members(r)) + seq!['}']
}

/// Renders one List entry.
pub fn render_entry(r: &FileRecord) -> (out: String)
    ensures
        out@ == entry_json(*r),
{
    let mut j = JsonJoiner::new();
    j.add(render_member("id", render_nullable(&r.id)));
    j.add(render_member("name", render_nullable(&r.name)));
    j.add(render_member("mime_type", render_nullable(&r.mime_type)));
    j.add(render_member("created_time", render_nullable(&r.created_time)));
    proof {
        assert(j.parts() =~= entry_members(*r));
    }
    let body = j.finish();
    let mut out = String::new();
    push_char(&mut out, '{');
    out.append(body.as_str());
    push_char(&mut out, '}');
    proof {
        assert(out@ =~= entry_json(*r));
    }
    out
}

/// The entries of a List response: each remote file projected, in the
/// order the remote answer gave them.
pub open spec fn entries(files: Seq<RemoteFile>) -> Seq<Seq<char>> {
    files.map_values(|f: RemoteFile| entry_json(projected(f)))
}

/// A whole List response body: a JSON array of the projected entries.
pub open spec fn list_json(files: Seq<RemoteFile>) -> Seq<char> {
    seq!['['] + joined(entries(files)) + seq![']']
}

/// Renders a List response body.
pub fn render_list(files: &Vec<RemoteFile>) -> (out: String)
    ensures
        out@ == list_json(files@),
{
    let mut j = JsonJoiner::new();
    let n = files.len();
    let mut i: usize = 0;
    proof {
        assert(entries(files@.take(0)) =~= Seq::<Seq<char>>::empty());
    }
    while i < n
        invariant
            i <= n,
            n == files@.len(),
            j.wf(),
            j.parts() == entries(files@.take(i as int)),
        decreases n - i,
    {
        let rec = project(&files[i]);
        let e = render_entry(&rec);
        j.add(e);
        proof {
            assert(entries(files@.take(i as int + 1)) =~= entries(files@.take(i as int)).push(
                entry_json(projected(files@[i as int])),
            ));
        }
        i = i + 1;
    }
    proof {
        assert(files@.take(n as int) =~= files@);
    }
    let body = j.finish();
    let mut out = String::new();
    push_char(&mut out, '[');
    out.append(body.as_str());
    push_char(&mut out, ']');
    proof {
        assert(out@ =~= list_json(files@));
    }
    out
}

/// No field of a remote file beyond the four queried ones can reach a List
/// response: two remote files that agree on those four fields render to the
/// same entry, whatever their other fields hold.
pub proof fn lemma_entry_reads_only_queried_fields(a: RemoteFile, b: RemoteFile)
    requires
        a.id == b.id,
        a.name == b.name,
        a.mime_type == b.mime_type,
        a.created_time == b.created_time,
    ensures
        entry_json(projected(a)) == entry_json(projected(b)),
{
    assert(projected(a) == projected(b));
}

/// The same, for a whole List response: two remote answers that agree
/// pointwise on the four queried fields render to the same body, whatever
/// their other fields hold.
pub proof fn lemma_list_reads_only_queried_fields(a: Seq<RemoteFile>, b: Seq<RemoteFile>)
    requires
        a.len() == b.len(),
        forall|i: int|
            0 <= i < a.len() ==> #[trigger] a[i].id == b[i].id && a[i].name == b[i].name
                && a[i].mime_type == b[i].mime_type && a[i].created_time == b[i].created_time,
    ensures
        list_json(a) == list_json(b),
{
    assert forall|i: int| 0 <= i < a.len() implies entries(a)[i] == entries(b)[i] by {
        lemma_entry_reads_only_queried_fields(a[i], b[i]);
    }
    assert(entries(a) =~= entries(b));
}

/// The member for one present field of a created-file answer, or nothing
/// where the remote sent none.
pub open spec fn opt_member(key: Seq<char>, o: Option<String>) -> Seq<Seq<char>> {
    match o {
        Option::Some(s) => seq![member(key, quoted(s@))],
        Option::None => Seq::empty(),
    }
}

/// The members of a created-file object, under the remote API's own field
/// names; absent fields are left out.
pub open spec fn created_members(f: RemoteFile) -> Seq<Seq<char>> {
    opt_member("kind"@, f.kind) + opt_member("id"@, f.id) + opt_member("name"@, f.name)
        + opt_member("mimeType"@, f.mime_type) + opt_member("createdTime"@, f.created_time)
        + opt_member("size"@, f.size)
}

/// A created-file answer as a JSON object.
pub open spec fn created_json(f: RemoteFile) -> Seq<char> {
    seq!['{'] + joined(created_members(f)) + seq!['}']
}

fn add_opt_member(j: &mut JsonJoiner, key: &str, o: &Option<String>)
    requires
        old(j).wf(),
    ensures
        final(j).wf(),
        final(j).parts() == old(j).parts() + opt_member(key@, *o),
{
    match o {
        Option::Some(s) => {
            j.add(render_member(key, quote_json(s.as_str())));
            proof {
                assert(j.parts() =~= old(j).parts() + opt_member(key@, *o));
            }
        },
        Option::None => {
            proof {
                assert(j.parts() =~= old(j).parts() + opt_member(key@, *o));
            }
        },
    }
}

/// Renders the created-file object of a successful Upload.
pub fn render_created(f: &RemoteFile) -> (out: String)
    ensures
        out@ == created_json(*f),
{
    let mut j = JsonJoiner::new();
    add_opt_member(&mut j, "kind", &f.kind);
    add_opt_member(&mut j, "id", &f.id);
    add_opt_member(&mut j, "name", &f.name);
    add_opt_member(&mut j, "mimeType", &f.mime_type);
    add_opt_member(&mut j, "createdTime", &f.created_time);
    add_opt_member(&mut j, "size", &f.size);
    proof {
        assert(j.parts() =~= created_members(*f));
    }
    let body = j.finish();
    let mut out = String::new();
    push_char(&mut out, '{');
    out.append(body.as_str());
    push_char(&mut out, '}');
    proof {
        assert(out@ =~= created_json(*f));
    }
    out
}

} // verus!
