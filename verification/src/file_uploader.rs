//! Naming and placement of uploaded files, chunk concatenation plans and
//! the status replies of the upload endpoints.
use vstd::prelude::*;
use crate::constants::{TMP_DIR, UPLOAD_DIR};
use crate::paths::{concat, decimal, file_name_of, join_path, path_file_name, path_join, usize_to_string};

verus! {

/// A status reply: `OK` or `ERROR`, with a message.
#[derive(Debug)]
pub struct ApiStatus {
    pub ok: bool,
    pub msg: String,
}

/// The file name left of a user-provided name: its final component, or
/// the empty name when it has none (the empty name among them).
pub open spec fn sanitized(filename: Seq<char>) -> Seq<char> {
    if filename.len() == 0 {
        Seq::<char>::empty()
    } else {
        match path_file_name(filename) {
            Some(n) => n,
            None => Seq::<char>::empty(),
        }
    }
}

/// Remove any directory components from user provided file names. The
/// name left is neither `.` nor `..`, and holds no `/` unless the name
/// given begins with `\` (on Windows, a verbatim path).
pub fn sanitize_filename(filename: &str) -> (r: String)
    ensures
        r@ == sanitized(filename@),
        (filename@.len() == 0 || filename@[0] != '\\') ==> !r@.contains('/'),
        r@ != "."@,
        r@ != ".."@,
{
    proof {
        reveal_strlit(".");
        reveal_strlit("..");
    }
    match file_name_of(filename) {
        Some(n) => n,
        None => {
            let r = String::new();
            assert(r@.len() == 0);
            r
        },
    }
}

/// Where an upload is stored: its sanitized name and its path in the
/// upload directory.
#[derive(Debug)]
pub struct UploadTarget {
    pub safe_name: String,
    pub path: String,
}

/// The target of an upload that carried the form fields `filename` and
/// `file`; without either, the error reply `uploaded file is not found.`.
pub fn upload_target(filename: Option<&str>, has_file: bool) -> (r: Result<UploadTarget, ApiStatus>)
    ensures
        match filename {
            Some(name) => has_file ==> (r matches Ok(t) && t.safe_name@ == sanitized(name@) && t.path@ == path_join(
                UPLOAD_DIR@,
                sanitized(name@),
            )),
            None => true,
        },
        (filename is None || !has_file) ==> (r matches Err(e) && !e.ok && e.msg@ == "uploaded file is not found."@),
{
    match filename {
        Some(name) => {
            if has_file {
                let safe_name = sanitize_filename(name);
                let path = join_path(UPLOAD_DIR, safe_name.as_str());
                return Ok(UploadTarget { safe_name, path });
            }
        },
        None => {},
    }
    Err(ApiStatus { ok: false, msg: String::from_str("uploaded file is not found.") })
}

/// The reply to a stored upload: `uploaded files <name>`.
pub fn upload_done(safe_name: &str) -> (r: ApiStatus)
    ensures
        r.ok,
        r.msg@ == "uploaded files "@ + safe_name@,
{
    ApiStatus { ok: true, msg: concat("uploaded files ", safe_name) }
}

/// An error reply naming the step that failed (`create_dir`, `open`,
/// `write`).
pub fn step_failed(step: &str) -> (r: ApiStatus)
    ensures
        !r.ok,
        r.msg@ == step@,
{
    ApiStatus { ok: false, msg: String::from_str(step) }
}

/// How chunks are joined: the target file in the upload directory and the
/// chunk files `<name>_0`, `<name>_1`, ... appended to it in order.
#[derive(Debug)]
pub struct ConcatPlan {
    pub safe_name: String,
    pub target: String,
    pub chunks: Vec<String>,
}

/// The name of chunk `i` of the file `name`.
pub open spec fn chunk_name(name: Seq<char>, i: nat) -> Seq<char> {
    name + "_"@ + decimal(i)
}

/// The plan that joins the `chunk_num` uploaded chunks of `filename`.
pub fn concat_plan(filename: &str, chunk_num: usize) -> (r: ConcatPlan)
    ensures
        r.safe_name@ == sanitized(filename@),
        r.target@ == path_join(UPLOAD_DIR@, r.safe_name@),
        r.chunks@.len() == chunk_num,
        forall|i: int| 0 <= i < chunk_num ==> (#[trigger] r.chunks@[i])@ == path_join(UPLOAD_DIR@, chunk_name(r.safe_name@, i as nat)),
{
    let safe_name = sanitize_filename(filename);
    let target = join_path(UPLOAD_DIR, safe_name.as_str());
    let mut chunks: Vec<String> = Vec::new();
    let mut i: usize = 0;
    while i < chunk_num
        invariant
            i <= chunk_num,
            chunks@.len() == i,
            forall|j: int| 0 <= j < i ==> (#[trigger] chunks@[j])@ == path_join(UPLOAD_DIR@, chunk_name(safe_name@, j as nat)),
        decreases chunk_num - i,
    {
        let prefix = concat(safe_name.as_str(), "_");
        let num = usize_to_string(i);
        let name = concat(prefix.as_str(), num.as_str());
        chunks.push(join_path(UPLOAD_DIR, name.as_str()));
        i = i + 1;
    }
    ConcatPlan { safe_name, target, chunks }
}

/// The reply to a finished concatenation: `concat files <name>`.
pub fn concat_done(safe_name: &str) -> (r: ApiStatus)
    ensures
        r.ok,
        r.msg@ == "concat files "@ + safe_name@,
{
    ApiStatus { ok: true, msg: concat("concat files ", safe_name) }
}

/// A file in the temporary directory, where model merges and exports
/// are written.
pub fn tmp_file_path(name: &str) -> (r: String)
    ensures
        r@ == path_join(TMP_DIR@, name@),
{
    join_path(TMP_DIR, name)
}

} // verus!
