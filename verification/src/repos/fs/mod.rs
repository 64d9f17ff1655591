//! Where the file-backed stores keep their records, and how they read them.
use vstd::prelude::*;

use crate::routes::static_fs::{extension, extension_seq, file_name, file_name_seq};
use crate::text::{concat2, concat3, ends_with_seq, starts_with_seq, str_eq};

pub mod account;
pub mod login_session;
pub mod runtime_log;
pub mod source;

verus! {

/// `Path::join` on Unix: an absolute `rel` replaces `base`; otherwise `rel` is
/// appended, with a `/` between them unless `base` is empty or ends with one.
pub open spec fn join_path_seq(base: Seq<char>, rel: Seq<char>) -> Seq<char> {
    if rel.len() > 0 && rel[0] == '/' {
        rel
    } else if base.len() == 0 || base.last() == '/' {
        base + rel
    } else {
        base + "/"@ + rel
    }
}

/// `Path::join` on Unix.
pub fn join_path(base: &str, rel: &str) -> (r: String)
    ensures
        r@ == join_path_seq(base@, rel@),
{
    let b = crate::text::chars_of(base);
    let r = crate::text::chars_of(rel);
    if r.len() > 0 && r[0] == '/' {
        String::from_str(rel)
    } else if b.len() == 0 || b[b.len() - 1] == '/' {
        concat2(base, rel)
    } else {
        concat3(base, "/", rel)
    }
}

/// The record file of `id` in `dir`: `{dir}/{id}.json`.
pub open spec fn record_path_seq(dir: Seq<char>, id: Seq<char>) -> Seq<char> {
    join_path_seq(dir, id + ".json"@)
}

/// The record file of `id` in `dir`.
pub fn record_path(dir: &str, id: &str) -> (r: String)
    ensures
        r@ == record_path_seq(dir@, id@),
{
    let name = concat2(id, ".json");
    join_path(dir, name.as_str())
}

/// A directory entry is a record file: its extension is `json`.
pub open spec fn is_record_path(path: Seq<char>) -> bool {
    match file_name_seq(path) {
        Some(n) => extension_seq(n) == Some("json"@),
        None => false,
    }
}

/// Whether a directory entry is a record file (`path.extension() == Some("json")`).
pub fn has_json_extension(path: &str) -> (r: bool)
    ensures
        r == is_record_path(path@),
{
    match file_name(path) {
        Some(n) => match extension(n.as_str()) {
            Some(e) => str_eq(e.as_str(), "json"),
            None => false,
        },
        None => false,
    }
}

} // verus!
