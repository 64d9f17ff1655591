//! The file-backed store of sources: one JSON file per record.
use vstd::prelude::*;

use crate::domain::source::Source;
use crate::repos::fs::{join_path, join_path_seq, record_path, record_path_seq};
use crate::text::str_eq;

verus! {

/// The directory of the store: `{data_dir}/sources`.
pub struct FsSourceRepo {
    pub dir: String,
}

impl FsSourceRepo {
    pub fn new(data_dir: &str) -> (r: Self)
        ensures
            r.dir@ == join_path_seq(data_dir@, "sources"@),
    {
        FsSourceRepo { dir: join_path(data_dir, "sources") }
    }

    /// The file of the record `id`: `{dir}/{id}.json`.
    pub fn path(&self, id: &str) -> (r: String)
        ensures
            r@ == record_path_seq(self.dir@, id@),
    {
        record_path(self.dir.as_str(), id)
    }
}

/// A source matches a lookup by `field` (`script_token`, `runtime_token` or
/// `account_id`) when that field equals `value`; other fields match nothing.
pub open spec fn index_matches(s: Source, field: Seq<char>, value: Seq<char>) -> bool {
    if field == "script_token"@ {
        s.script_token@ == value
    } else if field == "runtime_token"@ {
        s.runtime_token@ == value
    } else if field == "account_id"@ {
        s.account_id@ == value
    } else {
        false
    }
}

/// Whether a source is the one that a lookup by `field` and `value` is after.
pub fn source_matches_index(source: &Source, field: &str, value: &str) -> (r: bool)
    ensures
        r == index_matches(*source, field@, value@),
{
    if str_eq(field, "script_token") {
        str_eq(source.script_token.as_str(), value)
    } else if str_eq(field, "runtime_token") {
        str_eq(source.runtime_token.as_str(), value)
    } else if str_eq(field, "account_id") {
        str_eq(source.account_id.as_str(), value)
    } else {
        false
    }
}

} // verus!
