//! The file-backed store of login sessions: one JSON file per record.
use vstd::prelude::*;

use crate::repos::fs::{join_path, join_path_seq, record_path, record_path_seq};

verus! {

/// The directory of the store: `{data_dir}/login_sessions`.
pub struct FsLoginSessionRepo {
    pub dir: String,
}

impl FsLoginSessionRepo {
    pub fn new(data_dir: &str) -> (r: Self)
        ensures
            r.dir@ == join_path_seq(data_dir@, "login_sessions"@),
    {
        FsLoginSessionRepo { dir: join_path(data_dir, "login_sessions") }
    }

    /// The file of the record `id`: `{dir}/{id}.json`.
    pub fn path(&self, id: &str) -> (r: String)
        ensures
            r@ == record_path_seq(self.dir@, id@),
    {
        record_path(self.dir.as_str(), id)
    }
}

} // verus!
