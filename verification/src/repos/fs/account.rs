//! The file-backed store of accounts: one JSON file per record.
use vstd::prelude::*;

use crate::repos::fs::{join_path, join_path_seq, record_path, record_path_seq};

verus! {

/// The directory of the store: `{data_dir}/accounts`.
pub struct FsAccountRepo {
    pub dir: String,
}

impl FsAccountRepo {
    pub fn new(data_dir: &str) -> (r: Self)
        ensures
            r.dir@ == join_path_seq(data_dir@, "accounts"@),
    {
        FsAccountRepo { dir: join_path(data_dir, "accounts") }
    }

    /// The file of the record `id`: `{dir}/{id}.json`.
    pub fn path(&self, id: &str) -> (r: String)
        ensures
            r@ == record_path_seq(self.dir@, id@),
    {
        record_path(self.dir.as_str(), id)
    }
}

} // verus!
