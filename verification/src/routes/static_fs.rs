//! The rules of serving the admin UI's static files: which file a request
//! path names, and the content type of a file.
use vstd::prelude::*;

use crate::text::{
    chars_of, split_char, split_seq, str_eq, string_of_range, trim_start_char_seq,
    trim_start_matches_char,
};

verus! {

/// What to answer a request for a static file with.
#[derive(Debug, PartialEq, Eq)]
pub enum StaticPlan {
    /// 404 Not Found.
    NotFound,
    /// `index.html`, else 404.
    Index,
    /// The file at this relative path, else `index.html`, else 404.
    FileThenIndex(String),
}

/// A path names a parent directory in one of its `/`-separated segments.
pub open spec fn has_parent_segment(rel: Seq<char>) -> bool {
    exists|i: int| 0 <= i < split_seq(rel, '/').len() && #[trigger] split_seq(rel, '/')[i] == ".."@
}

/// How `serve` answers a request path, given the UI directory if one is set.
pub open spec fn static_plan_of(dir_set: bool, path: Seq<char>) -> Option<Option<Seq<char>>> {
    // None: not found; Some(None): index; Some(Some(rel)): file then index.
    let rel = trim_start_char_seq(path, '/');
    if !dir_set {
        None
    } else if rel.len() == 0 {
        Some(None)
    } else if has_parent_segment(rel) {
        None
    } else {
        Some(Some(rel))
    }
}

/// The view of a plan in the shape of `static_plan_of`.
pub open spec fn plan_view(p: StaticPlan) -> Option<Option<Seq<char>>> {
    match p {
        StaticPlan::NotFound => None,
        StaticPlan::Index => Some(None),
        StaticPlan::FileThenIndex(rel) => Some(Some(rel@)),
    }
}

/// The answer to a static request path: nothing without a UI directory, the
/// index for the root, nothing for a path with a `..` segment, else the file
/// at the path without its leading slashes, falling back to the index.
pub fn plan_static_request(web_dist_dir: Option<&str>, path: &str) -> (r: StaticPlan)
    ensures
        plan_view(r) == static_plan_of(web_dist_dir is Some, path@),
{
    if web_dist_dir.is_none() {
        return StaticPlan::NotFound;
    }
    let relative = trim_start_matches_char(path, '/');
    if relative.as_str().is_empty() {
        return StaticPlan::Index;
    }
    let segments = split_char(relative.as_str(), '/');
    let mut i: usize = 0;
    while i < segments.len()
        invariant
            0 <= i <= segments.len(),
            relative@ == trim_start_char_seq(path@, '/'),
            relative@.len() > 0,
            web_dist_dir is Some,
            segments@.len() == split_seq(relative@, '/').len(),
            forall|j: int| 0 <= j < segments@.len() ==> #[trigger] segments@[j]@ == split_seq(relative@, '/')[j],
            forall|j: int| 0 <= j < i ==> split_seq(relative@, '/')[j] != ".."@,
        decreases segments.len() - i,
    {
        if str_eq(segments[i].as_str(), "..") {
            assert(split_seq(relative@, '/')[i as int] == ".."@);
            assert(has_parent_segment(relative@));
            return StaticPlan::NotFound;
        }
        i += 1;
    }
    StaticPlan::FileThenIndex(relative)
}

/// A file is only ever looked up at a relative path none of whose `/`-separated
/// segments is `..`, and only when a UI directory is set.
pub proof fn law_no_parent_traversal(dir_set: bool, path: Seq<char>)
    ensures
        static_plan_of(dir_set, path) matches Some(Some(rel)) ==> dir_set && rel.len() > 0 && (forall|i: int|
            0 <= i < split_seq(rel, '/').len() ==> #[trigger] split_seq(rel, '/')[i] != ".."@),
        !dir_set ==> static_plan_of(dir_set, path) is None,
{
}

/// The last component of a path's `/`-separated pieces, skipping empty and `.` pieces.
pub open spec fn last_component(pieces: Seq<Seq<char>>) -> Option<Seq<char>>
    decreases pieces.len(),
{
    if pieces.len() == 0 {
        None
    } else if pieces.last().len() == 0 || pieces.last() == "."@ {
        last_component(pieces.drop_last())
    } else {
        Some(pieces.last())
    }
}

/// `Path::file_name` on Unix: the last normal component, none when the path
/// ends in `..` or has no normal component.
pub open spec fn file_name_seq(path: Seq<char>) -> Option<Seq<char>> {
    match last_component(split_seq(path, '/')) {
        Some(c) => if c == ".."@ {
            None
        } else {
            Some(c)
        },
        None => None,
    }
}

/// The index of the last `c` in `s`.
pub open spec fn rfind_char_seq(s: Seq<char>, c: char) -> Option<int>
    decreases s.len(),
{
    if s.len() == 0 {
        None
    } else if s.last() == c {
        Some(s.len() - 1)
    } else {
        rfind_char_seq(s.drop_last(), c)
    }
}

/// `Path::extension` of a file name: what follows its last `.`, none when
/// there is no `.` or the only one starts the name.
pub open spec fn extension_seq(name: Seq<char>) -> Option<Seq<char>> {
    if name == ".."@ {
        None
    } else {
        match rfind_char_seq(name, '.') {
            Some(i) => if i == 0 {
                None
            } else {
                Some(name.skip(i + 1))
            },
            None => None,
        }
    }
}

/// The content type for a file extension.
pub open spec fn mime_for_extension(ext: Seq<char>) -> Seq<char> {
    if ext == "html"@ {
        "text/html; charset=utf-8"@
    } else if ext == "js"@ || ext == "mjs"@ {
        "application/javascript; charset=utf-8"@
    } else if ext == "css"@ {
        "text/css; charset=utf-8"@
    } else if ext == "json"@ {
        "application/json; charset=utf-8"@
    } else if ext == "png"@ {
        "image/png"@
    } else if ext == "jpg"@ || ext == "jpeg"@ {
        "image/jpeg"@
    } else if ext == "gif"@ {
        "image/gif"@
    } else if ext == "svg"@ {
        "image/svg+xml"@
    } else if ext == "ico"@ {
        "image/x-icon"@
    } else if ext == "woff"@ {
        "font/woff"@
    } else if ext == "woff2"@ {
        "font/woff2"@
    } else if ext == "ttf"@ {
        "font/ttf"@
    } else if ext == "webp"@ {
        "image/webp"@
    } else if ext == "wasm"@ {
        "application/wasm"@
    } else if ext == "map"@ {
        "application/json"@
    } else {
        "application/octet-stream"@
    }
}

/// The extension of a path (`Path::extension` of its file name), empty when none.
pub open spec fn path_extension(path: Seq<char>) -> Seq<char> {
    match file_name_seq(path) {
        Some(n) => match extension_seq(n) {
            Some(e) => e,
            None => Seq::empty(),
        },
        None => Seq::empty(),
    }
}

/// `Path::file_name` of a path.
pub fn file_name(path: &str) -> (r: Option<String>)
    ensures
        crate::domain::runtime_log::opt_view(r) == file_name_seq(path@),
{
    let pieces = split_char(path, '/');
    let ghost ps = split_seq(path@, '/');
    let mut i: usize = pieces.len();
    assert(ps.take(ps.len() as int) =~= ps);
    while i > 0 && (pieces[i - 1].as_str().is_empty() || str_eq(pieces[i - 1].as_str(), "."))
        invariant
            0 <= i <= pieces.len(),
            pieces@.len() == ps.len(),
            forall|j: int| 0 <= j < pieces@.len() ==> #[trigger] pieces@[j]@ == ps[j],
            last_component(ps) == last_component(ps.take(i as int)),
        decreases i,
    {
        proof {
            assert(ps.take(i as int).drop_last() =~= ps.take(i - 1));
        }
        i -= 1;
    }
    if i == 0 {
        return None;
    }
    proof {
        assert(ps.take(i as int).last() == ps[i - 1]);
    }
    if str_eq(pieces[i - 1].as_str(), "..") {
        None
    } else {
        Some(pieces[i - 1].clone())
    }
}

/// `Path::extension` of a file name.
pub fn extension(name: &str) -> (r: Option<String>)
    ensures
        crate::domain::runtime_log::opt_view(r) == extension_seq(name@),
{
    if str_eq(name, "..") {
        return None;
    }
    let v = chars_of(name);
    let mut i: usize = v.len();
    assert(v@.take(v@.len() as int) =~= v@);
    while i > 0 && v[i - 1] != '.'
        invariant
            0 <= i <= v.len(),
            v@ == name@,
            rfind_char_seq(v@, '.') == rfind_char_seq(v@.take(i as int), '.'),
        decreases i,
    {
        proof {
            assert(v@.take(i as int).drop_last() =~= v@.take(i - 1));
        }
        i -= 1;
    }
    if i == 0 {
        proof {
            assert(v@.take(0) =~= Seq::<char>::empty());
        }
        return None;
    }
    proof {
        assert(v@.take(i as int).last() == v@[i - 1]);
    }
    if i == 1 {
        None
    } else {
        let r = string_of_range(&v, i, v.len());
        proof {
            assert(r@ =~= v@.skip(i as int));
        }
        Some(r)
    }
}

/// The content type by the path's extension.
pub fn mime_from_path(path: &str) -> (r: &'static str)
    ensures
        r@ == mime_for_extension(path_extension(path@)),
{
    let ext = match file_name(path) {
        Some(n) => match extension(n.as_str()) {
            Some(e) => e,
            None => String::new(),
        },
        None => String::new(),
    };
    let e = ext.as_str();
    if str_eq(e, "html") {
        "text/html; charset=utf-8"
    } else if str_eq(e, "js") || str_eq(e, "mjs") {
        "application/javascript; charset=utf-8"
    } else if str_eq(e, "css") {
        "text/css; charset=utf-8"
    } else if str_eq(e, "json") {
        "application/json; charset=utf-8"
    } else if str_eq(e, "png") {
        "image/png"
    } else if str_eq(e, "jpg") || str_eq(e, "jpeg") {
        "image/jpeg"
    } else if str_eq(e, "gif") {
        "image/gif"
    } else if str_eq(e, "svg") {
        "image/svg+xml"
    } else if str_eq(e, "ico") {
        "image/x-icon"
    } else if str_eq(e, "woff") {
        "font/woff"
    } else if str_eq(e, "woff2") {
        "font/woff2"
    } else if str_eq(e, "ttf") {
        "font/ttf"
    } else if str_eq(e, "webp") {
        "image/webp"
    } else if str_eq(e, "wasm") {
        "application/wasm"
    } else if str_eq(e, "map") {
        "application/json"
    } else {
        "application/octet-stream"
    }
}

/// `path` lies within the directory `root`, both absolute canonical paths as
/// bytes: it is `root` itself, or `root` followed by further components (the
/// byte after `root` is a `/`, or `root` ends with one, as `/` does).
pub open spec fn path_within_spec(root: Seq<u8>, path: Seq<u8>) -> bool {
    path == root || (path.len() > root.len() && path.take(root.len() as int) == root && ((root.len() > 0
        && root.last() == 0x2fu8) || path[root.len() as int] == 0x2fu8))
}

/// Whether the canonical `path` of a requested file lies within the canonical
/// directory `root`, component by component; a file outside it is not served.
pub fn path_within(root: &[u8], path: &[u8]) -> (r: bool)
    ensures
        r == path_within_spec(root@, path@),
{
    let n = root.len();
    if path.len() < n {
        return false;
    }
    let mut i: usize = 0;
    while i < n
        invariant
            n == root@.len(),
            n <= path@.len(),
            0 <= i <= n,
            forall|j: int| 0 <= j < i ==> path@[j] == root@[j],
        decreases n - i,
    {
        if path[i] != root[i] {
            proof {
                assert(path@.take(n as int)[i as int] != root@[i as int]);
            }
            return false;
        }
        i += 1;
    }
    assert(path@.take(n as int) =~= root@);
    if path.len() == n {
        assert(path@ =~= root@);
        return true;
    }
    (n > 0 && root[n - 1] == 0x2fu8) || path[n] == 0x2fu8
}

} // verus!
