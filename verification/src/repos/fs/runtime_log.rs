//! The file-backed runtime log: one JSON line per entry, one file per day,
//! listed newest file first and newest line first.
use vstd::prelude::*;

use crate::domain::runtime_log::{ListRuntimeLogsQuery, RuntimeLog, RuntimeLogView};
use crate::repos::fs::{join_path, join_path_seq};
use crate::text::{split_char, split_seq, strip_suffix,
    concat3, ends_with, ends_with_seq, lemma_lex_lt_transitive, lex_lt, lex_order, starts_with,
    starts_with_seq, str_eq, views, LexOrder,
};

verus! {

broadcast use vstd::seq_lib::group_to_multiset_ensures;

/// The directory of the log: `{data_dir}/logs`.
pub struct FsRuntimeLogRepo {
    pub dir: String,
}

impl FsRuntimeLogRepo {
    pub fn new(data_dir: &str) -> (r: Self)
        ensures
            r.dir@ == join_path_seq(data_dir@, "logs"@),
    {
        FsRuntimeLogRepo { dir: join_path(data_dir, "logs") }
    }
}

/// The log file of a day: `runtime-{date}.jsonl`.
pub fn runtime_log_file_name(date: &str) -> (r: String)
    ensures
        r@ == "runtime-"@ + date@ + ".jsonl"@,
{
    concat3("runtime-", date, ".jsonl")
}

/// A directory entry is a log file: `runtime-*.jsonl`.
pub open spec fn is_log_file_name(name: Seq<char>) -> bool {
    starts_with_seq(name, "runtime-"@) && ends_with_seq(name, ".jsonl"@)
}

pub fn is_runtime_log_file_name(name: &str) -> (r: bool)
    ensures
        r == is_log_file_name(name@),
{
    starts_with(name, "runtime-") && ends_with(name, ".jsonl")
}

/// Line `i` of a text cut at `\n` into `pieces`, as `str::lines` gives it: a
/// piece followed by a `\n` loses one trailing `\r`; the last piece is kept
/// as it is.
pub open spec fn line_at(pieces: Seq<Seq<char>>, i: int) -> Seq<char> {
    let p = pieces[i];
    if i < pieces.len() - 1 && p.len() > 0 && p.last() == '\r' {
        p.drop_last()
    } else {
        p
    }
}

/// The non-empty lines among the first `n` pieces, in order.
pub open spec fn nonempty_lines(pieces: Seq<Seq<char>>, n: nat) -> Seq<Seq<char>>
    decreases n,
{
    if n == 0 {
        Seq::empty()
    } else {
        let l = line_at(pieces, n - 1);
        nonempty_lines(pieces, (n - 1) as nat) + if l.len() > 0 {
            seq![l]
        } else {
            Seq::<Seq<char>>::empty()
        }
    }
}

/// The non-empty lines of a log file's text, in order (`lines()` without the
/// empty ones).
pub fn log_lines(content: &str) -> (r: Vec<String>)
    ensures
        views(r@) == nonempty_lines(split_seq(content@, '\n'), split_seq(content@, '\n').len()),
{
    let pieces = split_char(content, '\n');
    let ghost ps = split_seq(content@, '\n');
    let mut out: Vec<String> = Vec::new();
    let mut i: usize = 0;
    while i < pieces.len()
        invariant
            0 <= i <= pieces.len(),
            pieces@.len() == ps.len(),
            forall|j: int| 0 <= j < pieces@.len() ==> #[trigger] pieces@[j]@ == ps[j],
            views(out@) == nonempty_lines(ps, i as nat),
        decreases pieces.len() - i,
    {
        let p = pieces[i].as_str();
        let line = if i + 1 < pieces.len() {
            match strip_suffix(p, "\r") {
                Some(t) => t,
                None => String::from_str(p),
            }
        } else {
            String::from_str(p)
        };
        proof {
            reveal_strlit("\r");
            if i + 1 < pieces.len() && p@.len() > 0 && p@.last() == '\r' {
                assert(ends_with_seq(p@, "\r"@)) by {
                    assert(p@.skip(p@.len() - 1) =~= "\r"@);
                }
                assert(line@ =~= p@.drop_last());
            } else if i + 1 < pieces.len() {
                assert(!ends_with_seq(p@, "\r"@)) by {
                    if p@.len() >= 1 {
                        assert(p@.skip(p@.len() - 1)[0] == p@.last());
                    }
                }
            }
            assert(line@ == line_at(ps, i as int));
        }
        let ghost before = out@;
        if !line.as_str().is_empty() {
            out.push(line);
            proof {
                assert(views(out@) =~= views(before) + seq![line_at(ps, i as int)]);
            }
        } else {
            proof {
                assert(views(out@) =~= views(before) + Seq::<Seq<char>>::empty());
            }
        }
        i += 1;
    }
    out
}

/// Each name is at least the next one in the order of `String`.
pub open spec fn newest_first(s: Seq<Seq<char>>) -> bool {
    forall|a: int, b: int| 0 <= a < b < s.len() ==> !lex_lt(#[trigger] s[a], #[trigger] s[b])
}

/// The log file names, greatest first (the newest day first).
pub fn sort_newest_first(names: Vec<String>) -> (r: Vec<String>)
    ensures
        newest_first(views(r@)),
        r@.to_multiset() == names@.to_multiset(),
{
    let mut out: Vec<String> = Vec::new();
    let mut i: usize = 0;
    while i < names.len()
        invariant
            0 <= i <= names.len(),
            newest_first(views(out@)),
            out@.to_multiset() == names@.take(i as int).to_multiset(),
        decreases names.len() - i,
    {
        let x = names[i].clone();
        let mut p: usize = 0;
        while p < out.len() && lex_order(out[p].as_str(), x.as_str()) != LexOrder::Less
            invariant
                0 <= p <= out.len(),
                forall|j: int| 0 <= j < p ==> !lex_lt(#[trigger] out@[j]@, x@),
            decreases out.len() - p,
        {
            p += 1;
        }
        let ghost old_out = out@;
        out.insert(p, x);
        proof {
            let vo = views(old_out);
            let vn = views(out@);
            assert(out@ == old_out.insert(p as int, x));
            assert forall|a: int, b: int| 0 <= a < b < vn.len() implies !lex_lt(#[trigger] vn[a], #[trigger] vn[b]) by {
                if b < p {
                    assert(vn[a] == vo[a] && vn[b] == vo[b]);
                } else if b == p {
                    assert(vn[a] == old_out[a]@);
                } else if a < p {
                    assert(vn[a] == vo[a] && vn[b] == vo[b - 1]);
                } else if a == p {
                    assert(vn[b] == vo[b - 1]);
                    assert(lex_lt(vo[p as int], x@));
                    if lex_lt(x@, vo[b - 1]) {
                        lemma_lex_lt_transitive(vo[p as int], x@, vo[b - 1]);
                        if b - 1 > p {
                            assert(!lex_lt(vo[p as int], vo[b - 1]));
                        }
                        crate::text::lemma_lex_lt_irreflexive(vo[p as int]);
                    }
                } else {
                    assert(vn[a] == vo[a - 1] && vn[b] == vo[b - 1]);
                }
            }
            assert(names@.take(i + 1) == names@.take(i as int).push(names@[i as int]));
        }
        i += 1;
    }
    assert(names@.take(names@.len() as int) =~= names@);
    out
}

/// An entry is listed by a query: it is of the query's source, and failed when
/// only errors are asked for.
pub open spec fn listed(l: RuntimeLog, q: ListRuntimeLogsQuery) -> bool {
    l.source_id@ == q.source_id@ && (q.view == RuntimeLogView::Errors ==> !l.ok)
}

/// What one line contributes: its entry when it was read and is listed.
pub open spec fn line_listing(line: Option<RuntimeLog>, q: ListRuntimeLogsQuery) -> Seq<RuntimeLog> {
    match line {
        Some(l) => if listed(l, q) {
            seq![l]
        } else {
            Seq::empty()
        },
        None => Seq::empty(),
    }
}

/// The listed entries of one file, last line first.
pub open spec fn file_listing(lines: Seq<Option<RuntimeLog>>, q: ListRuntimeLogsQuery) -> Seq<
    RuntimeLog,
>
    decreases lines.len(),
{
    if lines.len() == 0 {
        Seq::empty()
    } else {
        line_listing(lines.last(), q) + file_listing(lines.drop_last(), q)
    }
}

/// The listed entries of the files in the order given, each last line first.
pub open spec fn files_listing(files: Seq<Seq<Option<RuntimeLog>>>, q: ListRuntimeLogsQuery) -> Seq<
    RuntimeLog,
>
    decreases files.len(),
{
    if files.len() == 0 {
        Seq::empty()
    } else {
        files_listing(files.drop_last(), q) + file_listing(files.last(), q)
    }
}

/// How many entries a listing returns: `limit`, but at least one.
pub open spec fn listing_cap(limit: usize) -> nat {
    if limit == 0 {
        1
    } else {
        limit as nat
    }
}

/// The first `cap` entries of a listing (all when there are fewer).
pub open spec fn first_entries(s: Seq<RuntimeLog>, cap: nat) -> Seq<RuntimeLog> {
    if s.len() <= cap {
        s
    } else {
        s.take(cap as int)
    }
}

proof fn lemma_file_listing_prepend(x: Option<RuntimeLog>, s: Seq<Option<RuntimeLog>>, q: ListRuntimeLogsQuery)
    ensures
        file_listing(seq![x] + s, q) == file_listing(s, q) + line_listing(x, q),
    decreases s.len(),
{
    if s.len() == 0 {
        assert((seq![x] + s).drop_last() =~= Seq::<Option<RuntimeLog>>::empty());
        assert((seq![x] + s).last() == x);
        assert(file_listing(Seq::<Option<RuntimeLog>>::empty(), q) =~= Seq::<RuntimeLog>::empty());
        assert(file_listing(seq![x] + s, q) =~= line_listing(x, q) + Seq::<RuntimeLog>::empty());
        assert(file_listing(s, q) =~= Seq::<RuntimeLog>::empty());
    } else {
        assert((seq![x] + s).drop_last() =~= seq![x] + s.drop_last());
        assert((seq![x] + s).last() == s.last());
        lemma_file_listing_prepend(x, s.drop_last(), q);
        assert(file_listing(seq![x] + s, q) =~= line_listing(s.last(), q) + (file_listing(s.drop_last(), q) + line_listing(x, q)));
    }
}

/// The entries of a file split at line `j`: the later lines come first.
proof fn lemma_file_listing_split(lines: Seq<Option<RuntimeLog>>, j: int, q: ListRuntimeLogsQuery)
    requires
        0 <= j <= lines.len(),
    ensures
        file_listing(lines, q) == file_listing(lines.skip(j), q) + file_listing(lines.take(j), q),
    decreases j,
{
    if j == 0 {
        assert(lines.skip(0) =~= lines);
        assert(file_listing(lines.take(0), q) =~= Seq::<RuntimeLog>::empty());
        assert(file_listing(lines, q) + Seq::<RuntimeLog>::empty() =~= file_listing(lines, q));
    } else {
        lemma_file_listing_split(lines, j - 1, q);
        assert(lines.skip(j - 1) =~= seq![lines[j - 1]] + lines.skip(j));
        lemma_file_listing_prepend(lines[j - 1], lines.skip(j), q);
        assert(lines.take(j).drop_last() =~= lines.take(j - 1));
        assert(lines.take(j).last() == lines[j - 1]);
    }
}

/// The log entries listed by `query`, the files taken in the given
/// order (the caller gives them newest first) and each file's lines from last to
/// first, unreadable lines (`None`) skipped, stopping after `query.limit`
/// entries (after the first one when the limit is 0).
pub fn collect_runtime_logs(files: &Vec<Vec<Option<RuntimeLog>>>, query: &ListRuntimeLogsQuery) -> (r: Vec<RuntimeLog>)
    ensures
        r@ == first_entries(files_listing(files@.map_values(|f: Vec<Option<RuntimeLog>>| f@), *query), listing_cap(query.limit)),
{
    let ghost fs = files@.map_values(|f: Vec<Option<RuntimeLog>>| f@);
    let ghost cap = listing_cap(query.limit);
    let mut items: Vec<RuntimeLog> = Vec::new();
    let mut fi: usize = 0;
    while fi < files.len()
        invariant
            0 <= fi <= files.len(),
            fs == files@.map_values(|f: Vec<Option<RuntimeLog>>| f@),
            cap == listing_cap(query.limit),
            items@ == files_listing(fs.take(fi as int), *query),
            items@.len() < cap,
        decreases files.len() - fi,
    {
        let lines = &files[fi];
        let ghost before = items@;
        let mut j: usize = lines.len();
        proof {
            assert(lines@.skip(lines@.len() as int) =~= Seq::<Option<RuntimeLog>>::empty());
            assert(items@ =~= before + file_listing(lines@.skip(j as int), *query));
        }
        while j > 0
            invariant
                0 <= j <= lines.len(),
                0 <= fi < files.len(),
                fs == files@.map_values(|f: Vec<Option<RuntimeLog>>| f@),
                lines@ == fs[fi as int],
                before == files_listing(fs.take(fi as int), *query),
                cap == listing_cap(query.limit),
                items@ == before + file_listing(lines@.skip(j as int), *query),
                items@.len() < cap,
            decreases j,
        {
            j -= 1;
            proof {
                assert(lines@.skip(j as int) =~= seq![lines@[j as int]] + lines@.skip(j + 1));
                lemma_file_listing_prepend(lines@[j as int], lines@.skip(j + 1), *query);
            }
            match &lines[j] {
                Some(log) => {
                    if str_eq(log.source_id.as_str(), query.source_id.as_str())
                        && !(query.view == RuntimeLogView::Errors && log.ok) {
                        items.push(log.clone());
                        if items.len() >= query.limit {
                            proof {
                                // The rest of the listing only follows what is kept.
                                lemma_file_listing_split(lines@, j as int, *query);
                                lemma_files_listing_split(fs, fi as int, *query);
                                assert(fs[fi as int] == lines@);
                                assert(items@.len() == cap);
                                let full = files_listing(fs, *query);
                                assert(items@ == full.take(cap as int)) by {
                                    assert(full == files_listing(fs.take(fi as int), *query)
                                        + file_listing(lines@, *query) + files_listing_rest(fs, fi + 1, *query));
                                    assert(file_listing(lines@, *query) == file_listing(lines@.skip(j as int), *query)
                                        + file_listing(lines@.take(j as int), *query));
                                    assert(items@ =~= files_listing(fs.take(fi as int), *query) + file_listing(lines@.skip(j as int), *query));
                                    assert(full =~= items@ + (file_listing(lines@.take(j as int), *query) + files_listing_rest(fs, fi + 1, *query)));
                                    assert(full.take(cap as int) =~= items@);
                                }
                            }
                            return items;
                        }
                    }
                },
                None => {},
            }
        }
        proof {
            assert(lines@.skip(0) =~= lines@);
            assert(fs.take(fi + 1).drop_last() =~= fs.take(fi as int));
            assert(fs.take(fi + 1).last() == lines@);
        }
        fi += 1;
    }
    proof {
        assert(fs.take(files@.len() as int) =~= fs);
    }
    items
}

proof fn lemma_file_listing_listed(lines: Seq<Option<RuntimeLog>>, q: ListRuntimeLogsQuery)
    ensures
        forall|i: int| 0 <= i < file_listing(lines, q).len() ==> listed(#[trigger] file_listing(lines, q)[i], q),
    decreases lines.len(),
{
    if lines.len() > 0 {
        lemma_file_listing_listed(lines.drop_last(), q);
        let a = line_listing(lines.last(), q);
        let b = file_listing(lines.drop_last(), q);
        assert forall|i: int| 0 <= i < (a + b).len() implies listed(#[trigger] (a + b)[i], q) by {
            if i >= a.len() {
                assert((a + b)[i] == b[i - a.len()]);
            }
        }
    }
}

proof fn lemma_files_listing_listed(files: Seq<Seq<Option<RuntimeLog>>>, q: ListRuntimeLogsQuery)
    ensures
        forall|i: int| 0 <= i < files_listing(files, q).len() ==> listed(#[trigger] files_listing(files, q)[i], q),
    decreases files.len(),
{
    if files.len() > 0 {
        lemma_files_listing_listed(files.drop_last(), q);
        lemma_file_listing_listed(files.last(), q);
        let a = files_listing(files.drop_last(), q);
        let b = file_listing(files.last(), q);
        assert forall|i: int| 0 <= i < (a + b).len() implies listed(#[trigger] (a + b)[i], q) by {
            if i >= a.len() {
                assert((a + b)[i] == b[i - a.len()]);
            }
        }
    }
}

/// A log listing holds at most `limit` entries (one when the limit is 0), each
/// of the query's source and, when only errors are asked for, each failed.
pub proof fn law_listing_respects_query(files: Seq<Seq<Option<RuntimeLog>>>, q: ListRuntimeLogsQuery)
    ensures
        first_entries(files_listing(files, q), listing_cap(q.limit)).len() <= listing_cap(q.limit),
        forall|i: int| 0 <= i < first_entries(files_listing(files, q), listing_cap(q.limit)).len() ==> {
            let l = #[trigger] first_entries(files_listing(files, q), listing_cap(q.limit))[i];
            &&& l.source_id@ == q.source_id@
            &&& q.view == RuntimeLogView::Errors ==> !l.ok
        },
{
    lemma_files_listing_listed(files, q);
    let full = files_listing(files, q);
    let r = first_entries(full, listing_cap(q.limit));
    assert forall|i: int| 0 <= i < r.len() implies listed(#[trigger] r[i], q) by {
        assert(r[i] == full[i]);
    }
}

/// The listing of the files from `i` on.
pub open spec fn files_listing_rest(files: Seq<Seq<Option<RuntimeLog>>>, i: int, q: ListRuntimeLogsQuery) -> Seq<RuntimeLog>
    decreases files.len() - i,
{
    if i >= files.len() {
        Seq::empty()
    } else {
        file_listing(files[i], q) + files_listing_rest(files, i + 1, q)
    }
}

proof fn lemma_files_listing_split(files: Seq<Seq<Option<RuntimeLog>>>, i: int, q: ListRuntimeLogsQuery)
    requires
        0 <= i < files.len(),
    ensures
        files_listing(files, q) == files_listing(files.take(i), q) + file_listing(files[i], q)
            + files_listing_rest(files, i + 1, q),
    decreases files.len() - i,
{
    if i == files.len() - 1 {
        assert(files.take(i) =~= files.drop_last());
        assert(files_listing_rest(files, i + 1, q) =~= Seq::<RuntimeLog>::empty());
        assert(files_listing(files, q) =~= files_listing(files.take(i), q) + file_listing(files[i], q) + Seq::<RuntimeLog>::empty());
    } else {
        lemma_files_listing_split(files, i + 1, q);
        assert(files.take(i + 1).drop_last() =~= files.take(i));
        assert(files.take(i + 1).last() == files[i]);
        assert(files_listing_rest(files, i + 1, q) == file_listing(files[i + 1], q) + files_listing_rest(files, i + 2, q));
        assert(files_listing(files, q) =~= files_listing(files.take(i), q) + file_listing(files[i], q) + files_listing_rest(files, i + 1, q));
    }
}

/// The greatest of the day file names comes first once they are sorted.
proof fn lemma_latest_sorted_first(names: Seq<Seq<char>>, sorted: Seq<Seq<char>>, latest: Seq<char>)
    requires
        newest_first(sorted),
        sorted.to_multiset() == names.to_multiset(),
        names.contains(latest),
        forall|i: int| 0 <= i < names.len() && names[i] != latest ==> lex_lt(#[trigger] names[i], latest),
    ensures
        sorted.len() > 0,
        sorted[0] == latest,
{
    assert(names.to_multiset().count(latest) > 0);
    assert(sorted.contains(latest));
    let k = choose|k: int| 0 <= k < sorted.len() && sorted[k] == latest;
    let first = sorted[0];
    assert(sorted.contains(first));
    assert(names.to_multiset().count(first) > 0);
    assert(names.contains(first));
    let j = choose|j: int| 0 <= j < names.len() && names[j] == first;
    if first != latest {
        assert(lex_lt(names[j], latest));
        assert(k != 0);
        assert(!lex_lt(sorted[0], sorted[k]));
    }
}

/// The entry on the last line of the first file is the first one listed, when
/// the query lists it.
proof fn lemma_last_line_listed_first(files: Seq<Seq<Option<RuntimeLog>>>, q: ListRuntimeLogsQuery, log: RuntimeLog)
    requires
        files.len() > 0,
        files[0].len() > 0,
        files[0].last() == Some(log),
        listed(log, q),
    ensures
        files_listing(files, q).len() > 0,
        files_listing(files, q)[0] == log,
{
    lemma_files_listing_split(files, 0, q);
    assert(files.take(0) =~= Seq::<Seq<Option<RuntimeLog>>>::empty());
    assert(files_listing(files.take(0), q) =~= Seq::<RuntimeLog>::empty());
    let f = file_listing(files[0], q);
    assert(f == seq![log] + file_listing(files[0].drop_last(), q));
    assert(f[0] == log);
    let full = files_listing(files, q);
    assert(full =~= Seq::<RuntimeLog>::empty() + f + files_listing_rest(files, 1, q));
    assert(full[0] == f[0]);
}

/// An entry appended to the log is the first one that a listing of its source
/// returns (of failed entries only, when it failed): the day file names are
/// sorted newest first, the appended entry is the last line of the file of the
/// latest day (`latest`, greater than every other name), and each file is read
/// in the sorted order.
pub proof fn law_appended_entry_listed_first(
    names: Seq<Seq<char>>,
    sorted: Seq<Seq<char>>,
    latest: Seq<char>,
    files: Seq<Seq<Option<RuntimeLog>>>,
    log: RuntimeLog,
    q: ListRuntimeLogsQuery,
)
    requires
        newest_first(sorted),
        sorted.to_multiset() == names.to_multiset(),
        names.contains(latest),
        forall|i: int| 0 <= i < names.len() && names[i] != latest ==> lex_lt(#[trigger] names[i], latest),
        files.len() == sorted.len(),
        forall|i: int| 0 <= i < sorted.len() && sorted[i] == latest ==> files[i].len() > 0
            && #[trigger] files[i].last() == Some(log),
        q.source_id@ == log.source_id@,
        q.view == RuntimeLogView::Errors ==> !log.ok,
    ensures
        first_entries(files_listing(files, q), listing_cap(q.limit)).len() > 0,
        first_entries(files_listing(files, q), listing_cap(q.limit))[0] == log,
{
    lemma_latest_sorted_first(names, sorted, latest);
    assert(files[0].last() == Some(log));
    lemma_last_line_listed_first(files, q, log);
}

} // verus!
