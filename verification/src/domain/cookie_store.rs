//! The cookie jar kept for an upstream account: a map from cookie name to
//! value, listed in name order.
use vstd::prelude::*;

use crate::text::{views, 
    chars_of, concat3, find_char, find_char_seq, join, join_seq, lemma_lex_lt_asymmetric,
    lemma_lex_lt_irreflexive, lemma_lex_lt_transitive, lex_lt, lex_order, split_char, split_seq,
    string_of_range, trim, trim_seq, LexOrder,
};

verus! {

/// One name/value pair, as plain character sequences.
pub type CookieEntry = (Seq<char>, Seq<char>);

/// The pairs of strings as pairs of character sequences.
pub open spec fn pair_views(s: Seq<(String, String)>) -> Seq<CookieEntry> {
    Seq::new(s.len(), |i: int| (s[i].0@, s[i].1@))
}

/// Names strictly increase along `e`.
pub open spec fn sorted_names(e: Seq<CookieEntry>) -> bool {
    forall|i: int, j: int| 0 <= i < j < e.len() ==> lex_lt(#[trigger] e[i].0, #[trigger] e[j].0)
}

/// `k` is the name of some entry of `e`.
pub open spec fn has_name(e: Seq<CookieEntry>, k: Seq<char>) -> bool {
    exists|i: int| 0 <= i < e.len() && #[trigger] e[i].0 == k
}

/// The map that a listing of entries stands for.
pub open spec fn map_of(e: Seq<CookieEntry>) -> Map<Seq<char>, Seq<char>> {
    Map::new(
        |k: Seq<char>| has_name(e, k),
        |k: Seq<char>| e[choose|i: int| 0 <= i < e.len() && #[trigger] e[i].0 == k].1,
    )
}

/// `name=value`.
pub open spec fn pair_text(e: CookieEntry) -> Seq<char> {
    e.0 + "="@ + e.1
}

/// The `Cookie` request header for a listing: `name=value` pairs joined by `"; "`.
pub open spec fn header_of(e: Seq<CookieEntry>) -> Seq<char> {
    join_seq(e.map_values(|p: CookieEntry| pair_text(p)), "; "@)
}

/// What `parse_set_cookie` reads from a `Set-Cookie` header: the trimmed name and
/// value around the first `=` of the first `;`-separated segment, when the name is
/// not empty.
pub open spec fn parse_set_cookie_seq(header: Seq<char>) -> Option<CookieEntry> {
    let segment = trim_seq(split_seq(header, ';')[0]);
    match find_char_seq(segment, '=') {
        Some(i) => {
            let key = trim_seq(segment.take(i));
            let value = trim_seq(segment.skip(i + 1));
            if key.len() == 0 {
                None
            } else {
                Some((key, value))
            }
        },
        None => None,
    }
}

/// The effect of one `Set-Cookie` header on a map.
pub open spec fn merge_set_cookie_map(m: Map<Seq<char>, Seq<char>>, header: Seq<char>) -> Map<
    Seq<char>,
    Seq<char>,
> {
    match parse_set_cookie_seq(header) {
        Some((k, v)) => m.insert(k, v),
        None => m,
    }
}

/// The effect of a sequence of `Set-Cookie` headers, applied in order.
pub open spec fn merge_set_cookies_map(m: Map<Seq<char>, Seq<char>>, headers: Seq<Seq<char>>) -> Map<
    Seq<char>,
    Seq<char>,
>
    decreases headers.len(),
{
    if headers.len() == 0 {
        m
    } else {
        merge_set_cookie_map(merge_set_cookies_map(m, headers.drop_last()), headers.last())
    }
}

/// The effect of one `name=value` piece of a `cookie` string: trimmed, split at its
/// first `=`, name and value trimmed; ignored without `=` or with an empty name.
pub open spec fn merge_pair_map(m: Map<Seq<char>, Seq<char>>, piece: Seq<char>) -> Map<
    Seq<char>,
    Seq<char>,
> {
    let pair = trim_seq(piece);
    match find_char_seq(pair, '=') {
        Some(i) => {
            let k = trim_seq(pair.take(i));
            let v = trim_seq(pair.skip(i + 1));
            if k.len() > 0 {
                m.insert(k, v)
            } else {
                m
            }
        },
        None => m,
    }
}

/// The effect of the pieces of a `cookie` string, applied in order.
pub open spec fn merge_pairs_map(m: Map<Seq<char>, Seq<char>>, pieces: Seq<Seq<char>>) -> Map<
    Seq<char>,
    Seq<char>,
>
    decreases pieces.len(),
{
    if pieces.len() == 0 {
        m
    } else {
        merge_pair_map(merge_pairs_map(m, pieces.drop_last()), pieces.last())
    }
}

/// The cookies of an upstream session, kept in name order.
#[derive(Debug)]
pub struct CookieStore {
    items: Vec<(String, String)>,
}

impl CookieStore {
    /// The entries, in the order in which they are kept and listed.
    pub closed spec fn entries(&self) -> Seq<CookieEntry> {
        pair_views(self.items@)
    }

    #[verifier::type_invariant]
    closed spec fn names_sorted(&self) -> bool {
        sorted_names(self.entries())
    }
}

impl View for CookieStore {
    type V = Map<Seq<char>, Seq<char>>;

    open spec fn view(&self) -> Map<Seq<char>, Seq<char>> {
        map_of(self.entries())
    }
}

/// In a sorted listing, the entry at `i` is what the map holds under its name.
pub proof fn lemma_map_of_at(e: Seq<CookieEntry>, i: int)
    requires
        sorted_names(e),
        0 <= i < e.len(),
    ensures
        map_of(e).contains_key(e[i].0),
        map_of(e)[e[i].0] == e[i].1,
{
    let k = e[i].0;
    assert(has_name(e, k));
    let j = choose|j: int| 0 <= j < e.len() && #[trigger] e[j].0 == k;
    if j < i {
        lemma_lex_lt_irreflexive(k);
        assert(lex_lt(e[j].0, e[i].0));
    } else if i < j {
        lemma_lex_lt_irreflexive(k);
        assert(lex_lt(e[i].0, e[j].0));
    }
}

/// Two sorted listings of the same map are the same listing.
pub proof fn lemma_sorted_listing_unique(a: Seq<CookieEntry>, b: Seq<CookieEntry>)
    requires
        sorted_names(a),
        sorted_names(b),
        map_of(a) == map_of(b),
    ensures
        a == b,
    decreases a.len() + b.len(),
{
    if a.len() == 0 || b.len() == 0 {
        if a.len() > 0 {
            lemma_map_of_at(a, 0);
        }
        if b.len() > 0 {
            lemma_map_of_at(b, 0);
        }
        assert(a =~= b);
    } else {
        // The first entries agree: each is the least name of the common map.
        lemma_map_of_at(a, 0);
        lemma_map_of_at(b, 0);
        let ka = a[0].0;
        let kb = b[0].0;
        let ia = choose|i: int| 0 <= i < b.len() && #[trigger] b[i].0 == ka;
        let ib = choose|i: int| 0 <= i < a.len() && #[trigger] a[i].0 == kb;
        if ka != kb {
            assert(ia > 0);
            assert(ib > 0);
            assert(lex_lt(kb, ka));
            assert(lex_lt(ka, kb));
            lemma_lex_lt_asymmetric(ka, kb);
        }
        lemma_map_of_at(b, ia);
        let ta = a.drop_first();
        let tb = b.drop_first();
        assert forall|k: Seq<char>| #[trigger] map_of(ta).contains_key(k) == map_of(tb).contains_key(k)
            && (map_of(ta).contains_key(k) ==> map_of(ta)[k] == map_of(tb)[k]) by {
            if map_of(ta).contains_key(k) {
                let i = choose|i: int| 0 <= i < ta.len() && #[trigger] ta[i].0 == k;
                assert(a[i + 1].0 == k);
                lemma_map_of_at(a, i + 1);
                lemma_map_of_at(ta, i);
                let j = choose|j: int| 0 <= j < b.len() && #[trigger] b[j].0 == k;
                lemma_map_of_at(b, j);
                if j == 0 {
                    assert(lex_lt(a[0].0, a[i + 1].0));
                    lemma_lex_lt_irreflexive(k);
                }
                assert(tb[j - 1].0 == k);
                lemma_map_of_at(tb, j - 1);
            }
            if map_of(tb).contains_key(k) {
                let j = choose|j: int| 0 <= j < tb.len() && #[trigger] tb[j].0 == k;
                assert(b[j + 1].0 == k);
                lemma_map_of_at(b, j + 1);
                let i = choose|i: int| 0 <= i < a.len() && #[trigger] a[i].0 == k;
                lemma_map_of_at(a, i);
                if i == 0 {
                    assert(lex_lt(b[0].0, b[j + 1].0));
                    lemma_lex_lt_irreflexive(k);
                }
                assert(ta[i - 1].0 == k);
            }
        }
        assert(map_of(ta) =~= map_of(tb));
        lemma_sorted_listing_unique(ta, tb);
        assert(a =~= seq![a[0]] + ta);
        assert(b =~= seq![b[0]] + tb);
    }
}

/// The name and value that a `Set-Cookie` header sets.
fn parse_set_cookie(header: &str) -> (r: Option<(String, String)>)
    ensures
        r matches Some(p) ==> parse_set_cookie_seq(header@) == Some((p.0@, p.1@)),
        r is None ==> parse_set_cookie_seq(header@) is None,
{
    let pieces = split_char(header, ';');
    assert(split_seq(header@, ';').len() >= 1);
    let segment = trim(pieces[0].as_str());
    let v = chars_of(segment.as_str());
    match find_char(&v, '=') {
        Some(eq) => {
            let raw_key = string_of_range(&v, 0, eq);
            let raw_value = string_of_range(&v, eq + 1, v.len());
            proof {
                let s = segment@;
                assert(raw_key@ =~= s.take(eq as int));
                assert(raw_value@ =~= s.skip(eq + 1));
            }
            let key = trim(raw_key.as_str());
            let value = trim(raw_value.as_str());
            if key.as_str().is_empty() {
                None
            } else {
                Some((key, value))
            }
        },
        None => None,
    }
}

impl CookieStore {
    /// An empty store.
    pub fn new() -> (r: Self)
        ensures
            r@ == Map::<Seq<char>, Seq<char>>::empty(),
            r.entries() == Seq::<CookieEntry>::empty(),
            sorted_names(r.entries()),
    {
        let r = CookieStore { items: Vec::new() };
        assert(r.entries() =~= Seq::<CookieEntry>::empty());
        assert(r@ =~= Map::<Seq<char>, Seq<char>>::empty());
        r
    }

    /// The value stored under `key`.
    pub fn get(&self, key: &str) -> (r: Option<&str>)
        ensures
            r is Some <==> self@.contains_key(key@),
            r matches Some(v) ==> v@ == self@[key@],
            sorted_names(self.entries()),
    {
        proof {
            use_type_invariant(self);
        }
        let mut i: usize = 0;
        while i < self.items.len()
            invariant
                0 <= i <= self.items.len(),
                sorted_names(self.entries()),
                forall|j: int| 0 <= j < i ==> self.entries()[j].0 != key@,
            decreases self.items.len() - i,
        {
            if lex_order(self.items[i].0.as_str(), key) == LexOrder::Equal {
                proof {
                    lemma_map_of_at(self.entries(), i as int);
                }
                return Some(self.items[i].1.as_str());
            }
            i += 1;
        }
        assert(!has_name(self.entries(), key@));
        None
    }

    /// Whether the value under `key` is missing or empty.
    pub fn is_empty(&self, key: &str) -> (r: bool)
        ensures
            r == (!self@.contains_key(key@) || self@[key@].len() == 0),
    {
        match self.get(key) {
            Some(v) => v.is_empty(),
            None => true,
        }
    }

    /// Stores `value` under `key`, replacing any value there.
    pub fn insert(&mut self, key: &str, value: &str)
        ensures
            final(self)@ == old(self)@.insert(key@, value@),
            sorted_names(final(self).entries()),
    {
        proof {
            use_type_invariant(&*self);
        }
        let ghost e = self.entries();
        let mut i: usize = 0;
        while i < self.items.len() && lex_order(self.items[i].0.as_str(), key) == LexOrder::Less
            invariant
                0 <= i <= self.items.len(),
                e == self.entries(),
                sorted_names(e),
                forall|j: int| 0 <= j < i ==> lex_lt(#[trigger] e[j].0, key@),
            decreases self.items.len() - i,
        {
            i += 1;
        }
        let pair = (String::from_str(key), String::from_str(value));
        let ghost new_entry: CookieEntry = (key@, value@);
        if i < self.items.len() && lex_order(self.items[i].0.as_str(), key) == LexOrder::Equal {
            let ghost ne = e.update(i as int, new_entry);
            let mut items = Vec::new();
            std::mem::swap(&mut items, &mut self.items);
            items.set(i, pair);
            proof {
                assert(pair_views(items@) =~= ne);
                assert forall|a: int, b: int| 0 <= a < b < ne.len() implies lex_lt(
                    #[trigger] ne[a].0,
                    #[trigger] ne[b].0,
                ) by {
                    assert(ne[a].0 == e[a].0);
                    assert(ne[b].0 == e[b].0);
                }
                assert(ne[i as int].0 == key@);
                lemma_unique_name(ne, i as int);
                assert forall|j: int| 0 <= j < ne.len() && ne[j].0 != key@ implies #[trigger] has_name(
                    e,
                    ne[j].0,
                ) && map_of(e)[ne[j].0] == ne[j].1 by {
                    assert(ne[j] == e[j]);
                    lemma_map_of_at(e, j);
                }
                assert forall|j: int| 0 <= j < e.len() && e[j].0 != key@ implies #[trigger] has_name(
                    ne,
                    e[j].0,
                ) by {
                    assert(ne[j] == e[j]);
                }
                lemma_insert_view(e, ne, key@, value@);
            }
            self.items = items;
        } else {
            let ghost ne = e.insert(i as int, new_entry);
            proof {
                if i < e.len() {
                    assert(lex_lt(key@, e[i as int].0));
                }
            }
            let mut items = Vec::new();
            std::mem::swap(&mut items, &mut self.items);
            items.insert(i, pair);
            proof {
                assert(pair_views(items@) =~= ne);
                assert forall|a: int, b: int| 0 <= a < b < ne.len() implies lex_lt(
                    #[trigger] ne[a].0,
                    #[trigger] ne[b].0,
                ) by {
                    if b < i {
                        assert(ne[a] == e[a] && ne[b] == e[b]);
                    } else if b == i {
                        assert(ne[a] == e[a]);
                    } else if a == i {
                        assert(ne[b] == e[b - 1]);
                        if b - 1 > i {
                            assert(lex_lt(e[i as int].0, e[b - 1].0));
                            lemma_lex_lt_transitive(key@, e[i as int].0, e[b - 1].0);
                        }
                    } else if a < i {
                        assert(ne[a] == e[a] && ne[b] == e[b - 1]);
                    } else {
                        assert(ne[a] == e[a - 1] && ne[b] == e[b - 1]);
                    }
                }
                assert(ne[i as int].0 == key@);
                lemma_unique_name(ne, i as int);
                assert forall|j: int| 0 <= j < ne.len() && ne[j].0 != key@ implies #[trigger] has_name(
                    e,
                    ne[j].0,
                ) && map_of(e)[ne[j].0] == ne[j].1 by {
                    if j < i {
                        assert(ne[j] == e[j]);
                        lemma_map_of_at(e, j);
                    } else {
                        assert(ne[j] == e[j - 1]);
                        lemma_map_of_at(e, j - 1);
                    }
                }
                assert forall|j: int| 0 <= j < e.len() && e[j].0 != key@ implies #[trigger] has_name(
                    ne,
                    e[j].0,
                ) by {
                    if j < i {
                        assert(ne[j] == e[j]);
                    } else {
                        assert(ne[j + 1] == e[j]);
                    }
                }
                lemma_insert_view(e, ne, key@, value@);
            }
            self.items = items;
        }
        proof {
            use_type_invariant(&*self);
        }
    }

    /// Stores the cookie that a `Set-Cookie` header sets, if any.
    pub fn merge_set_cookie(&mut self, header: &str)
        ensures
            final(self)@ == merge_set_cookie_map(old(self)@, header@),
            sorted_names(final(self).entries()),
    {
        if let Some((k, v)) = parse_set_cookie(header) {
            self.insert(k.as_str(), v.as_str());
        }
        proof {
            use_type_invariant(&*self);
        }
    }

    /// Stores the cookies that a list of `Set-Cookie` header values sets, in order.
    pub fn merge_set_cookies(&mut self, headers: &Vec<String>)
        ensures
            final(self)@ == merge_set_cookies_map(
                old(self)@,
                views(headers@),
            ),
            sorted_names(final(self).entries()),
    {
        let ghost hs = views(headers@);
        let mut i: usize = 0;
        while i < headers.len()
            invariant
                0 <= i <= headers.len(),
                hs == views(headers@),
                self@ == merge_set_cookies_map(old(self)@, hs.take(i as int)),
            decreases headers.len() - i,
        {
            self.merge_set_cookie(headers[i].as_str());
            proof {
                assert(hs.take(i + 1).drop_last() =~= hs.take(i as int));
            }
            i += 1;
        }
        assert(hs.take(headers.len() as int) =~= hs);
        proof {
            use_type_invariant(&*self);
        }
    }

    /// Stores the `name=value` pairs of a `;`-separated `cookie` string, in order.
    pub fn merge_cookie_pairs(&mut self, cookie_str: &str)
        ensures
            final(self)@ == merge_pairs_map(old(self)@, split_seq(cookie_str@, ';')),
            sorted_names(final(self).entries()),
    {
        let pieces = split_char(cookie_str, ';');
        let ghost ps = split_seq(cookie_str@, ';');
        let mut i: usize = 0;
        while i < pieces.len()
            invariant
                0 <= i <= pieces.len(),
                pieces@.len() == ps.len(),
                forall|j: int| 0 <= j < pieces@.len() ==> #[trigger] pieces@[j]@ == ps[j],
                self@ == merge_pairs_map(old(self)@, ps.take(i as int)),
            decreases pieces.len() - i,
        {
            let pair = trim(pieces[i].as_str());
            let v = chars_of(pair.as_str());
            let ghost before = self@;
            match find_char(&v, '=') {
                Some(eq) => {
                    let raw_key = string_of_range(&v, 0, eq);
                    let raw_value = string_of_range(&v, eq + 1, v.len());
                    proof {
                        assert(raw_key@ =~= pair@.take(eq as int));
                        assert(raw_value@ =~= pair@.skip(eq + 1));
                    }
                    let k = trim(raw_key.as_str());
                    let val = trim(raw_value.as_str());
                    if !k.as_str().is_empty() {
                        self.insert(k.as_str(), val.as_str());
                    }
                },
                None => {},
            }
            proof {
                assert(ps.take(i + 1).drop_last() =~= ps.take(i as int));
                assert(self@ == merge_pair_map(before, ps[i as int]));
            }
            i += 1;
        }
        assert(ps.take(pieces@.len() as int) =~= ps);
        proof {
            use_type_invariant(&*self);
        }
    }

    /// Stores the pairs of a reply body's `cookie` member, when the body has
    /// one (`body_cookie` is that member as read from the body).
    pub fn merge_cookies_from_body_if_present(&mut self, body_cookie: Option<&str>)
        ensures
            final(self)@ == match body_cookie {
                Some(c) => merge_pairs_map(old(self)@, split_seq(c@, ';')),
                None => old(self)@,
            },
            sorted_names(final(self).entries()),
    {
        match body_cookie {
            Some(c) => self.merge_cookie_pairs(c),
            None => {},
        }
        proof {
            use_type_invariant(&*self);
        }
    }

    /// The `Cookie` header for these cookies, `name=value`
    /// pairs in name order joined by `"; "`.
    pub fn to_cookie_header(&self) -> (r: String)
        ensures
            r@ == header_of(self.entries()),
            sorted_names(self.entries()),
    {
        proof {
            use_type_invariant(self);
        }
        let mut parts: Vec<String> = Vec::new();
        let mut i: usize = 0;
        while i < self.items.len()
            invariant
                0 <= i <= self.items.len(),
                parts@.len() == i,
                forall|j: int| 0 <= j < i ==> #[trigger] parts@[j]@ == pair_text(self.entries()[j]),
            decreases self.items.len() - i,
        {
            let p = concat3(self.items[i].0.as_str(), "=", self.items[i].1.as_str());
            parts.push(p);
            i += 1;
        }
        let r = join(&parts, "; ");
        assert(views(parts@) =~= self.entries().map_values(|p: CookieEntry| pair_text(p)));
        r
    }

    /// The pairs, in name order.
    pub fn pairs(&self) -> (r: Vec<(String, String)>)
        ensures
            pair_views(r@) == self.entries(),
            sorted_names(self.entries()),
    {
        proof {
            use_type_invariant(self);
        }
        let mut out: Vec<(String, String)> = Vec::new();
        let mut i: usize = 0;
        while i < self.items.len()
            invariant
                0 <= i <= self.items.len(),
                out@.len() == i,
                pair_views(out@) == self.entries().take(i as int),
            decreases self.items.len() - i,
        {
            let p = (self.items[i].0.clone(), self.items[i].1.clone());
            let ghost before = out@;
            out.push(p);
            proof {
                assert(out@ == before.push(p));
                assert(self.entries()[i as int] == (p.0@, p.1@));
                let lhs = pair_views(out@);
                let rhs = self.entries().take(i + 1);
                assert forall|j: int| 0 <= j < i + 1 implies lhs[j] == rhs[j] by {
                    if j < i {
                        assert(pair_views(before)[j] == self.entries().take(i as int)[j]);
                    }
                }
                assert(lhs =~= rhs);
            }
            i += 1;
        }
        assert(self.entries().take(self.items.len() as int) =~= self.entries());
        out
    }

    /// A store holding the given pairs, inserted in order (a later pair wins).
    pub fn from_pairs(pairs: &Vec<(String, String)>) -> (r: Self)
        ensures
            r@ == insert_all(Map::empty(), pair_views(pairs@)),
            sorted_names(r.entries()),
    {
        let ghost ps = pair_views(pairs@);
        let mut r = CookieStore::new();
        let mut i: usize = 0;
        while i < pairs.len()
            invariant
                0 <= i <= pairs.len(),
                ps == pair_views(pairs@),
                r@ == insert_all(Map::empty(), ps.take(i as int)),
            decreases pairs.len() - i,
        {
            r.insert(pairs[i].0.as_str(), pairs[i].1.as_str());
            proof {
                assert(ps.take(i + 1).drop_last() =~= ps.take(i as int));
            }
            i += 1;
        }
        assert(ps.take(pairs.len() as int) =~= ps);
        proof {
            use_type_invariant(&r);
        }
        r
    }
}

impl Clone for CookieStore {
    fn clone(&self) -> (r: Self)
        ensures
            r.entries() == self.entries(),
            sorted_names(r.entries()),
    {
        proof {
            use_type_invariant(self);
        }
        let p = self.pairs();
        let r = CookieStore { items: p };
        r
    }
}

/// The map after inserting each entry of `e` in order.
pub open spec fn insert_all(m: Map<Seq<char>, Seq<char>>, e: Seq<CookieEntry>) -> Map<
    Seq<char>,
    Seq<char>,
>
    decreases e.len(),
{
    if e.len() == 0 {
        m
    } else {
        insert_all(m, e.drop_last()).insert(e.last().0, e.last().1)
    }
}

/// What a store gives back of a write: after `insert(k, v)`, `get(k)` gives `v`,
/// `is_empty(k)` holds exactly when `v` is empty, and every other name keeps
/// what it had.
pub proof fn law_get_after_insert(s: CookieStore, k: Seq<char>, v: Seq<char>, other: Seq<char>)
    requires
        other != k,
    ensures
        s@.insert(k, v).contains_key(k),
        s@.insert(k, v)[k] == v,
        (!s@.insert(k, v).contains_key(k) || s@.insert(k, v)[k].len() == 0) <==> v.len() == 0,
        s@.insert(k, v).contains_key(other) == s@.contains_key(other),
        s@.contains_key(other) ==> s@.insert(k, v)[other] == s@[other],
{
}

/// Inserting the entries of a sorted listing one by one builds the map it
/// stands for.
proof fn lemma_insert_all_sorted(e: Seq<CookieEntry>)
    requires
        sorted_names(e),
    ensures
        insert_all(Map::empty(), e) == map_of(e),
    decreases e.len(),
{
    if e.len() == 0 {
        assert(map_of(e) =~= Map::<Seq<char>, Seq<char>>::empty());
    } else {
        let p = e.drop_last();
        let n = (e.len() - 1) as int;
        assert(sorted_names(p)) by {
            assert forall|i: int, j: int| 0 <= i < j < p.len() implies lex_lt(#[trigger] p[i].0, #[trigger] p[j].0) by {
                assert(p[i] == e[i] && p[j] == e[j]);
            }
        }
        lemma_insert_all_sorted(p);
        let last = e.last();
        let m = map_of(p).insert(last.0, last.1);
        assert forall|k: Seq<char>| #[trigger] m.contains_key(k) == map_of(e).contains_key(k)
            && (m.contains_key(k) ==> m[k] == map_of(e)[k]) by {
            if k == last.0 {
                lemma_map_of_at(e, n);
            } else {
                if map_of(p).contains_key(k) {
                    let i = choose|i: int| 0 <= i < p.len() && #[trigger] p[i].0 == k;
                    lemma_map_of_at(p, i);
                    assert(e[i] == p[i]);
                    lemma_map_of_at(e, i);
                }
                if map_of(e).contains_key(k) {
                    let i = choose|i: int| 0 <= i < e.len() && #[trigger] e[i].0 == k;
                    assert(i != n);
                    assert(p[i] == e[i]);
                    assert(has_name(p, k));
                }
            }
        }
        assert(m =~= map_of(e));
    }
}

/// What one call undoes of another: a store built (`from_pairs`) from the
/// pairs that a store lists (`pairs`) holds the same cookies as that store.
pub proof fn law_pairs_round_trip(s: CookieStore, listed: Seq<(String, String)>)
    requires
        sorted_names(s.entries()),
        pair_views(listed) == s.entries(),
    ensures
        insert_all(Map::empty(), pair_views(listed)) == s@,
{
    lemma_insert_all_sorted(s.entries());
}

/// Every entry can be written into a `Cookie` header and read back: a trimmed,
/// non-empty name without `;` or `=`, and a trimmed value without `;`.
pub open spec fn header_safe(e: Seq<CookieEntry>) -> bool {
    forall|i: int|
        0 <= i < e.len() ==> {
            let k = (#[trigger] e[i]).0;
            let v = e[i].1;
            &&& k.len() > 0
            &&& trim_seq(k) == k
            &&& trim_seq(v) == v
            &&& forall|j: int| 0 <= j < k.len() ==> k[j] != ';' && k[j] != '='
            &&& forall|j: int| 0 <= j < v.len() ==> v[j] != ';'
        }
}

/// A text without `;` is a single piece.
proof fn lemma_split_no_sep(x: Seq<char>)
    requires
        forall|j: int| 0 <= j < x.len() ==> x[j] != ';',
    ensures
        split_seq(x, ';') == seq![x],
{
    crate::text::lemma_find_char_first(x, ';', x.len() as int);
}

/// Splitting at `;` a text joined by a `;` gives the pieces of both parts.
proof fn lemma_split_concat(x: Seq<char>, y: Seq<char>)
    ensures
        split_seq(x + ";"@ + y, ';') == split_seq(x, ';') + split_seq(y, ';'),
    decreases x.len(),
{
    reveal_strlit(";");
    let t = x + ";"@ + y;
    assert forall|j: int| 0 <= j < x.len() implies t[j] == x[j] by {}
    assert(t[x.len() as int] == ';');
    crate::text::lemma_find_char_in_range(x, ';');
    match find_char_seq(x, ';') {
        Some(i) => {
            crate::text::lemma_find_char_first(t, ';', i);
            assert(t.take(i) =~= x.take(i));
            assert(t.skip(i + 1) =~= x.skip(i + 1) + ";"@ + y);
            lemma_split_concat(x.skip(i + 1), y);
            assert(split_seq(t, ';') =~= seq![x.take(i)] + split_seq(x.skip(i + 1), ';') + split_seq(y, ';'));
        },
        None => {
            crate::text::lemma_find_char_first(t, ';', x.len() as int);
            assert(t.take(x.len() as int) =~= x);
            assert(t.skip(x.len() as int + 1) =~= y);
        },
    }
}

/// A piece `name=value` of a header, after an optional space, sets that pair.
proof fn lemma_header_piece(m: Map<Seq<char>, Seq<char>>, pre: Seq<char>, k: Seq<char>, v: Seq<char>)
    requires
        pre == Seq::<char>::empty() || pre == " "@,
        k.len() > 0,
        trim_seq(k) == k,
        trim_seq(v) == v,
        forall|j: int| 0 <= j < k.len() ==> k[j] != ';' && k[j] != '=',
    ensures
        merge_pair_map(m, pre + (k + "="@ + v)) == m.insert(k, v),
{
    reveal_strlit(" ");
    reveal_strlit("=");
    let text = k + "="@ + v;
    let p = pre + text;
    lemma_trim_bounds(k);
    assert(text[0] == k[0]);
    assert forall|j: int| 0 <= j < pre.len() implies crate::text::is_ws(#[trigger] p[j]) by {
        assert(p[j] == ' ');
        assert((' ' as u32) == 0x20);
    }
    assert(p[pre.len() as int] == text[0]);
    crate::text::lemma_trim_start_at(p, pre.len() as int);
    assert(p.skip(pre.len() as int) =~= text);
    if v.len() > 0 {
        lemma_trim_bounds(v);
        assert(text.last() == v.last());
    } else {
        assert(text.last() == '=');
        assert(('=' as u32) == 0x3d);
    }
    crate::text::lemma_trim_end_at(text, text.len() as int);
    assert(text.take(text.len() as int) =~= text);
    assert(trim_seq(p) == text);
    assert forall|j: int| 0 <= j < k.len() implies text[j] != '=' by {
        assert(text[j] == k[j]);
    }
    assert(text[k.len() as int] == '=');
    crate::text::lemma_find_char_first(text, '=', k.len() as int);
    assert(text.take(k.len() as int) =~= k);
    assert(text.skip(k.len() as int + 1) =~= v);
}

/// Reading a header back, piece by piece, inserts its entries in order.
proof fn lemma_header_reads_back(m: Map<Seq<char>, Seq<char>>, e: Seq<CookieEntry>)
    requires
        header_safe(e),
    ensures
        merge_pairs_map(m, split_seq(header_of(e), ';')) == insert_all(m, e),
    decreases e.len(),
{
    reveal_strlit("=");
    reveal_strlit("; ");
    reveal_strlit(";");
    reveal_strlit(" ");
    let texts = e.map_values(|p: CookieEntry| pair_text(p));
    if e.len() == 0 {
        assert(header_of(e) =~= Seq::<char>::empty());
        crate::text::lemma_find_char_first(Seq::<char>::empty(), ';', 0);
        assert(split_seq(header_of(e), ';') == seq![Seq::<char>::empty()]);
        let pieces = seq![Seq::<char>::empty()];
        assert(pieces.drop_last() =~= Seq::<Seq<char>>::empty());
        assert(trim_seq(Seq::<char>::empty()) =~= Seq::<char>::empty());
        crate::text::lemma_find_char_first(Seq::<char>::empty(), '=', 0);
        assert(merge_pairs_map(m, pieces.drop_last()) == m);
        assert(merge_pair_map(m, Seq::<char>::empty()) == m);
        assert(merge_pairs_map(m, pieces) == m);
        assert(insert_all(m, e) == m);
    } else {
        let k = e.last().0;
        let v = e.last().1;
        let last = e.len() - 1;
        assert(e[last] == e.last());
        let text = k + "="@ + v;
        assert(texts.last() == text);
        assert forall|j: int| 0 <= j < text.len() implies text[j] != ';' by {
            if j < k.len() {
                assert(text[j] == k[j]);
            } else if j > k.len() {
                assert(text[j] == v[j - k.len() - 1]);
            }
        }
        let p = e.drop_last();
        assert(header_safe(p)) by {
            assert forall|i: int| 0 <= i < p.len() implies #[trigger] p[i] == e[i] by {}
        }
        if e.len() == 1 {
            assert(header_of(e) == text);
            lemma_split_no_sep(text);
            let pieces = seq![text];
            assert(pieces.drop_last() =~= Seq::<Seq<char>>::empty());
            assert(p =~= Seq::<CookieEntry>::empty());
            lemma_header_piece(m, Seq::<char>::empty(), k, v);
            assert(Seq::<char>::empty() + text =~= text);
            assert(merge_pairs_map(m, pieces.drop_last()) == m);
            assert(merge_pairs_map(m, pieces) == merge_pair_map(m, text));
            assert(insert_all(m, p) == m);
            assert(insert_all(m, e) == m.insert(k, v));
        } else {
            assert(texts.drop_last() =~= p.map_values(|q: CookieEntry| pair_text(q)));
            let hp = header_of(p);
            assert(header_of(e) == hp + "; "@ + text);
            assert(hp + "; "@ + text =~= hp + ";"@ + (" "@ + text));
            lemma_split_concat(hp, " "@ + text);
            assert forall|j: int| 0 <= j < (" "@ + text).len() implies (" "@ + text)[j] != ';' by {
                if j > 0 {
                    assert((" "@ + text)[j] == text[j - 1]);
                }
            }
            lemma_split_no_sep(" "@ + text);
            let a = split_seq(hp, ';');
            let pieces = a + seq![" "@ + text];
            assert(split_seq(header_of(e), ';') == pieces);
            assert(pieces.drop_last() =~= a);
            lemma_header_reads_back(m, p);
            lemma_header_piece(insert_all(m, p), " "@, k, v);
            assert(merge_pairs_map(m, pieces) == merge_pair_map(insert_all(m, p), " "@ + text));
            assert(insert_all(m, e) == insert_all(m, p).insert(k, v));
        }
    }
}

/// A store's `Cookie` header read back into an empty store (`merge_cookie_pairs`)
/// gives the same cookies, when every name and value can be written into a
/// header.
pub proof fn law_header_reads_back(s: CookieStore)
    requires
        sorted_names(s.entries()),
        header_safe(s.entries()),
    ensures
        merge_pairs_map(Map::empty(), split_seq(header_of(s.entries()), ';')) == s@,
{
    lemma_header_reads_back(Map::empty(), s.entries());
    lemma_insert_all_sorted(s.entries());
}

/// The `Cookie` header of a store depends only on the cookies it holds: two
/// stores with the same name/value pairs write the same header.
pub proof fn law_header_determined_by_contents(a: CookieStore, b: CookieStore)
    requires
        sorted_names(a.entries()),
        sorted_names(b.entries()),
        a@ == b@,
    ensures
        header_of(a.entries()) == header_of(b.entries()),
{
    lemma_sorted_listing_unique(a.entries(), b.entries());
}

/// A `Set-Cookie` header `name=value; attributes...` sets `name` to `value`
/// when the name is trimmed, not empty, and holds no `;` or `=`, and the value is
/// trimmed and holds no `;`; the attributes are ignored.
pub proof fn law_set_cookie_sets_pair(name: Seq<char>, value: Seq<char>, attrs: Seq<char>)
    requires
        name.len() > 0,
        trim_seq(name) == name,
        trim_seq(value) == value,
        forall|i: int| 0 <= i < name.len() ==> #[trigger] name[i] != ';' && name[i] != '=',
        forall|i: int| 0 <= i < value.len() ==> #[trigger] value[i] != ';',
    ensures
        parse_set_cookie_seq(name + "="@ + value + ";"@ + attrs) == Some((name, value)),
        parse_set_cookie_seq(name + "="@ + value) == Some((name, value)),
{
    reveal_strlit("=");
    reveal_strlit(";");
    let seg = name + "="@ + value;
    assert(seg.len() == name.len() + 1 + value.len());
    assert forall|i: int| 0 <= i < seg.len() implies seg[i] != ';' by {
        if i < name.len() {
            assert(seg[i] == name[i]);
        } else if i == name.len() {
            assert(seg[i] == '=');
        } else {
            assert(seg[i] == value[i - name.len() - 1]);
        }
    }
    // The first `;`-segment is `name=value`.
    let h = seg + ";"@ + attrs;
    assert forall|j: int| 0 <= j < seg.len() implies h[j] != ';' by {
        assert(h[j] == seg[j]);
    }
    assert(h[seg.len() as int] == ';');
    crate::text::lemma_find_char_first(h, ';', seg.len() as int);
    assert(h.take(seg.len() as int) =~= seg);
    assert(split_seq(h, ';')[0] == seg);
    crate::text::lemma_find_char_first(seg, ';', seg.len() as int);
    assert(split_seq(seg, ';') == seq![seg]);
    // The segment is already trimmed: it starts with the name and ends with
    // the value, or with `=` when the value is empty.
    lemma_trim_bounds(name);
    if value.len() > 0 {
        lemma_trim_bounds(value);
        assert(seg.last() == value.last());
    } else {
        assert(seg.last() == '=');
    }
    assert(seg[0] == name[0]);
    crate::text::lemma_trim_identity(seg);
    // The first `=` follows the name.
    assert forall|j: int| 0 <= j < name.len() implies seg[j] != '=' by {
        assert(seg[j] == name[j]);
    }
    crate::text::lemma_find_char_first(seg, '=', name.len() as int);
    assert(seg.take(name.len() as int) =~= name);
    assert(seg.skip(name.len() as int + 1) =~= value);
}

/// A non-empty trimmed string starts and ends with non-whitespace.
proof fn lemma_trim_bounds(s: Seq<char>)
    requires
        s.len() > 0,
        trim_seq(s) == s,
    ensures
        !crate::text::is_ws(s[0]),
        !crate::text::is_ws(s.last()),
{
    if crate::text::is_ws(s[0]) {
        assert(crate::text::trim_start_seq(s) == crate::text::trim_start_seq(s.drop_first()));
        lemma_trim_shorter(s.drop_first());
        assert(false);
    }
    if crate::text::is_ws(s.last()) {
        lemma_trim_start_len(s);
        let t = crate::text::trim_start_seq(s);
        if t.len() == s.len() {
            assert(t == s) by {
                lemma_trim_start_suffix(s);
            }
            assert(crate::text::trim_end_seq(t) == crate::text::trim_end_seq(t.drop_last()));
            lemma_trim_end_len(t.drop_last());
            assert(false);
        } else {
            lemma_trim_end_len(t);
            assert(false);
        }
    }
}

proof fn lemma_trim_shorter(s: Seq<char>)
    ensures
        trim_seq(s).len() <= s.len(),
{
    lemma_trim_start_len(s);
    lemma_trim_end_len(crate::text::trim_start_seq(s));
}

proof fn lemma_trim_start_len(s: Seq<char>)
    ensures
        crate::text::trim_start_seq(s).len() <= s.len(),
    decreases s.len(),
{
    if s.len() > 0 && crate::text::is_ws(s[0]) {
        lemma_trim_start_len(s.drop_first());
    }
}

proof fn lemma_trim_start_suffix(s: Seq<char>)
    ensures
        crate::text::trim_start_seq(s).len() == s.len() ==> crate::text::trim_start_seq(s) == s,
    decreases s.len(),
{
    if s.len() > 0 && crate::text::is_ws(s[0]) {
        lemma_trim_start_len(s.drop_first());
    }
}

proof fn lemma_trim_end_len(s: Seq<char>)
    ensures
        crate::text::trim_end_seq(s).len() <= s.len(),
    decreases s.len(),
{
    if s.len() > 0 && crate::text::is_ws(s.last()) {
        lemma_trim_end_len(s.drop_last());
    }
}

/// In a sorted listing, the name at `i` occurs nowhere else.
proof fn lemma_unique_name(e: Seq<CookieEntry>, i: int)
    requires
        sorted_names(e),
        0 <= i < e.len(),
    ensures
        forall|j: int| 0 <= j < e.len() && #[trigger] e[j].0 == e[i].0 ==> j == i,
{
    assert forall|j: int| 0 <= j < e.len() && #[trigger] e[j].0 == e[i].0 implies j == i by {
        if j < i {
            assert(lex_lt(e[j].0, e[i].0));
            lemma_lex_lt_irreflexive(e[i].0);
        } else if i < j {
            assert(lex_lt(e[i].0, e[j].0));
            lemma_lex_lt_irreflexive(e[i].0);
        }
    }
}

/// A sorted listing `ne` that is `e` with `(k, v)` put in place of the entry named
/// `k`, or added, stands for the map of `e` with `k` set to `v`.
proof fn lemma_insert_view(e: Seq<CookieEntry>, ne: Seq<CookieEntry>, k: Seq<char>, v: Seq<char>)
    requires
        sorted_names(e),
        sorted_names(ne),
        has_name(ne, k),
        forall|i: int| 0 <= i < ne.len() && ne[i].0 == k ==> ne[i].1 == v,
        forall|i: int| 0 <= i < ne.len() && ne[i].0 != k ==> #[trigger] has_name(e, ne[i].0) && map_of(e)[ne[i].0] == ne[i].1,
        forall|i: int| 0 <= i < e.len() && e[i].0 != k ==> #[trigger] has_name(ne, e[i].0),
    ensures
        map_of(ne) == map_of(e).insert(k, v),
{
    assert forall|x: Seq<char>| #[trigger] map_of(ne).contains_key(x) == map_of(e).insert(k, v).contains_key(x) by {
        if map_of(ne).contains_key(x) && x != k {
            let i = choose|i: int| 0 <= i < ne.len() && #[trigger] ne[i].0 == x;
            assert(has_name(e, ne[i].0));
        }
        if map_of(e).contains_key(x) && x != k {
            let i = choose|i: int| 0 <= i < e.len() && #[trigger] e[i].0 == x;
            assert(has_name(ne, e[i].0));
        }
    }
    assert forall|x: Seq<char>| #[trigger] map_of(ne).contains_key(x) implies map_of(ne)[x] == map_of(
        e,
    ).insert(k, v)[x] by {
        let i = choose|i: int| 0 <= i < ne.len() && #[trigger] ne[i].0 == x;
        lemma_map_of_at(ne, i);
    }
    assert(map_of(ne) =~= map_of(e).insert(k, v));
}

} // verus!
