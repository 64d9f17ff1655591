//! Character-level string operations with exact specifications.
//!
//! Strings are modelled by their views, `Seq<char>`.  The byte-oriented
//! operations of `str` (length in bytes, slicing at a byte offset) are stated
//! over vstd's UTF-8 model.
use vstd::prelude::*;

verus! {

// ---------------------------------------------------------------------------
// Specifications
// ---------------------------------------------------------------------------

/// `char::is_whitespace`: the characters with the Unicode `White_Space` property.
pub open spec fn is_ws(c: char) -> bool {
    let u = c as u32;
    ||| 0x09 <= u <= 0x0d
    ||| u == 0x20
    ||| u == 0x85
    ||| u == 0xa0
    ||| u == 0x1680
    ||| 0x2000 <= u <= 0x200a
    ||| u == 0x2028
    ||| u == 0x2029
    ||| u == 0x202f
    ||| u == 0x205f
    ||| u == 0x3000
}

/// `s` without its leading whitespace.
pub open spec fn trim_start_seq(s: Seq<char>) -> Seq<char>
    decreases s.len(),
{
    if s.len() > 0 && is_ws(s[0]) {
        trim_start_seq(s.drop_first())
    } else {
        s
    }
}

/// `s` without its trailing whitespace.
pub open spec fn trim_end_seq(s: Seq<char>) -> Seq<char>
    decreases s.len(),
{
    if s.len() > 0 && is_ws(s.last()) {
        trim_end_seq(s.drop_last())
    } else {
        s
    }
}

/// `str::trim`.
pub open spec fn trim_seq(s: Seq<char>) -> Seq<char> {
    trim_end_seq(trim_start_seq(s))
}

/// `s` without the leading repetitions of `c` (`str::trim_start_matches` with a char).
pub open spec fn trim_start_char_seq(s: Seq<char>, c: char) -> Seq<char>
    decreases s.len(),
{
    if s.len() > 0 && s[0] == c {
        trim_start_char_seq(s.drop_first(), c)
    } else {
        s
    }
}

/// `s` without the trailing repetitions of `c` (`str::trim_end_matches` with a char).
pub open spec fn trim_end_char_seq(s: Seq<char>, c: char) -> Seq<char>
    decreases s.len(),
{
    if s.len() > 0 && s.last() == c {
        trim_end_char_seq(s.drop_last(), c)
    } else {
        s
    }
}

/// The index of the first occurrence of `c` in `s`.
pub open spec fn find_char_seq(s: Seq<char>, c: char) -> Option<int>
    decreases s.len(),
{
    if s.len() == 0 {
        None
    } else if s[0] == c {
        Some(0)
    } else {
        match find_char_seq(s.drop_first(), c) {
            Some(i) => Some(i + 1),
            None => None,
        }
    }
}

/// The pieces of `s` between the occurrences of `c` (`str::split` with a char).
pub open spec fn split_seq(s: Seq<char>, c: char) -> Seq<Seq<char>>
    decreases s.len(),
{
    match find_char_seq(s, c) {
        Some(i) => if 0 <= i < s.len() {
            seq![s.take(i)] + split_seq(s.skip(i + 1), c)
        } else {
            seq![s]
        },
        None => seq![s],
    }
}

/// `p` occurs in `s` at position `i`.
pub open spec fn occurs_at(s: Seq<char>, p: Seq<char>, i: int) -> bool {
    0 <= i && i + p.len() <= s.len() && s.subrange(i, i + p.len()) == p
}

/// `str::contains` with a string pattern.
pub open spec fn contains_seq(s: Seq<char>, p: Seq<char>) -> bool {
    exists|i: int| #[trigger] occurs_at(s, p, i)
}

/// `str::starts_with` with a string pattern.
pub open spec fn starts_with_seq(s: Seq<char>, p: Seq<char>) -> bool {
    p.len() <= s.len() && s.take(p.len() as int) == p
}

/// `str::ends_with` with a string pattern.
pub open spec fn ends_with_seq(s: Seq<char>, p: Seq<char>) -> bool {
    p.len() <= s.len() && s.skip(s.len() - p.len()) == p
}

/// `char::to_ascii_lowercase`.
pub open spec fn lower_char(c: char) -> char {
    if 'A' <= c && c <= 'Z' {
        ((c as u32) + 32) as char
    } else {
        c
    }
}

/// `str::to_ascii_lowercase`.
pub open spec fn lower_seq(s: Seq<char>) -> Seq<char> {
    Seq::new(s.len(), |i: int| lower_char(s[i]))
}

/// Strict lexicographic order on strings by code point, which is the order
/// of `String` (byte order of UTF-8 is code point order).
pub open spec fn lex_lt(a: Seq<char>, b: Seq<char>) -> bool {
    exists|i: int| #[trigger] lex_lt_at(a, b, i)
}

/// `a` and `b` agree before `i`, and at `i` `a` ends first or has the smaller character.
pub open spec fn lex_lt_at(a: Seq<char>, b: Seq<char>, i: int) -> bool {
    &&& 0 <= i <= a.len()
    &&& i <= b.len()
    &&& forall|j: int| 0 <= j < i ==> a[j] == b[j]
    &&& (i == a.len() && i < b.len()) || (i < a.len() && i < b.len() && a[i] < b[i])
}

/// The decimal digit for `d < 10`.
pub open spec fn digit_char(d: nat) -> char {
    if d == 0 { '0' }
    else if d == 1 { '1' }
    else if d == 2 { '2' }
    else if d == 3 { '3' }
    else if d == 4 { '4' }
    else if d == 5 { '5' }
    else if d == 6 { '6' }
    else if d == 7 { '7' }
    else if d == 8 { '8' }
    else { '9' }
}

/// The decimal representation of `n`, as `to_string` writes it.
pub open spec fn decimal_seq(n: nat) -> Seq<char>
    decreases n,
{
    if n < 10 {
        seq![digit_char(n)]
    } else {
        decimal_seq(n / 10).push(digit_char(n % 10))
    }
}

/// The decimal representation of a signed integer, as `to_string` writes it.
pub open spec fn signed_decimal_seq(n: int) -> Seq<char> {
    if n < 0 {
        seq!['-'] + decimal_seq((-n) as nat)
    } else {
        decimal_seq(n as nat)
    }
}

pub open spec fn is_digit(c: char) -> bool {
    '0' <= c && c <= '9'
}

/// The value of a string of decimal digits.
pub open spec fn digits_value(s: Seq<char>) -> nat
    decreases s.len(),
{
    if s.len() == 0 {
        0
    } else {
        digits_value(s.drop_last()) * 10 + ((s.last() as u32) - ('0' as u32)) as nat
    }
}

/// The digits that `FromStr` of an unsigned integer reads: an optional `+`, then the rest.
pub open spec fn unsigned_digits(s: Seq<char>) -> Seq<char> {
    if s.len() > 0 && s[0] == '+' {
        s.drop_first()
    } else {
        s
    }
}

/// `FromStr` of an unsigned integer type whose largest value is `max`:
/// an optional `+`, then at least one ASCII digit and nothing else, with a value up to `max`.
pub open spec fn parse_unsigned_seq(s: Seq<char>, max: nat) -> Option<nat> {
    let d = unsigned_digits(s);
    if d.len() > 0 && (forall|i: int| 0 <= i < d.len() ==> is_digit(#[trigger] d[i]))
        && digits_value(d) <= max {
        Some(digits_value(d))
    } else {
        None
    }
}

/// The views of a list of strings.
pub open spec fn views(v: Seq<String>) -> Seq<Seq<char>> {
    Seq::new(v.len(), |i: int| v[i]@)
}

/// The pieces of `parts` joined by `sep` (`[T]::join`).
pub open spec fn join_seq(parts: Seq<Seq<char>>, sep: Seq<char>) -> Seq<char>
    decreases parts.len(),
{
    if parts.len() == 0 {
        Seq::empty()
    } else if parts.len() == 1 {
        parts[0]
    } else {
        join_seq(parts.drop_last(), sep) + sep + parts.last()
    }
}

/// `char::len_utf8`: the number of bytes of a character in UTF-8.
pub open spec fn char_utf8_len(c: char) -> nat {
    let u = c as u32;
    if u < 0x80 {
        1
    } else if u < 0x800 {
        2
    } else if u < 0x10000 {
        3
    } else {
        4
    }
}

/// `str::len`: the number of bytes of a string in UTF-8.
pub open spec fn utf8_len(s: Seq<char>) -> nat
    decreases s.len(),
{
    if s.len() == 0 {
        0
    } else {
        utf8_len(s.drop_last()) + char_utf8_len(s.last())
    }
}

/// Byte offset `n` of `s` falls between two characters, after the first `k`.
pub open spec fn boundary_at(s: Seq<char>, n: nat, k: int) -> bool {
    0 <= k <= s.len() && utf8_len(s.take(k)) == n
}

// ---------------------------------------------------------------------------
// Lemmas
// ---------------------------------------------------------------------------

pub proof fn lemma_lex_lt_irreflexive(a: Seq<char>)
    ensures
        !lex_lt(a, a),
{
    assert forall|i: int| !lex_lt_at(a, a, i) by {
        if lex_lt_at(a, a, i) {
            assert(i < a.len());
        }
    }
}

pub proof fn lemma_lex_lt_transitive(a: Seq<char>, b: Seq<char>, c: Seq<char>)
    requires
        lex_lt(a, b),
        lex_lt(b, c),
    ensures
        lex_lt(a, c),
{
    let i = choose|i: int| lex_lt_at(a, b, i);
    let j = choose|j: int| lex_lt_at(b, c, j);
    if i < j {
        assert(lex_lt_at(a, c, i));
    } else if j < i {
        assert(lex_lt_at(a, c, j));
    } else {
        assert(lex_lt_at(a, c, i));
    }
}

/// At most one of `a < b`, `a == b`, `b < a` holds.
pub proof fn lemma_lex_lt_asymmetric(a: Seq<char>, b: Seq<char>)
    requires
        lex_lt(a, b),
    ensures
        !lex_lt(b, a),
        a != b,
{
    let i = choose|i: int| lex_lt_at(a, b, i);
    if a == b {
        lemma_lex_lt_irreflexive(a);
    }
    assert forall|k: int| !lex_lt_at(b, a, k) by {
        if lex_lt_at(b, a, k) {
            if k < i {
                assert(a[k] == b[k]);
            } else if i < k {
                assert(a[i] == b[i]);
            }
        }
    }
}

/// `find_char_seq` finds the first `c`, or tells that there is none.
pub proof fn lemma_find_char_in_range(s: Seq<char>, c: char)
    ensures
        match find_char_seq(s, c) {
            Some(i) => 0 <= i < s.len() && s[i] == c && forall|j: int| 0 <= j < i ==> s[j] != c,
            None => forall|j: int| 0 <= j < s.len() ==> s[j] != c,
        },
    decreases s.len(),
{
    if s.len() > 0 {
        lemma_find_char_in_range(s.drop_first(), c);
        if s[0] != c {
            match find_char_seq(s.drop_first(), c) {
                Some(i) => {
                    assert forall|j: int| 0 <= j < i + 1 implies s[j] != c by {
                        if j > 0 {
                            assert(s[j] == s.drop_first()[j - 1]);
                        }
                    }
                },
                None => {
                    assert forall|j: int| 0 <= j < s.len() implies s[j] != c by {
                        if j > 0 {
                            assert(s[j] == s.drop_first()[j - 1]);
                        }
                    }
                },
            }
        }
    }
}

/// `find_char_seq` is the first index of `c`.
pub proof fn lemma_find_char_first(s: Seq<char>, c: char, i: int)
    requires
        0 <= i <= s.len(),
        forall|j: int| 0 <= j < i ==> s[j] != c,
    ensures
        i < s.len() && s[i] == c ==> find_char_seq(s, c) == Some(i),
        i == s.len() ==> find_char_seq(s, c) is None,
{
    lemma_find_char_in_range(s, c);
}

proof fn lemma_trim_start_shape(s: Seq<char>)
    ensures
        exists|k: int|
            0 <= k <= s.len() && trim_start_seq(s) == s.skip(k) && (forall|j: int|
                0 <= j < k ==> is_ws(#[trigger] s[j])) && (k < s.len() ==> !is_ws(s[k])),
    decreases s.len(),
{
    if s.len() > 0 && is_ws(s[0]) {
        lemma_trim_start_shape(s.drop_first());
        let k = choose|k: int|
            0 <= k <= s.drop_first().len() && trim_start_seq(s.drop_first()) == s.drop_first().skip(
                k,
            ) && (forall|j: int| 0 <= j < k ==> is_ws(#[trigger] s.drop_first()[j])) && (k
                < s.drop_first().len() ==> !is_ws(s.drop_first()[k]));
        assert(s.drop_first().skip(k) =~= s.skip(k + 1));
        assert forall|j: int| 0 <= j < k + 1 implies is_ws(#[trigger] s[j]) by {
            if j > 0 {
                assert(s[j] == s.drop_first()[j - 1]);
            }
        }
        assert(k + 1 < s.len() ==> s[k + 1] == s.drop_first()[k]);
    } else {
        assert(s.skip(0) =~= s);
    }
}

/// The leading whitespace of `s` ends at `k`.
pub proof fn lemma_trim_start_at(s: Seq<char>, k: int)
    requires
        0 <= k <= s.len(),
        forall|j: int| 0 <= j < k ==> is_ws(#[trigger] s[j]),
        k < s.len() ==> !is_ws(s[k]),
    ensures
        trim_start_seq(s) == s.skip(k),
{
    lemma_trim_start_shape(s);
    let k2 = choose|k2: int|
        0 <= k2 <= s.len() && trim_start_seq(s) == s.skip(k2) && (forall|j: int|
            0 <= j < k2 ==> is_ws(#[trigger] s[j])) && (k2 < s.len() ==> !is_ws(s[k2]));
    if k2 < k {
        assert(is_ws(s[k2]));
    } else if k < k2 {
        assert(is_ws(s[k]));
    }
}

proof fn lemma_trim_end_shape(s: Seq<char>)
    ensures
        exists|k: int|
            0 <= k <= s.len() && trim_end_seq(s) == s.take(k) && (forall|j: int|
                k <= j < s.len() ==> is_ws(#[trigger] s[j])) && (k > 0 ==> !is_ws(s[k - 1])),
    decreases s.len(),
{
    if s.len() > 0 && is_ws(s.last()) {
        lemma_trim_end_shape(s.drop_last());
        let k = choose|k: int|
            0 <= k <= s.drop_last().len() && trim_end_seq(s.drop_last()) == s.drop_last().take(k)
                && (forall|j: int| k <= j < s.drop_last().len() ==> is_ws(#[trigger] s.drop_last()[j]))
                && (k > 0 ==> !is_ws(s.drop_last()[k - 1]));
        assert(s.drop_last().take(k) =~= s.take(k));
        assert forall|j: int| k <= j < s.len() implies is_ws(#[trigger] s[j]) by {
            if j < s.len() - 1 {
                assert(s[j] == s.drop_last()[j]);
            }
        }
        assert(k > 0 ==> s[k - 1] == s.drop_last()[k - 1]);
    } else {
        assert(s.take(s.len() as int) =~= s);
    }
}

/// The trailing whitespace of `s` starts at `k`.
pub proof fn lemma_trim_end_at(s: Seq<char>, k: int)
    requires
        0 <= k <= s.len(),
        forall|j: int| k <= j < s.len() ==> is_ws(#[trigger] s[j]),
        k > 0 ==> !is_ws(s[k - 1]),
    ensures
        trim_end_seq(s) == s.take(k),
{
    lemma_trim_end_shape(s);
    let k2 = choose|k2: int|
        0 <= k2 <= s.len() && trim_end_seq(s) == s.take(k2) && (forall|j: int|
            k2 <= j < s.len() ==> is_ws(#[trigger] s[j])) && (k2 > 0 ==> !is_ws(s[k2 - 1]));
    if k2 < k {
        assert(is_ws(s[k - 1]));
    } else if k < k2 {
        assert(is_ws(s[k2 - 1]));
    }
}

/// A string that starts and ends with non-whitespace is its own trim.
pub proof fn lemma_trim_identity(s: Seq<char>)
    requires
        s.len() > 0 ==> !is_ws(s[0]) && !is_ws(s.last()),
    ensures
        trim_seq(s) == s,
{
    lemma_trim_start_at(s, 0);
    assert(s.skip(0) =~= s);
    lemma_trim_end_at(s, s.len() as int);
    assert(s.take(s.len() as int) =~= s);
}

proof fn lemma_digit_value(d: nat)
    requires
        d < 10,
    ensures
        is_digit(digit_char(d)),
        ((digit_char(d) as u32) - ('0' as u32)) as nat == d,
{
}

/// The decimal digits of `n` read back as `n`.
pub proof fn lemma_decimal_digits(n: nat)
    ensures
        decimal_seq(n).len() > 0,
        forall|i: int| 0 <= i < decimal_seq(n).len() ==> is_digit(#[trigger] decimal_seq(n)[i]),
        digits_value(decimal_seq(n)) == n,
    decreases n,
{
    if n < 10 {
        lemma_digit_value(n);
        assert(decimal_seq(n) =~= seq![digit_char(n)]);
        assert(seq![digit_char(n)].drop_last() =~= Seq::<char>::empty());
        assert(digits_value(seq![digit_char(n)]) == digits_value(Seq::<char>::empty()) * 10 + ((
        digit_char(n) as u32) - ('0' as u32)) as nat);
    } else {
        lemma_digit_value(n % 10);
        lemma_decimal_digits(n / 10);
        let d = decimal_seq(n / 10);
        let c = digit_char(n % 10);
        assert(decimal_seq(n) == d.push(c));
        assert(d.push(c).drop_last() =~= d);
        assert(digits_value(d.push(c)) == digits_value(d) * 10 + ((c as u32) - ('0' as u32)) as nat);
        assert((n / 10) * 10 + n % 10 == n);
        assert forall|i: int| 0 <= i < d.push(c).len() implies is_digit(#[trigger] d.push(c)[i]) by {
            if i < d.len() {
                assert(d.push(c)[i] == d[i]);
            }
        }
    }
}

/// A number written in decimal (`to_string`) reads back as itself (`FromStr`)
/// in any unsigned type that holds it.
pub proof fn law_decimal_reads_back(n: nat, max: nat)
    requires
        n <= max,
    ensures
        parse_unsigned_seq(decimal_seq(n), max) == Some(n),
{
    lemma_decimal_digits(n);
    let s = decimal_seq(n);
    assert(is_digit(s[0]));
    assert(unsigned_digits(s) == s);
}

proof fn lemma_trim_start_char_at(s: Seq<char>, c: char, k: int)
    requires
        0 <= k <= s.len(),
        forall|j: int| 0 <= j < k ==> #[trigger] s[j] == c,
        k < s.len() ==> s[k] != c,
    ensures
        trim_start_char_seq(s, c) == s.skip(k),
    decreases k,
{
    if k == 0 {
        assert(s.skip(0) =~= s);
    } else {
        assert forall|j: int| 0 <= j < k - 1 implies #[trigger] s.drop_first()[j] == c by {
            assert(s.drop_first()[j] == s[j + 1]);
        }
        assert(k - 1 < s.drop_first().len() ==> s.drop_first()[k - 1] == s[k]);
        lemma_trim_start_char_at(s.drop_first(), c, k - 1);
        assert(s.drop_first().skip(k - 1) =~= s.skip(k));
    }
}

proof fn lemma_trim_end_char_at(s: Seq<char>, c: char, k: int)
    requires
        0 <= k <= s.len(),
        forall|j: int| k <= j < s.len() ==> #[trigger] s[j] == c,
        k > 0 ==> s[k - 1] != c,
    ensures
        trim_end_char_seq(s, c) == s.take(k),
    decreases s.len() - k,
{
    if k == s.len() {
        assert(s.take(k) =~= s);
    } else {
        assert forall|j: int| k <= j < s.drop_last().len() implies #[trigger] s.drop_last()[j]
            == c by {
            assert(s.drop_last()[j] == s[j]);
        }
        assert(k > 0 ==> s.drop_last()[k - 1] == s[k - 1]);
        lemma_trim_end_char_at(s.drop_last(), c, k);
        assert(s.drop_last().take(k) =~= s.take(k));
    }
}

proof fn lemma_digits_value_push(s: Seq<char>, c: char)
    ensures
        digits_value(s.push(c)) == digits_value(s) * 10 + ((c as u32) - ('0' as u32)) as nat,
{
    assert(s.push(c).drop_last() =~= s);
}

/// Appending digits never makes the value smaller.
proof fn lemma_digits_value_prefix(s: Seq<char>, k: int)
    requires
        0 <= k <= s.len(),
        forall|i: int| 0 <= i < s.len() ==> is_digit(#[trigger] s[i]),
    ensures
        digits_value(s.take(k)) <= digits_value(s),
    decreases s.len() - k,
{
    if k < s.len() {
        lemma_digits_value_prefix(s, k + 1);
        assert(s.take(k + 1).drop_last() =~= s.take(k));
    } else {
        assert(s.take(k) =~= s);
    }
}

// ---------------------------------------------------------------------------
// Conversions between strings and characters
// ---------------------------------------------------------------------------

/// The characters of `s`, in order.
pub fn chars_of(s: &str) -> (out: Vec<char>)
    ensures
        out@ == s@,
{
    let mut out: Vec<char> = Vec::new();
    for c in it: s.chars()
        invariant
            out@ == it.seq().take(it.index() as int),
            it.seq() == s@,
    {
        out.push(c);
    }
    out
}

/// `String`'s `FromIterator<&char>` (`collect`) over a slice of characters:
/// the string made of those characters, in order, as std documents it.
#[verifier::external_body]
pub(crate) fn string_of(v: &[char]) -> (out: String)
    ensures
        out@ == v@,
{
    v.iter().collect()
}

/// The string of the characters of `v` between `lo` and `hi`.
pub fn string_of_range(v: &Vec<char>, lo: usize, hi: usize) -> (out: String)
    requires
        lo <= hi <= v.len(),
    ensures
        out@ == v@.subrange(lo as int, hi as int),
{
    let mut piece: Vec<char> = Vec::new();
    let mut i = lo;
    while i < hi
        invariant
            lo <= i <= hi <= v.len(),
            piece@ == v@.subrange(lo as int, i as int),
        decreases hi - i,
    {
        piece.push(v[i]);
        i += 1;
    }
    string_of(piece.as_slice())
}

/// The concatenation `a + b`.
pub fn concat2(a: &str, b: &str) -> (out: String)
    ensures
        out@ == a@ + b@,
{
    let mut s = String::from_str(a);
    s.append(b);
    s
}

/// The concatenation `a + b + c`.
pub fn concat3(a: &str, b: &str, c: &str) -> (out: String)
    ensures
        out@ == a@ + b@ + c@,
{
    let mut s = String::from_str(a);
    s.append(b);
    s.append(c);
    s
}

/// A copy of an optional string.
pub fn clone_opt(o: &Option<String>) -> (r: Option<String>)
    ensures
        r == *o,
{
    match o {
        Some(s) => Some(s.clone()),
        None => None,
    }
}

// ---------------------------------------------------------------------------
// Comparison and search
// ---------------------------------------------------------------------------

/// The outcome of comparing two strings.
#[derive(Clone, Copy, PartialEq, Eq, Structural)]
pub enum LexOrder {
    Less,
    Equal,
    Greater,
}

/// Compares two strings in the order of `String`.
pub fn lex_order(a: &str, b: &str) -> (r: LexOrder)
    ensures
        r == LexOrder::Less <==> lex_lt(a@, b@),
        r == LexOrder::Equal <==> a@ == b@,
        r == LexOrder::Greater <==> lex_lt(b@, a@),
{
    let x = chars_of(a);
    let y = chars_of(b);
    let mut i: usize = 0;
    while i < x.len() && i < y.len() && x[i] == y[i]
        invariant
            0 <= i <= x.len(),
            i <= y.len(),
            x@ == a@,
            y@ == b@,
            forall|j: int| 0 <= j < i ==> x@[j] == y@[j],
        decreases x.len() - i,
    {
        i += 1;
    }
    let r = if i == x.len() && i == y.len() {
        assert(x@ =~= y@);
        LexOrder::Equal
    } else if i == x.len() {
        assert(lex_lt_at(a@, b@, i as int));
        LexOrder::Less
    } else if i == y.len() {
        assert(lex_lt_at(b@, a@, i as int));
        LexOrder::Greater
    } else if x[i] < y[i] {
        assert(lex_lt_at(a@, b@, i as int));
        LexOrder::Less
    } else {
        assert(lex_lt_at(b@, a@, i as int));
        LexOrder::Greater
    };
    proof {
        if r == LexOrder::Less {
            lemma_lex_lt_asymmetric(a@, b@);
        } else if r == LexOrder::Greater {
            lemma_lex_lt_asymmetric(b@, a@);
        } else {
            lemma_lex_lt_irreflexive(a@);
        }
    }
    r
}

/// Whether two strings hold the same characters.
pub fn str_eq(a: &str, b: &str) -> (r: bool)
    ensures
        r == (a@ == b@),
{
    lex_order(a, b) == LexOrder::Equal
}

/// The index of the first `c` in `v`.
pub fn find_char(v: &Vec<char>, c: char) -> (r: Option<usize>)
    ensures
        r matches Some(i) ==> find_char_seq(v@, c) == Some(i as int) && i < v.len() && v@[i as int] == c,
        r is None ==> find_char_seq(v@, c) is None,
{
    let mut i: usize = 0;
    while i < v.len()
        invariant
            0 <= i <= v.len(),
            forall|j: int| 0 <= j < i ==> v@[j] != c,
        decreases v.len() - i,
    {
        if v[i] == c {
            proof {
                lemma_find_char_first(v@, c, i as int);
            }
            return Some(i);
        }
        i += 1;
    }
    proof {
        lemma_find_char_first(v@, c, i as int);
    }
    None
}

/// `p` occurs in `v` at `i`, checked character by character.
fn occurs_at_exec(v: &Vec<char>, p: &Vec<char>, i: usize) -> (r: bool)
    requires
        i + p.len() <= v.len(),
    ensures
        r == occurs_at(v@, p@, i as int),
{
    let mut j: usize = 0;
    while j < p.len()
        invariant
            i + p.len() <= v.len(),
            0 <= j <= p.len(),
            forall|k: int| 0 <= k < j ==> v@[i + k] == p@[k],
        decreases p.len() - j,
    {
        if v[i + j] != p[j] {
            assert(v@.subrange(i as int, i + p.len())[j as int] != p@[j as int]);
            return false;
        }
        j += 1;
    }
    assert(v@.subrange(i as int, i + p.len()) =~= p@);
    true
}

/// `str::contains` with a string pattern.
pub fn contains(s: &str, p: &str) -> (r: bool)
    ensures
        r == contains_seq(s@, p@),
{
    let v = chars_of(s);
    let w = chars_of(p);
    if w.len() > v.len() {
        assert forall|i: int| !occurs_at(s@, p@, i) by {}
        return false;
    }
    let last = v.len() - w.len();
    let mut i: usize = 0;
    while i < last
        invariant
            v@ == s@,
            w@ == p@,
            last == v.len() - w.len(),
            0 <= i <= last,
            forall|k: int| 0 <= k < i ==> !occurs_at(s@, p@, k),
        decreases last - i,
    {
        if occurs_at_exec(&v, &w, i) {
            assert(occurs_at(s@, p@, i as int));
            return true;
        }
        i += 1;
    }
    if occurs_at_exec(&v, &w, last) {
        assert(occurs_at(s@, p@, last as int));
        return true;
    }
    assert forall|k: int| !occurs_at(s@, p@, k) by {
        if k > last {
            assert(k + p@.len() > s@.len());
        }
    }
    false
}

/// `str::starts_with` with a string pattern.
pub fn starts_with(s: &str, p: &str) -> (r: bool)
    ensures
        r == starts_with_seq(s@, p@),
{
    let v = chars_of(s);
    let w = chars_of(p);
    if w.len() > v.len() {
        return false;
    }
    let r = occurs_at_exec(&v, &w, 0);
    assert(v@.subrange(0, w@.len() as int) =~= v@.take(w@.len() as int));
    r
}

/// `str::ends_with` with a string pattern.
pub fn ends_with(s: &str, p: &str) -> (r: bool)
    ensures
        r == ends_with_seq(s@, p@),
{
    let v = chars_of(s);
    let w = chars_of(p);
    if w.len() > v.len() {
        return false;
    }
    let r = occurs_at_exec(&v, &w, v.len() - w.len());
    assert(v@.subrange(v@.len() - w@.len(), v@.len() as int) =~= v@.skip(v@.len() - w@.len()));
    r
}

/// `str::strip_prefix` with a string pattern.
pub fn strip_prefix(s: &str, p: &str) -> (r: Option<String>)
    ensures
        r is Some <==> starts_with_seq(s@, p@),
        r matches Some(t) ==> t@ == s@.skip(p@.len() as int),
{
    if starts_with(s, p) {
        let v = chars_of(s);
        let n = chars_of(p).len();
        Some(string_of_range(&v, n, v.len()))
    } else {
        None
    }
}

/// `str::strip_suffix` with a string pattern.
pub fn strip_suffix(s: &str, p: &str) -> (r: Option<String>)
    ensures
        r is Some <==> ends_with_seq(s@, p@),
        r matches Some(t) ==> t@ == s@.take(s@.len() - p@.len()),
{
    if ends_with(s, p) {
        let v = chars_of(s);
        let n = chars_of(p).len();
        Some(string_of_range(&v, 0, v.len() - n))
    } else {
        None
    }
}

// ---------------------------------------------------------------------------
// Trimming, case and splitting
// ---------------------------------------------------------------------------

/// `char::is_whitespace`.
pub fn is_whitespace(c: char) -> (r: bool)
    ensures
        r == is_ws(c),
{
    let u = c as u32;
    (0x09 <= u && u <= 0x0d) || u == 0x20 || u == 0x85 || u == 0xa0 || u == 0x1680 || (0x2000
        <= u && u <= 0x200a) || u == 0x2028 || u == 0x2029 || u == 0x202f || u == 0x205f || u
        == 0x3000
}

/// `str::trim`.
pub fn trim(s: &str) -> (r: String)
    ensures
        r@ == trim_seq(s@),
{
    let v = chars_of(s);
    let mut lo: usize = 0;
    while lo < v.len() && is_whitespace(v[lo])
        invariant
            0 <= lo <= v.len(),
            forall|j: int| 0 <= j < lo ==> is_ws(#[trigger] v@[j]),
        decreases v.len() - lo,
    {
        lo += 1;
    }
    proof {
        lemma_trim_start_at(v@, lo as int);
    }
    let mut hi: usize = v.len();
    while hi > lo && is_whitespace(v[hi - 1])
        invariant
            lo <= hi <= v.len(),
            forall|j: int| hi <= j < v.len() ==> is_ws(#[trigger] v@[j]),
        decreases hi,
    {
        hi -= 1;
    }
    proof {
        let t = v@.skip(lo as int);
        assert forall|j: int| hi - lo <= j < t.len() implies is_ws(#[trigger] t[j]) by {
            assert(t[j] == v@[lo + j]);
        }
        assert(hi - lo > 0 ==> t[hi - lo - 1] == v@[hi - 1]);
        lemma_trim_end_at(t, hi - lo);
        assert(t.take(hi - lo) =~= v@.subrange(lo as int, hi as int));
    }
    string_of_range(&v, lo, hi)
}

/// `str::trim_start_matches` with a char.
pub fn trim_start_matches_char(s: &str, c: char) -> (r: String)
    ensures
        r@ == trim_start_char_seq(s@, c),
{
    let v = chars_of(s);
    let mut lo: usize = 0;
    while lo < v.len() && v[lo] == c
        invariant
            0 <= lo <= v.len(),
            forall|j: int| 0 <= j < lo ==> #[trigger] v@[j] == c,
        decreases v.len() - lo,
    {
        lo += 1;
    }
    proof {
        lemma_trim_start_char_at(v@, c, lo as int);
        assert(v@.skip(lo as int) =~= v@.subrange(lo as int, v@.len() as int));
    }
    string_of_range(&v, lo, v.len())
}

/// `str::trim_end_matches` with a char.
pub fn trim_end_matches_char(s: &str, c: char) -> (r: String)
    ensures
        r@ == trim_end_char_seq(s@, c),
{
    let v = chars_of(s);
    let mut hi: usize = v.len();
    while hi > 0 && v[hi - 1] == c
        invariant
            0 <= hi <= v.len(),
            forall|j: int| hi <= j < v.len() ==> #[trigger] v@[j] == c,
        decreases hi,
    {
        hi -= 1;
    }
    proof {
        lemma_trim_end_char_at(v@, c, hi as int);
        assert(v@.take(hi as int) =~= v@.subrange(0, hi as int));
    }
    string_of_range(&v, 0, hi)
}

/// `char::to_ascii_lowercase`.
pub fn to_lower_char(c: char) -> (r: char)
    ensures
        r == lower_char(c),
{
    if 'A' <= c && c <= 'Z' {
        let b: u8 = (c as u8) + 32;
        (b as char)
    } else {
        c
    }
}

/// `str::to_ascii_lowercase`.
pub fn to_ascii_lowercase(s: &str) -> (r: String)
    ensures
        r@ == lower_seq(s@),
{
    let v = chars_of(s);
    let mut out: Vec<char> = Vec::new();
    let mut i: usize = 0;
    while i < v.len()
        invariant
            0 <= i <= v.len(),
            v@ == s@,
            out@ == lower_seq(s@).take(i as int),
        decreases v.len() - i,
    {
        out.push(to_lower_char(v[i]));
        i += 1;
        assert(out@ =~= lower_seq(s@).take(i as int));
    }
    assert(out@ =~= lower_seq(s@));
    string_of(out.as_slice())
}

/// `str::eq_ignore_ascii_case`.
pub fn eq_ignore_ascii_case(a: &str, b: &str) -> (r: bool)
    ensures
        r == (lower_seq(a@) == lower_seq(b@)),
{
    let x = to_ascii_lowercase(a);
    let y = to_ascii_lowercase(b);
    str_eq(x.as_str(), y.as_str())
}

/// `str::split` with a char: the pieces between the occurrences of `c`.
pub fn split_char(s: &str, c: char) -> (r: Vec<String>)
    ensures
        r@.len() == split_seq(s@, c).len(),
        forall|i: int| 0 <= i < r@.len() ==> #[trigger] r@[i]@ == split_seq(s@, c)[i],
{
    let v = chars_of(s);
    let mut out: Vec<String> = Vec::new();
    let mut start: usize = 0;
    let mut i: usize = 0;
    proof {
        assert(v@.skip(0) =~= s@);
    }
    while i < v.len()
        invariant
            v@ == s@,
            0 <= start <= i <= v.len(),
            forall|j: int| start <= j < i ==> v@[j] != c,
            out@.len() + split_seq(v@.skip(start as int), c).len() == split_seq(s@, c).len(),
            forall|k: int| 0 <= k < out@.len() ==> #[trigger] out@[k]@ == split_seq(s@, c)[k],
            forall|k: int|
                0 <= k < split_seq(v@.skip(start as int), c).len() ==> split_seq(s@, c)[out@.len()
                    + k] == #[trigger] split_seq(v@.skip(start as int), c)[k],
        decreases v.len() - i,
    {
        if v[i] == c {
            let ghost rest = v@.skip(start as int);
            let ghost k0 = i - start;
            proof {
                assert forall|j: int| 0 <= j < i - start implies rest[j] != c by {
                    assert(rest[j] == v@[start + j]);
                }
                lemma_find_char_first(rest, c, i - start);
                assert(rest.skip(i - start + 1) =~= v@.skip(i + 1));
                assert(rest.take(i - start) =~= v@.subrange(start as int, i as int));
            }
            let piece = string_of_range(&v, start, i);
            out.push(piece);
            start = i + 1;
            proof {
                let rest2 = v@.skip(start as int);
                assert(rest2 == rest.skip(k0 + 1));
                assert(split_seq(rest, c) == seq![rest.take(k0)] + split_seq(rest2, c));
                assert forall|k: int| 0 <= k < out@.len() implies #[trigger] out@[k]@ == split_seq(
                    s@,
                    c,
                )[k] by {
                    if k == out@.len() - 1 {
                        assert(split_seq(rest, c)[0] == rest.take(k0));
                    }
                }
                assert forall|k: int| 0 <= k < split_seq(rest2, c).len() implies split_seq(s@, c)[out@.len() + k]
                    == #[trigger] split_seq(rest2, c)[k] by {
                    assert(split_seq(rest, c)[k + 1] == split_seq(rest2, c)[k]);
                }
            }
        }
        i += 1;
    }
    let ghost rest = v@.skip(start as int);
    proof {
        assert forall|j: int| 0 <= j < rest.len() implies rest[j] != c by {
            assert(rest[j] == v@[start + j]);
        }
        lemma_find_char_first(rest, c, rest.len() as int);
        assert(rest =~= v@.subrange(start as int, v@.len() as int));
    }
    let piece = string_of_range(&v, start, v.len());
    out.push(piece);
    proof {
        assert(split_seq(rest, c) == seq![rest]);
        assert forall|k: int| 0 <= k < out@.len() implies #[trigger] out@[k]@ == split_seq(s@, c)[k] by {
            if k == out@.len() - 1 {
                assert(split_seq(rest, c)[0] == rest);
            }
        }
    }
    out
}

// ---------------------------------------------------------------------------
// Numbers
// ---------------------------------------------------------------------------

fn digit_of(d: u8) -> (c: char)
    requires
        d < 10,
    ensures
        c == digit_char(d as nat),
{
    if d == 0 { '0' }
    else if d == 1 { '1' }
    else if d == 2 { '2' }
    else if d == 3 { '3' }
    else if d == 4 { '4' }
    else if d == 5 { '5' }
    else if d == 6 { '6' }
    else if d == 7 { '7' }
    else if d == 8 { '8' }
    else { '9' }
}

/// The decimal representation of `n` (`to_string` of an unsigned integer).
pub fn decimal(n: u128) -> (r: String)
    ensures
        r@ == decimal_seq(n as nat),
    decreases n,
{
    if n < 10 {
        let c = digit_of(n as u8);
        let v: Vec<char> = vec![c];
        assert(v@ =~= seq![c]);
        string_of(v.as_slice())
    } else {
        let head = decimal(n / 10);
        let c = digit_of((n % 10) as u8);
        let v: Vec<char> = vec![c];
        let tail = string_of(v.as_slice());
        let r = concat2(head.as_str(), tail.as_str());
        assert(r@ =~= decimal_seq((n / 10) as nat).push(digit_char((n % 10) as nat)));
        r
    }
}

/// The decimal representation of a signed integer (`to_string` of `i64`).
pub fn signed_decimal(n: i64) -> (r: String)
    ensures
        r@ == signed_decimal_seq(n as int),
{
    if n < 0 {
        let m: u128 = (0i128 - (n as i128)) as u128;
        let d = decimal(m);
        let r = concat2("-", d.as_str());
        proof {
            reveal_strlit("-");
        }
        assert(r@ =~= seq!['-'] + decimal_seq((-n) as nat));
        r
    } else {
        decimal(n as u128)
    }
}

/// `FromStr` of an unsigned integer type whose largest value is `max`.
pub fn parse_unsigned(s: &str, max: u128) -> (r: Option<u128>)
    ensures
        r matches Some(n) ==> parse_unsigned_seq(s@, max as nat) == Some(n as nat),
        r is None ==> parse_unsigned_seq(s@, max as nat) is None,
{
    let v = chars_of(s);
    let start: usize = if v.len() > 0 && v[0] == '+' { 1 } else { 0 };
    let ghost d = unsigned_digits(s@);
    proof {
        if start == 1 {
            assert(d =~= v@.skip(1));
        } else {
            assert(d =~= v@.skip(0));
        }
    }
    if start == v.len() {
        return None;
    }
    let mut value: u128 = 0;
    let mut i: usize = start;
    while i < v.len()
        invariant
            v@ == s@,
            start <= i <= v.len(),
            d == v@.skip(start as int),
            d == unsigned_digits(s@),
            forall|k: int| 0 <= k < i - start ==> is_digit(#[trigger] d[k]),
            value as nat == digits_value(d.take(i - start)),
            value <= max,
        decreases v.len() - i,
    {
        let c = v[i];
        if !('0' <= c && c <= '9') {
            assert(!is_digit(d[i - start]));
            assert(!(forall|k: int| 0 <= k < d.len() ==> is_digit(#[trigger] d[k])));
            return None;
        }
        let digit: u128 = ((c as u32) - ('0' as u32)) as u128;
        proof {
            assert(d.take(i - start + 1) =~= d.take(i - start).push(c));
            lemma_digits_value_push(d.take(i - start), c);
        }
        if digit > max || value > (max - digit) / 10 {
            proof {
                if digit <= max {
                    assert(value * 10 + digit > max) by (nonlinear_arith)
                        requires
                            value > (max - digit) / 10,
                            digit <= max,
                    ;
                }
                assert forall|k: int| 0 <= k < i - start + 1 implies is_digit(#[trigger] d[k]) by {
                    if k == i - start {
                        assert(d[k] == c);
                    }
                }
                if forall|k: int| 0 <= k < d.len() ==> is_digit(#[trigger] d[k]) {
                    lemma_digits_value_prefix(d, i - start + 1);
                }
            }
            return None;
        }
        proof {
            assert(value * 10 + digit <= max) by (nonlinear_arith)
                requires
                    value <= (max - digit) / 10,
                    digit < 10,
                    digit <= max,
            ;
        }
        value = value * 10 + digit;
        i += 1;
    }
    proof {
        assert(d.take(i - start) =~= d);
    }
    Some(value)
}

// ---------------------------------------------------------------------------
// Bytes
// ---------------------------------------------------------------------------

/// `char::len_utf8`.
pub fn utf8_len_of(c: char) -> (r: usize)
    ensures
        r == char_utf8_len(c),
{
    let u = c as u32;
    if u < 0x80 {
        1
    } else if u < 0x800 {
        2
    } else if u < 0x10000 {
        3
    } else {
        4
    }
}

proof fn lemma_utf8_len_take_step(s: Seq<char>, k: int)
    requires
        0 <= k < s.len(),
    ensures
        utf8_len(s.take(k + 1)) == utf8_len(s.take(k)) + char_utf8_len(s[k]),
{
    assert(s.take(k + 1).drop_last() =~= s.take(k));
}

/// Longer prefixes have more bytes.
pub proof fn lemma_utf8_len_take_increasing(s: Seq<char>, j: int, k: int)
    requires
        0 <= j < k <= s.len(),
    ensures
        utf8_len(s.take(j)) < utf8_len(s.take(k)),
    decreases k - j,
{
    lemma_utf8_len_take_step(s, k - 1);
    if j < k - 1 {
        lemma_utf8_len_take_increasing(s, j, k - 1);
    }
}

/// The number of characters of `v` that make up its first `n` bytes, when byte
/// `n` falls between two characters.
pub fn char_count_at_byte(v: &Vec<char>, n: usize) -> (r: Option<usize>)
    ensures
        r matches Some(k) ==> boundary_at(v@, n as nat, k as int),
        r is None ==> forall|k: int| !boundary_at(v@, n as nat, k),
{
    let mut k: usize = 0;
    let mut bytes: usize = 0;
    assert(v@.take(0) =~= Seq::<char>::empty());
    while k < v.len() && bytes < n
        invariant
            0 <= k <= v.len(),
            bytes == utf8_len(v@.take(k as int)),
            bytes <= n,
            forall|j: int| 0 <= j < k ==> utf8_len(v@.take(j)) < n,
        decreases v.len() - k,
    {
        let w = utf8_len_of(v[k]);
        proof {
            lemma_utf8_len_take_step(v@, k as int);
        }
        if w > n - bytes {
            proof {
                assert forall|j: int| !boundary_at(v@, n as nat, j) by {
                    if 0 <= j <= v@.len() {
                        if j > k + 1 {
                            lemma_utf8_len_take_increasing(v@, k + 1, j);
                        }
                    }
                }
            }
            return None;
        }
        bytes = bytes + w;
        k += 1;
    }
    if bytes == n {
        Some(k)
    } else {
        proof {
            assert forall|j: int| !boundary_at(v@, n as nat, j) by {
                if 0 <= j <= v@.len() && j > k {
                    lemma_utf8_len_take_increasing(v@, k as int, j);
                }
            }
        }
        None
    }
}

/// `str::len`: the number of bytes of `v` in UTF-8, saturating at `usize::MAX`.
pub fn byte_len(v: &Vec<char>) -> (r: usize)
    ensures
        utf8_len(v@) <= usize::MAX ==> r == utf8_len(v@),
        utf8_len(v@) > usize::MAX ==> r == usize::MAX,
{
    let mut k: usize = 0;
    let mut bytes: usize = 0;
    assert(v@.take(0) =~= Seq::<char>::empty());
    while k < v.len()
        invariant
            0 <= k <= v.len(),
            bytes == utf8_len(v@.take(k as int)),
        decreases v.len() - k,
    {
        let w = utf8_len_of(v[k]);
        proof {
            lemma_utf8_len_take_step(v@, k as int);
        }
        if bytes > usize::MAX - w {
            proof {
                if k + 1 < v@.len() {
                    lemma_utf8_len_take_increasing(v@, k + 1, v@.len() as int);
                }
                assert(v@.take(v@.len() as int) =~= v@);
            }
            return usize::MAX;
        }
        bytes = bytes + w;
        k += 1;
    }
    assert(v@.take(v@.len() as int) =~= v@);
    bytes
}

// ---------------------------------------------------------------------------
// Joining
// ---------------------------------------------------------------------------

/// The pieces joined by `sep` (`[String]::join`).
pub fn join(parts: &Vec<String>, sep: &str) -> (r: String)
    ensures
        r@ == join_seq(views(parts@), sep@),
{
    let ghost vs = views(parts@);
    let mut out = String::new();
    let mut i: usize = 0;
    while i < parts.len()
        invariant
            0 <= i <= parts.len(),
            vs == views(parts@),
            out@ == join_seq(vs.take(i as int), sep@),
        decreases parts.len() - i,
    {
        if i > 0 {
            out.append(sep);
        }
        out.append(parts[i].as_str());
        proof {
            assert(vs.take(i + 1).drop_last() =~= vs.take(i as int));
            assert(vs.take(i + 1).last() == parts@[i as int]@);
            if i == 0 {
                assert(out@ =~= vs.take(1)[0]);
            }
        }
        i += 1;
    }
    assert(vs.take(parts.len() as int) =~= vs);
    out
}

} // verus!
