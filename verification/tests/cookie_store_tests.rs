use kg2lx::domain::cookie_store::CookieStore;

fn store_of(pairs: &[(&str, &str)]) -> CookieStore {
    let mut s = CookieStore::new();
    for (k, v) in pairs {
        s.insert(k, v);
    }
    s
}

#[test]
fn new_store_is_empty() {
    let s = CookieStore::new();
    assert_eq!(s.get("token"), None);
    assert!(s.is_empty("token"));
    assert_eq!(s.to_cookie_header(), "");
    assert!(s.pairs().is_empty());
}

#[test]
fn insert_then_get() {
    let mut s = CookieStore::new();
    s.insert("token", "abc");
    assert_eq!(s.get("token"), Some("abc"));
    assert_eq!(s.get("userid"), None);
}

#[test]
fn insert_replaces_value() {
    let mut s = CookieStore::new();
    s.insert("token", "old");
    s.insert("token", "new");
    assert_eq!(s.get("token"), Some("new"));
    assert_eq!(s.pairs().len(), 1);
}

#[test]
fn is_empty_for_missing_or_empty_value() {
    let mut s = CookieStore::new();
    assert!(s.is_empty("dfid"));
    s.insert("dfid", "");
    assert!(s.is_empty("dfid"));
    s.insert("dfid", "d1");
    assert!(!s.is_empty("dfid"));
}

#[test]
fn cookie_header_lists_pairs_in_name_order() {
    let s = store_of(&[("userid", "42"), ("dfid", "d1"), ("token", "t")]);
    assert_eq!(s.to_cookie_header(), "dfid=d1; token=t; userid=42");
}

#[test]
fn header_is_determined_by_contents_not_insertion_order() {
    let a = store_of(&[("b", "2"), ("a", "1"), ("c", "3")]);
    let b = store_of(&[("c", "3"), ("a", "1"), ("b", "2")]);
    assert_eq!(a.to_cookie_header(), b.to_cookie_header());
    assert_eq!(a.to_cookie_header(), "a=1; b=2; c=3");
}

#[test]
fn header_uses_string_order_of_names() {
    let s = store_of(&[("b", "x"), ("B", "y"), ("a", "z")]);
    assert_eq!(s.to_cookie_header(), "B=y; a=z; b=x");
}

#[test]
fn set_cookie_header_sets_its_first_pair() {
    let mut s = CookieStore::new();
    s.merge_set_cookie("sid=abc; Path=/; HttpOnly");
    assert_eq!(s.get("sid"), Some("abc"));
    assert_eq!(s.pairs().len(), 1);
}

#[test]
fn set_cookie_header_is_trimmed() {
    let mut s = CookieStore::new();
    s.merge_set_cookie("  k = v  ; Max-Age=10");
    assert_eq!(s.get("k"), Some("v"));
}

#[test]
fn set_cookie_value_keeps_later_equals_signs() {
    let mut s = CookieStore::new();
    s.merge_set_cookie("k=a=b; Path=/");
    assert_eq!(s.get("k"), Some("a=b"));
}

#[test]
fn set_cookie_without_name_or_equals_is_ignored() {
    let mut s = store_of(&[("a", "1")]);
    s.merge_set_cookie("=v; Path=/");
    s.merge_set_cookie("novalue");
    s.merge_set_cookie("");
    assert_eq!(s.to_cookie_header(), "a=1");
}

#[test]
fn set_cookie_with_empty_value_is_stored() {
    let mut s = CookieStore::new();
    s.merge_set_cookie("dfid=; Path=/");
    assert_eq!(s.get("dfid"), Some(""));
    assert!(s.is_empty("dfid"));
}

#[test]
fn set_cookie_headers_apply_in_order() {
    let mut s = CookieStore::new();
    let headers = vec!["a=1".to_string(), "b=2; Path=/".to_string(), "a=3".to_string()];
    s.merge_set_cookies(&headers);
    assert_eq!(s.to_cookie_header(), "a=3; b=2");
}

#[test]
fn cookie_pairs_are_merged() {
    let mut s = store_of(&[("a", "0")]);
    s.merge_cookie_pairs("a=1; b = 2 ;c; =x; d=e=f");
    assert_eq!(s.get("a"), Some("1"));
    assert_eq!(s.get("b"), Some("2"));
    assert_eq!(s.get("c"), None);
    assert_eq!(s.get("d"), Some("e=f"));
    assert_eq!(s.to_cookie_header(), "a=1; b=2; d=e=f");
}

#[test]
fn body_cookie_member_is_merged() {
    let mut s = store_of(&[("token", "old")]);
    s.merge_cookies_from_body_if_present(Some("token=t1; userid=42"));
    assert_eq!(s.get("token"), Some("t1"));
    assert_eq!(s.get("userid"), Some("42"));
}

#[test]
fn body_without_cookie_member_changes_nothing() {
    let mut s = store_of(&[("token", "old")]);
    s.merge_cookies_from_body_if_present(None);
    assert_eq!(s.to_cookie_header(), "token=old");
}

#[test]
fn set_cookie_example_in_header_order() {
    let mut s = CookieStore::new();
    s.insert("dfid", "d1");
    s.merge_set_cookie(" token = a=b ; Path=/; HttpOnly");
    s.merge_set_cookie("=x; y=1");
    s.merge_set_cookie("HttpOnly; z=2");
    assert_eq!(s.to_cookie_header(), "dfid=d1; token=a=b");
}

#[test]
fn header_read_back_gives_same_store() {
    let s = store_of(&[("userid", "42"), ("dfid", "abc"), ("token", "t1")]);
    let mut t = CookieStore::new();
    t.merge_cookie_pairs(&s.to_cookie_header());
    assert_eq!(t.pairs(), s.pairs());
}

#[test]
fn pairs_and_from_pairs_round_trip() {
    let s = store_of(&[("z", "26"), ("a", "1")]);
    let p = s.pairs();
    assert_eq!(p, vec![("a".to_string(), "1".to_string()), ("z".to_string(), "26".to_string())]);
    let t = CookieStore::from_pairs(&p);
    assert_eq!(t.to_cookie_header(), s.to_cookie_header());
}

#[test]
fn from_pairs_later_pair_wins() {
    let p = vec![("k".to_string(), "1".to_string()), ("k".to_string(), "2".to_string())];
    let t = CookieStore::from_pairs(&p);
    assert_eq!(t.get("k"), Some("2"));
    assert_eq!(t.pairs().len(), 1);
}

#[test]
fn clone_keeps_contents() {
    let s = store_of(&[("a", "1"), ("b", "2")]);
    let c = s.clone();
    assert_eq!(c.to_cookie_header(), "a=1; b=2");
}
