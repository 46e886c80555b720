use repo_manifest::text::{canonicalize_url, compare, same_text, KeyOrder};
use repo_manifest::KeyedMap;

#[test]
fn canonicalize_url_strips_slashes_at_the_end() {
    assert_eq!(canonicalize_url("https://host/repo/"), "https://host/repo");
    assert_eq!(canonicalize_url("https://host/repo"), "https://host/repo");
    assert_eq!(canonicalize_url("https://host/repo///"), "https://host/repo");
    assert_eq!(canonicalize_url("/"), "");
    assert_eq!(canonicalize_url("////"), "");
    assert_eq!(canonicalize_url(""), "");
    assert_eq!(canonicalize_url(".."), "..");
    assert_eq!(canonicalize_url("../"), "..");
}

#[test]
fn canonicalize_url_changes_nothing_else() {
    assert_eq!(canonicalize_url("https://HOST/repo"), "https://HOST/repo");
    assert_eq!(canonicalize_url("/lead/ing//inner/"), "/lead/ing//inner");
    assert_eq!(canonicalize_url(" https://host/repo "), " https://host/repo ");
    assert_eq!(canonicalize_url("https://host/repo/ "), "https://host/repo/ ");
    assert_eq!(canonicalize_url("https://host/répertoire/é/"), "https://host/répertoire/é");
    assert_eq!(canonicalize_url("https://host/日本語//"), "https://host/日本語");
}

#[test]
fn canonical_urls_compare_as_the_urls_should() {
    assert_eq!(canonicalize_url("https://host/repo/"), canonicalize_url("https://host/repo"));
    assert_ne!(canonicalize_url("https://host/repo"), canonicalize_url("https://HOST/repo"));
    assert!(same_text(canonicalize_url("https://host/repo/"), canonicalize_url("https://host/repo")));
    assert!(!same_text(canonicalize_url("https://host/repo"), canonicalize_url("https://HOST/repo")));
}

#[test]
fn compare_orders_by_bytes() {
    assert_eq!(compare("", ""), KeyOrder::Same);
    assert_eq!(compare("abc", "abc"), KeyOrder::Same);
    assert_eq!(compare("", "a"), KeyOrder::Before);
    assert_eq!(compare("a", ""), KeyOrder::After);
    assert_eq!(compare("ab", "abc"), KeyOrder::Before);
    assert_eq!(compare("abd", "abc"), KeyOrder::After);
    assert_eq!(compare("B", "a"), KeyOrder::Before);
    assert_eq!(compare("a-b", "a/b"), KeyOrder::Before);
    assert_eq!(compare("z", "é"), KeyOrder::Before);
    assert_eq!(compare("é", "日"), KeyOrder::Before);
}

#[test]
fn compare_agrees_with_the_order_of_strings() {
    let samples = ["", "a", "A", "ab", "b", "build", "build/make", "vendor/a", "é", "日本", "a/b", "a-b"];
    for a in samples {
        for b in samples {
            let expected = if a < b {
                KeyOrder::Before
            } else if a == b {
                KeyOrder::Same
            } else {
                KeyOrder::After
            };
            assert_eq!(compare(a, b), expected);
            assert_eq!(same_text(a, b), a == b);
        }
    }
}

#[test]
fn keyed_map_insert_get_and_replace() {
    let mut map: KeyedMap<u32> = KeyedMap::new();
    assert!(map.is_empty());
    assert_eq!(map.len(), 0);
    assert_eq!(map.get("a"), None);
    assert!(map.entry(0).is_none());
    map.insert("b".to_owned(), 2);
    map.insert("a".to_owned(), 1);
    map.insert("c".to_owned(), 3);
    assert_eq!(map.len(), 3);
    assert!(!map.is_empty());
    assert_eq!(map.get("a"), Some(&1));
    assert_eq!(map.get("b"), Some(&2));
    assert_eq!(map.get("c"), Some(&3));
    assert_eq!(map.get("d"), None);
    assert_eq!(map.get(""), None);
    assert!(map.contains_key("b"));
    assert!(!map.contains_key("B"));
    map.insert("b".to_owned(), 20);
    assert_eq!(map.len(), 3);
    assert_eq!(map.get("b"), Some(&20));
    assert_eq!(map.get("a"), Some(&1));
    assert_eq!(map.get("c"), Some(&3));
}

#[test]
fn keyed_map_walks_in_key_order() {
    let mut map: KeyedMap<u32> = KeyedMap::new();
    for (i, key) in ["m", "z", "a", "k", "b", "y", "a/b", "a"].iter().enumerate() {
        map.insert((*key).to_owned(), i as u32);
    }
    let mut keys = Vec::new();
    let mut values = Vec::new();
    let mut i = 0;
    while let Some((key, value)) = map.entry(i) {
        keys.push(key.clone());
        values.push(*value);
        i += 1;
    }
    assert_eq!(keys, vec!["a", "a/b", "b", "k", "m", "y", "z"]);
    assert_eq!(values, vec![7, 6, 4, 3, 0, 5, 1]);
    assert_eq!(map.len(), 7);
    assert!(map.entry(7).is_none());
}

#[test]
fn keyed_map_default_is_empty_and_clone_is_equal() {
    let empty: KeyedMap<String> = KeyedMap::default();
    assert!(empty.is_empty());
    let mut map: KeyedMap<String> = KeyedMap::new();
    map.insert("k".to_owned(), "v".to_owned());
    map.insert("j".to_owned(), "w".to_owned());
    let copy = map.clone();
    assert_eq!(copy, map);
    assert_eq!(copy.get("k"), Some(&"v".to_owned()));
    assert_eq!(copy.len(), 2);
}
