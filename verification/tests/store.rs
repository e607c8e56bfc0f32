use snippet_store::record::Snippet;
use snippet_store::store::SnippetMap;

fn snippet(name: &str, code: &str, created_at: &str) -> Snippet {
    Snippet { name: name.to_string(), code: code.to_string(), created_at: created_at.to_string() }
}

#[test]
fn new_map_is_empty() {
    let map = SnippetMap::new();
    assert_eq!(map.len(), 0);
    assert_eq!(map.get("greet"), None);
    assert_eq!(map.get(""), None);
}

#[test]
fn insert_then_get_returns_equal_record() {
    let mut map = SnippetMap::new();
    let s = snippet("greet", "print(1)", "2024-01-01T00:00:00Z");
    map.insert(s.name.clone(), s.clone());
    assert_eq!(map.len(), 1);
    assert_eq!(map.get("greet"), Some(s));
    assert_eq!(map.get("other"), None);
}

#[test]
fn insert_existing_name_replaces_code_and_time() {
    let mut map = SnippetMap::new();
    map.insert("a".to_string(), snippet("a", "one", "2024-01-01T00:00:00Z"));
    map.insert("b".to_string(), snippet("b", "bee", "2024-01-02T00:00:00Z"));
    map.insert("a".to_string(), snippet("a", "two", "2024-02-01T00:00:00Z"));
    assert_eq!(map.len(), 2);
    assert_eq!(map.get("a"), Some(snippet("a", "two", "2024-02-01T00:00:00Z")));
    assert_eq!(map.get("b"), Some(snippet("b", "bee", "2024-01-02T00:00:00Z")));
    assert_eq!(map.entry(0).key, "a");
    assert_eq!(map.entry(1).key, "b");
}

#[test]
fn remove_twice_leaves_absence() {
    let mut map = SnippetMap::new();
    map.insert("a".to_string(), snippet("a", "one", "t"));
    map.insert("b".to_string(), snippet("b", "two", "t"));
    map.remove("a");
    assert_eq!(map.get("a"), None);
    assert_eq!(map.len(), 1);
    map.remove("a");
    assert_eq!(map.get("a"), None);
    assert_eq!(map.len(), 1);
    assert_eq!(map.get("b"), Some(snippet("b", "two", "t")));
}

#[test]
fn find_gives_the_position_of_a_key() {
    let mut map = SnippetMap::new();
    map.insert("a".to_string(), snippet("a", "one", "t"));
    map.insert("b".to_string(), snippet("b", "two", "t"));
    assert_eq!(map.find(&"a".to_string()), Some(0));
    assert_eq!(map.find(&"b".to_string()), Some(1));
    assert_eq!(map.find(&"c".to_string()), None);
}

#[test]
fn names_are_compared_exactly() {
    let mut map = SnippetMap::new();
    map.insert("Greet".to_string(), snippet("Greet", "x", "t"));
    assert_eq!(map.get("greet"), None);
    assert_eq!(map.get("Greet "), None);
    assert_eq!(map.get("Greet").map(|s| s.code), Some("x".to_string()));
}

#[test]
fn clone_keeps_all_fields() {
    let s = snippet("n", "c", "t");
    let c = s.clone();
    assert_eq!(c, s);
    assert_eq!(c.name, "n");
    assert_eq!(c.code, "c");
    assert_eq!(c.created_at, "t");
}
