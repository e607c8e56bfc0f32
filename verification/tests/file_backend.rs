use snippet_store::error::{Access, StorageError};
use snippet_store::file::JsonStorage;
use snippet_store::json::{decode_document, encode_outline, find_text, parse_store, print_store, read_record};
use snippet_store::record::Snippet;
use snippet_store::store::SnippetMap;
use snippet_store::text::{blank, find_char, is_whitespace};

fn snippet(name: &str, code: &str, created_at: &str) -> Snippet {
    Snippet { name: name.to_string(), code: code.to_string(), created_at: created_at.to_string() }
}

fn storage() -> JsonStorage {
    JsonStorage::new("snippets.json".to_string())
}

#[test]
fn json_scenario_save_get_delete() {
    let st = storage();
    let greet = snippet("greet", "print(1)", "2024-01-01T00:00:00Z");
    let text = st.save(None, &greet).unwrap();
    let value: serde_json::Value = serde_json::from_str(&text).unwrap();
    let object = value.as_object().unwrap();
    assert_eq!(object.len(), 1);
    assert!(object.contains_key("greet"));
    assert_eq!(object["greet"]["name"].as_str(), Some("greet"));
    assert_eq!(object["greet"]["code"].as_str(), Some("print(1)"));
    assert_eq!(object["greet"]["created_at"].as_str(), Some("2024-01-01T00:00:00Z"));
    assert_eq!(st.get(Some(&text), "greet"), Ok(Some(greet)));
    let after = st.delete(Some(&text), "greet").unwrap();
    assert_eq!(st.get(Some(&after), "greet"), Ok(None));
    let value: serde_json::Value = serde_json::from_str(&after).unwrap();
    assert_eq!(value.as_object().unwrap().len(), 0);
}

#[test]
fn saved_text_is_pretty_json_with_members_in_name_order() {
    let st = storage();
    let text = st.save(None, &snippet("greet", "print(1)", "2024-01-01T00:00:00Z")).unwrap();
    assert_eq!(
        text,
        "{\n  \"greet\": {\n    \"code\": \"print(1)\",\n    \"created_at\": \"2024-01-01T00:00:00Z\",\n    \"name\": \"greet\"\n  }\n}"
    );
}

#[test]
fn empty_map_prints_as_empty_object() {
    assert_eq!(print_store(&SnippetMap::new()), Ok("{}".to_string()));
    assert_eq!(storage().save_map(&SnippetMap::new()), Ok("{}".to_string()));
}

#[test]
fn get_on_missing_location_is_absence() {
    assert_eq!(storage().get(None, "greet"), Ok(None));
}

#[test]
fn blank_content_is_an_empty_mapping() {
    let st = storage();
    assert_eq!(st.get(Some(""), "greet"), Ok(None));
    assert_eq!(st.get(Some("  \n\t "), "greet"), Ok(None));
    assert_eq!(st.load_map(Some("\u{3000}\u{a0}")).unwrap().len(), 0);
    assert_eq!(st.delete(Some(" \n"), "greet"), Ok("{}".to_string()));
}

#[test]
fn corrupt_content_is_a_deserialization_error() {
    let st = storage();
    assert_eq!(st.get(Some("{not json"), "a"), Err(StorageError::Deserialization));
    assert_eq!(st.get(Some("[]"), "a"), Err(StorageError::Deserialization));
    assert_eq!(st.get(Some("null"), "a"), Err(StorageError::Deserialization));
    assert_eq!(st.get(Some("{\"a\": 1}"), "a"), Err(StorageError::Deserialization));
    assert_eq!(
        st.get(Some("{\"a\": {\"name\": \"a\", \"code\": \"c\"}}"), "a"),
        Err(StorageError::Deserialization)
    );
    assert_eq!(
        st.get(Some("{\"a\": {\"name\": \"a\", \"code\": 7, \"created_at\": \"t\"}}"), "a"),
        Err(StorageError::Deserialization)
    );
    assert_eq!(
        st.save(Some("{not json"), &snippet("a", "c", "t")),
        Err(StorageError::Deserialization)
    );
    assert_eq!(st.delete(Some("{\"a\": []}"), "a"), Err(StorageError::Deserialization));
    assert!(st.load_map(Some("x")).is_err());
}

#[test]
fn overwrite_in_file_replaces_the_record() {
    let st = storage();
    let one = st.save(None, &snippet("a", "one", "2024-01-01T00:00:00Z")).unwrap();
    let two = st.save(Some(&one), &snippet("b", "bee", "2024-01-02T00:00:00Z")).unwrap();
    let three = st.save(Some(&two), &snippet("a", "two", "2024-03-01T00:00:00Z")).unwrap();
    assert_eq!(st.get(Some(&three), "a"), Ok(Some(snippet("a", "two", "2024-03-01T00:00:00Z"))));
    assert_eq!(st.get(Some(&three), "b"), Ok(Some(snippet("b", "bee", "2024-01-02T00:00:00Z"))));
    assert_eq!(st.load_map(Some(&three)).unwrap().len(), 2);
}

#[test]
fn delete_in_file_is_idempotent() {
    let st = storage();
    let one = st.save(None, &snippet("a", "one", "t")).unwrap();
    let gone = st.delete(Some(&one), "a").unwrap();
    assert_eq!(st.get(Some(&gone), "a"), Ok(None));
    let again = st.delete(Some(&gone), "a").unwrap();
    assert_eq!(again, gone);
    assert_eq!(st.get(Some(&again), "a"), Ok(None));
    assert_eq!(st.delete(None, "a"), Ok("{}".to_string()));
}

#[test]
fn text_round_trips_with_unusual_characters() {
    let st = storage();
    let s = snippet("na:me \"q\"", "line1\nline2\t\\ \u{1F600} é", "2024-01-01T00:00:00Z");
    let text = st.save(None, &s).unwrap();
    assert_eq!(st.get(Some(&text), "na:me \"q\""), Ok(Some(s)));
}

#[test]
fn key_of_the_file_decides_what_is_found() {
    let st = storage();
    let text = "{\"k\": {\"name\": \"n\", \"code\": \"c\", \"created_at\": \"t\", \"extra\": true}}";
    assert_eq!(st.get(Some(text), "k"), Ok(Some(snippet("n", "c", "t"))));
    assert_eq!(st.get(Some(text), "n"), Ok(None));
}

#[test]
fn path_is_kept() {
    assert_eq!(JsonStorage::new("/tmp/x.json".to_string()).path(), "/tmp/x.json");
}

#[test]
fn parse_store_reads_all_entries() {
    let map = parse_store(
        "{\"b\": {\"name\": \"b\", \"code\": \"2\", \"created_at\": \"t2\"}, \"a\": {\"name\": \"a\", \"code\": \"1\", \"created_at\": \"t1\"}}",
    )
    .unwrap();
    assert_eq!(map.len(), 2);
    assert_eq!(map.entry(0).key, "a");
    assert_eq!(map.entry(1).key, "b");
    assert_eq!(map.get("a"), Some(snippet("a", "1", "t1")));
    assert_eq!(parse_store("").err(), Some(StorageError::Deserialization));
}

#[test]
fn find_text_takes_the_first_member_of_a_name() {
    let members = vec![
        ("code".to_string(), Some("c".to_string())),
        ("name".to_string(), None),
        ("name".to_string(), Some("late".to_string())),
    ];
    assert_eq!(find_text(&members, "code"), Some("c".to_string()));
    assert_eq!(find_text(&members, "name"), None);
    assert_eq!(find_text(&members, "created_at"), None);
    assert_eq!(read_record(&members), None);
}

#[test]
fn read_record_needs_three_texts() {
    let members = vec![
        ("created_at".to_string(), Some("t".to_string())),
        ("code".to_string(), Some("c".to_string())),
        ("name".to_string(), Some("n".to_string())),
    ];
    assert_eq!(read_record(&members), Some(snippet("n", "c", "t")));
    assert_eq!(read_record(&Vec::new()), None);
}

#[test]
fn decode_document_puts_later_entries_over_earlier_ones() {
    let object = |n: &str, c: &str| {
        vec![
            ("name".to_string(), Some(n.to_string())),
            ("code".to_string(), Some(c.to_string())),
            ("created_at".to_string(), Some("t".to_string())),
        ]
    };
    let doc = vec![
        ("a".to_string(), object("a", "1")),
        ("b".to_string(), object("b", "2")),
        ("a".to_string(), object("a", "3")),
    ];
    let map = decode_document(&doc).unwrap();
    assert_eq!(map.len(), 2);
    assert_eq!(map.get("a"), Some(snippet("a", "3", "t")));
    let bad = vec![("a".to_string(), object("a", "1")), ("b".to_string(), Vec::new())];
    assert_eq!(decode_document(&bad).err(), Some(StorageError::Deserialization));
}

#[test]
fn encode_outline_names_the_three_members() {
    let mut map = SnippetMap::new();
    map.insert("k".to_string(), snippet("n", "c", "t"));
    assert_eq!(
        encode_outline(&map),
        vec![(
            "k".to_string(),
            vec![
                ("name".to_string(), "n".to_string()),
                ("code".to_string(), "c".to_string()),
                ("created_at".to_string(), "t".to_string()),
            ]
        )]
    );
}

#[test]
fn whitespace_is_the_unicode_property() {
    for c in ['\t', '\n', '\u{b}', '\u{c}', '\r', ' ', '\u{85}', '\u{a0}', '\u{1680}', '\u{2000}',
        '\u{200a}', '\u{2028}', '\u{2029}', '\u{202f}', '\u{205f}', '\u{3000}']
    {
        assert!(is_whitespace(c));
    }
    for c in ['a', '{', '\u{8}', '\u{e}', '\u{200b}', '\u{feff}', '\u{1f}', '0'] {
        assert!(!is_whitespace(c));
    }
    let mut n: u32 = 0;
    while n < 0x3100 {
        if let Some(c) = char::from_u32(n) {
            assert_eq!(is_whitespace(c), c.is_whitespace());
        }
        n += 1;
    }
}

#[test]
fn blank_agrees_with_trim() {
    for s in ["", " ", "\n\n", " a ", "{}", "\u{2003}\u{3000}", "\u{200b}"] {
        assert_eq!(blank(s), s.trim().is_empty());
    }
}

#[test]
fn find_char_gives_the_first_position_in_characters() {
    assert_eq!(find_char("JSON:a:b", ':'), Some(4));
    assert_eq!(find_char("é:x", ':'), Some(1));
    assert_eq!(find_char("justapath", ':'), None);
    assert_eq!(find_char("", ':'), None);
    assert_eq!(find_char(":", ':'), Some(0));
}

#[test]
fn staging_path_is_a_sibling_of_the_file() {
    let st = JsonStorage::new("/data/snippets.json".to_string());
    assert_eq!(st.staging_path(), "/data/snippets.json.tmp");
    assert_eq!(st.path(), "/data/snippets.json");
}

#[test]
fn io_errors_name_the_access_and_the_location() {
    let st = JsonStorage::new("/data/snippets.json".to_string());
    let read = st.io_error(Access::Read);
    assert_eq!(read, StorageError::Io(Access::Read, "/data/snippets.json".to_string()));
    assert_eq!(read.message(), "Failed to read storage at /data/snippets.json");
    assert!(!read.is_configuration());
    let write = st.io_error(Access::Write);
    assert_eq!(write, StorageError::Io(Access::Write, "/data/snippets.json".to_string()));
    assert_eq!(write.message(), "Failed to write storage at /data/snippets.json");
}
