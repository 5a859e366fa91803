use keysaver::{
    default_type, generate_uuid, load_step, parse_outcome, serialize_outcome, store_location,
    write_outcome, ApiKey, AppData, FileState, Json, LoadStep, StoreError,
};

fn sample_key(id: &str) -> ApiKey {
    ApiKey {
        id: id.to_string(),
        name: "OpenAI".to_string(),
        kind: "apiKey".to_string(),
        key: Some("sk-test".to_string()),
        access_key_id: None,
        access_key_secret: None,
        note: String::new(),
        created_at: 1700000000000,
        updated_at: 1700000000001,
    }
}

fn is_canonical_v4(s: &str) -> bool {
    let b = s.as_bytes();
    if b.len() != 36 {
        return false;
    }
    for (i, c) in b.iter().enumerate() {
        let dash = i == 8 || i == 13 || i == 18 || i == 23;
        if dash {
            if *c != b'-' {
                return false;
            }
        } else if !(c.is_ascii_digit() || (b'a'..=b'f').contains(c)) {
            return false;
        }
    }
    b[14] == b'4' && matches!(b[19], b'8' | b'9' | b'a' | b'b')
}

#[test]
fn default_type_is_api_key() {
    assert_eq!(default_type(), "apiKey");
}

#[test]
fn default_store_is_empty_at_initial_version() {
    let d = AppData::default();
    assert_eq!(d.version, "1.0.0");
    assert!(d.keys.is_empty());
}

#[test]
fn missing_file_loads_empty_store() {
    match load_step(FileState::Missing) {
        LoadStep::Ready(d) => {
            assert_eq!(d.version, "1.0.0");
            assert_eq!(d.keys.len(), 0);
        }
        _ => panic!("a missing file must load the empty store"),
    }
}

#[test]
fn unreadable_file_is_read_error() {
    match load_step(FileState::Unreadable("permission denied".to_string())) {
        LoadStep::Failed(StoreError::Read(e)) => assert_eq!(e, "permission denied"),
        _ => panic!("an unreadable file must give a read error"),
    }
}

#[test]
fn file_text_goes_to_parsing() {
    match load_step(FileState::Contents("{\"version\":\"1.0.0\",\"keys\":[]}".to_string())) {
        LoadStep::Parse(t) => assert_eq!(t, "{\"version\":\"1.0.0\",\"keys\":[]}"),
        _ => panic!("readable text must be parsed"),
    }
}

#[test]
fn invalid_json_is_parse_error_not_read_error() {
    let r = parse_outcome(Err("expected value at line 1 column 1".to_string()));
    match r {
        Err(StoreError::Parse(e)) => assert_eq!(e, "expected value at line 1 column 1"),
        _ => panic!("a parser failure must be a parse error"),
    }
}

#[test]
fn wrong_document_shape_is_parse_error() {
    let r = parse_outcome(Ok(Json::Array(vec![])));
    assert!(matches!(r, Err(StoreError::Parse(_))));
    let no_keys = Json::Object(vec![("version".to_string(), Json::Str("1.0.0".to_string()))]);
    assert!(matches!(parse_outcome(Ok(no_keys)), Err(StoreError::Parse(_))));
}

#[test]
fn parsed_store_is_returned_unchanged() {
    let d = AppData { version: "1.0.0".to_string(), keys: vec![sample_key("a")] };
    let r = parse_outcome(Ok(d.to_json())).unwrap();
    assert!(r == d);
}

#[test]
fn serialize_failure_is_serialize_error() {
    match serialize_outcome(Err("key must be a string".to_string())) {
        Err(StoreError::Serialize(e)) => assert_eq!(e, "key must be a string"),
        _ => panic!("a serializer failure must be a serialize error"),
    }
    assert_eq!(serialize_outcome(Ok("{}".to_string())).unwrap(), "{}");
}

#[test]
fn write_failure_is_write_error() {
    match write_outcome(Err("disk full".to_string())) {
        Err(StoreError::Write(e)) => assert_eq!(e, "disk full"),
        _ => panic!("a failed write must be a write error"),
    }
    assert!(write_outcome(Ok(())).is_ok());
}

#[test]
fn error_messages_name_the_stage() {
    assert_eq!(StoreError::Read("x".to_string()).message(), "Failed to read file: x");
    assert_eq!(StoreError::Parse("y".to_string()).message(), "Failed to parse JSON: y");
    assert_eq!(StoreError::Serialize("z".to_string()).message(), "Failed to serialize: z");
    assert_eq!(StoreError::Write("w".to_string()).message(), "Failed to write file: w");
}

#[test]
fn store_location_under_platform_dir() {
    let p = store_location(Some("/home/u/.local/share".to_string()));
    assert_eq!(p, vec!["/home/u/.local/share", "keysaver", "keys.json"]);
}

#[test]
fn store_location_falls_back_to_current_dir() {
    let p = store_location(None);
    assert_eq!(p, vec![".", "keysaver", "keys.json"]);
}

#[test]
fn generated_ids_are_canonical_and_distinct() {
    let a = generate_uuid();
    let b = generate_uuid();
    assert!(is_canonical_v4(&a), "{}", a);
    assert!(is_canonical_v4(&b), "{}", b);
    assert_ne!(a, b);
}

#[test]
fn record_equality_compares_every_field() {
    let a = sample_key("a");
    let mut b = sample_key("a");
    assert!(a == b);
    b.access_key_secret = Some("s".to_string());
    assert!(a != b);
    let mut c = sample_key("a");
    c.updated_at = 5;
    assert!(a != c);
}

#[test]
fn store_equality_compares_records_in_order() {
    let s1 = AppData { version: "1.0.0".to_string(), keys: vec![sample_key("a"), sample_key("b")] };
    let s2 = AppData { version: "1.0.0".to_string(), keys: vec![sample_key("a"), sample_key("b")] };
    let s3 = AppData { version: "1.0.0".to_string(), keys: vec![sample_key("b"), sample_key("a")] };
    let s4 = AppData { version: "2.0.0".to_string(), keys: vec![sample_key("a"), sample_key("b")] };
    assert!(s1 == s2);
    assert!(s1 != s3);
    assert!(s1 != s4);
    assert!(AppData::default() == AppData::default());
}
