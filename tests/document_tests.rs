use keysaver::{ApiKey, AppData, Json};

fn s(v: &str) -> Json {
    Json::Str(v.to_string())
}

fn member(k: &str, v: Json) -> (String, Json) {
    (k.to_string(), v)
}

fn minimal_record() -> Vec<(String, Json)> {
    vec![
        member("id", s("k1")),
        member("name", s("Anthropic")),
        member("createdAt", Json::UInt(1700000000000)),
        member("updatedAt", Json::UInt(1700000000500)),
    ]
}

fn paired_record() -> ApiKey {
    ApiKey {
        id: "k2".to_string(),
        name: "Cloud".to_string(),
        kind: "accessKey".to_string(),
        key: None,
        access_key_id: Some("AKID".to_string()),
        access_key_secret: Some("secret".to_string()),
        note: "prod account".to_string(),
        created_at: 10,
        updated_at: 20,
    }
}

#[test]
fn store_round_trips_through_json() {
    let single = ApiKey {
        id: "k1".to_string(),
        name: "OpenAI".to_string(),
        kind: "apiKey".to_string(),
        key: Some("sk-1".to_string()),
        access_key_id: None,
        access_key_secret: None,
        note: String::new(),
        created_at: 0,
        updated_at: u64::MAX,
    };
    let d = AppData { version: "1.0.0".to_string(), keys: vec![single, paired_record()] };
    let back = AppData::from_json(&d.to_json()).unwrap();
    assert!(back == d);
    assert_eq!(back.keys[1].access_key_secret.as_deref(), Some("secret"));
    assert_eq!(back.keys[0].updated_at, u64::MAX);
}

#[test]
fn empty_store_round_trips_through_json() {
    let d = AppData::default();
    assert!(AppData::from_json(&d.to_json()).unwrap() == d);
}

#[test]
fn record_without_type_gets_default_kind() {
    let k = ApiKey::from_json(&Json::Object(minimal_record())).unwrap();
    assert_eq!(k.kind, "apiKey");
    assert_eq!(k.note, "");
    assert_eq!(k.key, None);
    assert_eq!(k.access_key_id, None);
    assert_eq!(k.access_key_secret, None);
    assert_eq!(k.created_at, 1700000000000);
    assert_eq!(k.updated_at, 1700000000500);
}

#[test]
fn explicit_type_and_nulls_are_read() {
    let mut fields = minimal_record();
    fields.push(member("type", s("accessKey")));
    fields.push(member("key", Json::Null));
    fields.push(member("accessKeyId", s("AKID")));
    fields.push(member("note", s("n")));
    fields.push(member("extra", Json::Bool(true)));
    let k = ApiKey::from_json(&Json::Object(fields)).unwrap();
    assert_eq!(k.kind, "accessKey");
    assert_eq!(k.key, None);
    assert_eq!(k.access_key_id.as_deref(), Some("AKID"));
    assert_eq!(k.note, "n");
}

#[test]
fn record_missing_id_is_rejected() {
    let fields: Vec<(String, Json)> =
        minimal_record().into_iter().filter(|(k, _)| k != "id").collect();
    assert!(ApiKey::from_json(&Json::Object(fields)).is_err());
}

#[test]
fn record_with_bad_member_types_is_rejected() {
    let mut a = minimal_record();
    a[2] = member("createdAt", s("yesterday"));
    assert!(ApiKey::from_json(&Json::Object(a)).is_err());
    let mut b = minimal_record();
    b[3] = member("updatedAt", Json::OtherNumber("-3".to_string()));
    assert!(ApiKey::from_json(&Json::Object(b)).is_err());
    let mut c = minimal_record();
    c.push(member("note", Json::Null));
    assert!(ApiKey::from_json(&Json::Object(c)).is_err());
    let mut d = minimal_record();
    d.push(member("key", Json::UInt(5)));
    assert!(ApiKey::from_json(&Json::Object(d)).is_err());
    assert!(ApiKey::from_json(&s("not a record")).is_err());
}

#[test]
fn store_with_a_bad_record_is_rejected() {
    let doc = Json::Object(vec![
        member("version", s("1.0.0")),
        member("keys", Json::Array(vec![Json::Object(minimal_record()), Json::Null])),
    ]);
    assert!(AppData::from_json(&doc).is_err());
}

#[test]
fn store_members_are_read_in_any_order() {
    let doc = Json::Object(vec![
        member("keys", Json::Array(vec![Json::Object(minimal_record())])),
        member("version", s("2.1.0")),
    ]);
    let d = AppData::from_json(&doc).unwrap();
    assert_eq!(d.version, "2.1.0");
    assert_eq!(d.keys.len(), 1);
    assert_eq!(d.keys[0].id, "k1");
}

#[test]
fn record_json_uses_document_member_names() {
    match paired_record().to_json() {
        Json::Object(fields) => {
            let names: Vec<&str> = fields.iter().map(|(k, _)| k.as_str()).collect();
            assert_eq!(
                names,
                vec![
                    "id",
                    "name",
                    "type",
                    "key",
                    "accessKeyId",
                    "accessKeySecret",
                    "note",
                    "createdAt",
                    "updatedAt"
                ]
            );
            assert!(matches!(fields[3].1, Json::Null));
            assert!(matches!(fields[7].1, Json::UInt(10)));
        }
        _ => panic!("a record is written as an object"),
    }
}
