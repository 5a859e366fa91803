use crate::record::{default_kind, ApiKey, ApiKeyView, AppData, AppDataView};
use vstd::prelude::*;
use vstd::string::StringExecFns;

verus! {

/// A JSON value, as far as the store document reads it.
#[derive(Debug)]
pub enum Json {
    Null,
    Bool(bool),
    /// A number that is a non-negative integer fitting in 64 bits.
    UInt(u64),
    /// Any other number (negative, fractional or too large), as its JSON text.
    OtherNumber(String),
    Str(String),
    Array(Vec<Json>),
    /// The members of an object, in order.
    Object(Vec<(String, Json)>),
}

/// The value of the first member named `k`, if any.
pub open spec fn field(fields: Seq<(String, Json)>, k: Seq<char>) -> Option<Json>
    decreases fields.len(),
{
    if fields.len() == 0 {
        None
    } else if fields[0].0@ == k {
        Some(fields[0].1)
    } else {
        field(fields.drop_first(), k)
    }
}

/// A required string member.
pub open spec fn required_str(fields: Seq<(String, Json)>, k: Seq<char>) -> Option<Seq<char>> {
    match field(fields, k) {
        Some(Json::Str(s)) => Some(s@),
        _ => None,
    }
}

/// A string member that may be absent, in which case it takes `dflt`.
pub open spec fn str_or(fields: Seq<(String, Json)>, k: Seq<char>, dflt: Seq<char>) -> Option<
    Seq<char>,
> {
    match field(fields, k) {
        None => Some(dflt),
        Some(Json::Str(s)) => Some(s@),
        _ => None,
    }
}

/// An optional string member: absent and `null` both mean none.
pub open spec fn optional_str(fields: Seq<(String, Json)>, k: Seq<char>) -> Option<
    Option<Seq<char>>,
> {
    match field(fields, k) {
        None => Some(None),
        Some(Json::Null) => Some(None),
        Some(Json::Str(s)) => Some(Some(s@)),
        _ => None,
    }
}

/// A required unsigned integer member.
pub open spec fn required_u64(fields: Seq<(String, Json)>, k: Seq<char>) -> Option<u64> {
    match field(fields, k) {
        Some(Json::UInt(n)) => Some(n),
        _ => None,
    }
}

/// The record that a JSON value stands for, if it stands for one: an object
/// with string members `id` and `name`, an optional string `type` (by default
/// `"apiKey"`), optional string-or-null members `key`, `accessKeyId` and
/// `accessKeySecret`, an optional string `note` (by default empty), and
/// unsigned integers `createdAt` and `updatedAt`. Other members are ignored.
pub open spec fn decode_key(j: Json) -> Option<ApiKeyView> {
    match j {
        Json::Object(fs) => {
            let f = fs@;
            if required_str(f, "id"@) is Some && required_str(f, "name"@) is Some && str_or(
                f,
                "type"@,
                default_kind(),
            ) is Some && optional_str(f, "key"@) is Some && optional_str(f, "accessKeyId"@) is Some
                && optional_str(f, "accessKeySecret"@) is Some && str_or(f, "note"@, seq![]) is Some
                && required_u64(f, "createdAt"@) is Some && required_u64(f, "updatedAt"@) is Some {
                Some(
                    ApiKeyView {
                        id: required_str(f, "id"@)->0,
                        name: required_str(f, "name"@)->0,
                        kind: str_or(f, "type"@, default_kind())->0,
                        key: optional_str(f, "key"@)->0,
                        access_key_id: optional_str(f, "accessKeyId"@)->0,
                        access_key_secret: optional_str(f, "accessKeySecret"@)->0,
                        note: str_or(f, "note"@, seq![])->0,
                        created_at: required_u64(f, "createdAt"@)->0,
                        updated_at: required_u64(f, "updatedAt"@)->0,
                    },
                )
            } else {
                None
            }
        },
        _ => None,
    }
}

/// The records that a sequence of JSON values stands for, if each stands for one.
pub open spec fn decode_keys(items: Seq<Json>) -> Option<Seq<ApiKeyView>> {
    if forall|i: int| 0 <= i < items.len() ==> #[trigger] decode_key(items[i]) is Some {
        Some(Seq::new(items.len(), |i: int| decode_key(items[i])->0))
    } else {
        None
    }
}

/// The store that a JSON value stands for, if it stands for one: an object
/// with a string member `version` and an array member `keys` of records.
pub open spec fn decode_store(j: Json) -> Option<AppDataView> {
    match j {
        Json::Object(fs) => {
            let f = fs@;
            match field(f, "keys"@) {
                Some(Json::Array(items)) => {
                    if required_str(f, "version"@) is Some && decode_keys(items@) is Some {
                        Some(
                            AppDataView {
                                version: required_str(f, "version"@)->0,
                                keys: decode_keys(items@)->0,
                            },
                        )
                    } else {
                        None
                    }
                },
                _ => None,
            }
        },
        _ => None,
    }
}

/// The member found under a name is the first one that carries it.
proof fn lemma_field_at(fields: Seq<(String, Json)>, k: Seq<char>, i: int)
    requires
        0 <= i < fields.len(),
        fields[i].0@ == k,
        forall|t: int| 0 <= t < i ==> fields[t].0@ != k,
    ensures
        field(fields, k) == Some(fields[i].1),
    decreases i,
{
    if i > 0 {
        let rest = fields.drop_first();
        assert forall|t: int| 0 <= t < i - 1 implies rest[t].0@ != k by {
            assert(rest[t] == fields[t + 1]);
        }
        lemma_field_at(rest, k, i - 1);
    }
}

/// The position of the first member named `k`.
fn find_field(fields: &Vec<(String, Json)>, k: &String) -> (r: Option<usize>)
    ensures
        match r {
            Some(i) => i < fields@.len() && field(fields@, k@) == Some(fields@[i as int].1),
            None => field(fields@, k@) is None,
        },
{
    let n = fields.len();
    let mut i: usize = 0;
    assert(fields@.subrange(0, n as int) =~= fields@);
    while i < n
        invariant
            n == fields@.len(),
            0 <= i <= n,
            field(fields@, k@) == field(fields@.subrange(i as int, n as int), k@),
        decreases n - i,
    {
        let ghost rest = fields@.subrange(i as int, n as int);
        assert(rest.drop_first() =~= fields@.subrange(i + 1, n as int));
        if fields[i].0.eq(k) {
            return Some(i);
        }
        i = i + 1;
    }
    None
}

fn name_of(s: &str) -> (r: String)
    ensures
        r@ == s@,
{
    s.to_string()
}

fn get_required_str(fields: &Vec<(String, Json)>, k: &str) -> (r: Result<String, String>)
    ensures
        match r {
            Ok(s) => required_str(fields@, k@) == Some(s@),
            Err(_) => required_str(fields@, k@) is None,
        },
{
    match find_field(fields, &name_of(k)) {
        Some(i) => match &fields[i].1 {
            Json::Str(s) => Ok(s.clone()),
            _ => Err(invalid_member(k)),
        },
        None => Err(missing_member(k)),
    }
}

fn get_str_or(fields: &Vec<(String, Json)>, k: &str, dflt: String) -> (r: Result<String, String>)
    ensures
        match r {
            Ok(s) => str_or(fields@, k@, dflt@) == Some(s@),
            Err(_) => str_or(fields@, k@, dflt@) is None,
        },
{
    match find_field(fields, &name_of(k)) {
        Some(i) => match &fields[i].1 {
            Json::Str(s) => Ok(s.clone()),
            _ => Err(invalid_member(k)),
        },
        None => Ok(dflt),
    }
}

fn get_optional_str(fields: &Vec<(String, Json)>, k: &str) -> (r: Result<Option<String>, String>)
    ensures
        match r {
            Ok(s) => optional_str(fields@, k@) == Some(crate::record::opt_view(s)),
            Err(_) => optional_str(fields@, k@) is None,
        },
{
    match find_field(fields, &name_of(k)) {
        Some(i) => match &fields[i].1 {
            Json::Null => Ok(None),
            Json::Str(s) => Ok(Some(s.clone())),
            _ => Err(invalid_member(k)),
        },
        None => Ok(None),
    }
}

fn get_required_u64(fields: &Vec<(String, Json)>, k: &str) -> (r: Result<u64, String>)
    ensures
        match r {
            Ok(n) => required_u64(fields@, k@) == Some(n),
            Err(_) => required_u64(fields@, k@) is None,
        },
{
    match find_field(fields, &name_of(k)) {
        Some(i) => match &fields[i].1 {
            Json::UInt(n) => Ok(*n),
            _ => Err(invalid_member(k)),
        },
        None => Err(missing_member(k)),
    }
}

fn missing_member(k: &str) -> String {
    let mut m = "missing field `".to_string();
    m.append(k);
    m.append("`");
    m
}

fn invalid_member(k: &str) -> String {
    let mut m = "invalid type for field `".to_string();
    m.append(k);
    m.append("`");
    m
}

impl ApiKey {
    /// Reads a record from its JSON form; fails exactly where the value
    /// stands for no record.
    pub fn from_json(j: &Json) -> (r: Result<ApiKey, String>)
        ensures
            match r {
                Ok(k) => decode_key(*j) == Some(k@),
                Err(_) => decode_key(*j) is None,
            },
    {
        let fs = match j {
            Json::Object(fs) => fs,
            _ => {
                return Err("expected a record object".to_string());
            },
        };
        let id = get_required_str(fs, "id")?;
        let name = get_required_str(fs, "name")?;
        let kind = get_str_or(fs, "type", crate::record::default_type())?;
        let key = get_optional_str(fs, "key")?;
        let access_key_id = get_optional_str(fs, "accessKeyId")?;
        let access_key_secret = get_optional_str(fs, "accessKeySecret")?;
        let note = get_str_or(fs, "note", String::new())?;
        let created_at = get_required_u64(fs, "createdAt")?;
        let updated_at = get_required_u64(fs, "updatedAt")?;
        Ok(
            ApiKey {
                id,
                name,
                kind,
                key,
                access_key_id,
                access_key_secret,
                note,
                created_at,
                updated_at,
            },
        )
    }
}

impl AppData {
    /// Reads a store from its JSON form; fails exactly where the value
    /// stands for no store.
    pub fn from_json(j: &Json) -> (r: Result<AppData, String>)
        ensures
            match r {
                Ok(d) => decode_store(*j) == Some(d@),
                Err(_) => decode_store(*j) is None,
            },
    {
        let fs = match j {
            Json::Object(fs) => fs,
            _ => {
                return Err("expected a store object".to_string());
            },
        };
        let items = match find_field(fs, &name_of("keys")) {
            Some(i) => match &fs[i].1 {
                Json::Array(items) => items,
                _ => {
                    return Err(invalid_member("keys"));
                },
            },
            None => {
                return Err(missing_member("keys"));
            },
        };
        assert(field(fs@, "keys"@) == Some(Json::Array(*items)));
        let version = get_required_str(fs, "version")?;
        let mut keys: Vec<ApiKey> = Vec::new();
        let n = items.len();
        let mut i: usize = 0;
        while i < n
            invariant
                n == items@.len(),
                0 <= i <= n,
                keys@.len() == i,
                *j == Json::Object(*fs),
                field(fs@, "keys"@) == Some(Json::Array(*items)),
                forall|t: int| 0 <= t < i ==> decode_key(items@[t]) == Some(#[trigger] keys@[t]@),
            decreases n - i,
        {
            match ApiKey::from_json(&items[i]) {
                Ok(k) => keys.push(k),
                Err(e) => {
                    assert(!(decode_keys(items@) is Some)) by {
                        assert(!(decode_key(items@[i as int]) is Some));
                    }
                    return Err(e);
                },
            }
            i = i + 1;
        }
        let r = AppData { version, keys };
        assert forall|t: int| 0 <= t < items@.len() implies #[trigger] decode_key(items@[t]) is Some by {
            assert(decode_key(items@[t]) == Some(keys@[t]@));
        }
        assert(decode_keys(items@) is Some);
        assert(r@.keys =~= decode_keys(items@)->0);
        Ok(r)
    }
}

/// An optional string as JSON: the string, or `null`.
fn optional_json(o: &Option<String>) -> (r: Json)
    ensures
        match r {
            Json::Str(t) => o is Some && t@ == o->0@,
            Json::Null => o is None,
            _ => false,
        },
{
    match o {
        Some(t) => Json::Str(t.clone()),
        None => Json::Null,
    }
}

impl ApiKey {
    /// The JSON form of the record; reading it back gives the record.
    pub fn to_json(&self) -> (r: Json)
        ensures
            decode_key(r) == Some(self@),
    {
        let fs = vec![
            (name_of("id"), Json::Str(self.id.clone())),
            (name_of("name"), Json::Str(self.name.clone())),
            (name_of("type"), Json::Str(self.kind.clone())),
            (name_of("key"), optional_json(&self.key)),
            (name_of("accessKeyId"), optional_json(&self.access_key_id)),
            (name_of("accessKeySecret"), optional_json(&self.access_key_secret)),
            (name_of("note"), Json::Str(self.note.clone())),
            (name_of("createdAt"), Json::UInt(self.created_at)),
            (name_of("updatedAt"), Json::UInt(self.updated_at)),
        ];
        proof {
            reveal_strlit("id");
            reveal_strlit("name");
            reveal_strlit("type");
            reveal_strlit("key");
            reveal_strlit("accessKeyId");
            reveal_strlit("accessKeySecret");
            reveal_strlit("note");
            reveal_strlit("createdAt");
            reveal_strlit("updatedAt");
            let f = fs@;
            assert(f[0].0@.len() == 2 && f[1].0@.len() == 4 && f[2].0@.len() == 4);
            assert(f[3].0@.len() == 3 && f[4].0@.len() == 11 && f[5].0@.len() == 15);
            assert(f[6].0@.len() == 4 && f[7].0@.len() == 9 && f[8].0@.len() == 9);
            assert(f[1].0@[0] == 'n' && f[2].0@[0] == 't' && f[6].0@[1] == 'o');
            assert(f[7].0@[0] == 'c' && f[8].0@[0] == 'u');
            lemma_field_at(f, "id"@, 0);
            lemma_field_at(f, "name"@, 1);
            lemma_field_at(f, "type"@, 2);
            lemma_field_at(f, "key"@, 3);
            lemma_field_at(f, "accessKeyId"@, 4);
            lemma_field_at(f, "accessKeySecret"@, 5);
            lemma_field_at(f, "note"@, 6);
            lemma_field_at(f, "createdAt"@, 7);
            lemma_field_at(f, "updatedAt"@, 8);
        }
        Json::Object(fs)
    }
}

impl AppData {
    /// The JSON form of the store; reading it back gives the store, field
    /// for field and record for record.
    pub fn to_json(&self) -> (r: Json)
        ensures
            decode_store(r) == Some(self@),
    {
        let mut items: Vec<Json> = Vec::new();
        let n = self.keys.len();
        let mut i: usize = 0;
        while i < n
            invariant
                n == self.keys@.len(),
                0 <= i <= n,
                items@.len() == i,
                forall|t: int|
                    0 <= t < i ==> decode_key(#[trigger] items@[t]) == Some(self.keys@[t]@),
            decreases n - i,
        {
            items.push(self.keys[i].to_json());
            i = i + 1;
        }
        assert(decode_keys(items@) is Some);
        assert(decode_keys(items@)->0 =~= self@.keys);
        let ghost item_seq = items@;
        let fs = vec![
            (name_of("version"), Json::Str(self.version.clone())),
            (name_of("keys"), Json::Array(items)),
        ];
        proof {
            reveal_strlit("version");
            reveal_strlit("keys");
            assert(fs@[0].0@.len() == 7 && fs@[1].0@.len() == 4);
            lemma_field_at(fs@, "version"@, 0);
            lemma_field_at(fs@, "keys"@, 1);
            assert(fs@[1].1 == Json::Array(items));
        }
        Json::Object(fs)
    }
}

/// A record whose JSON form has no `type` member is read with the default
/// kind, `"apiKey"`.
pub proof fn lemma_missing_type_defaults(fields: Vec<(String, Json)>)
    requires
        field(fields@, "type"@) is None,
        decode_key(Json::Object(fields)) is Some,
    ensures
        decode_key(Json::Object(fields))->0.kind == default_kind(),
{
}

} // verus!
