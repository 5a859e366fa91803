use vstd::prelude::*;

verus! {

/// The kind given to a record whose stored form names none.
pub open spec fn default_kind() -> Seq<char> {
    seq!['a', 'p', 'i', 'K', 'e', 'y']
}

/// The format version written into a newly created store.
pub open spec fn initial_version() -> Seq<char> {
    seq!['1', '.', '0', '.', '0']
}

/// One stored credential entry.
#[derive(Debug, Clone)]
pub struct ApiKey {
    pub id: String,
    pub name: String,
    /// Discriminator between record shapes (a single key, a key pair, ...).
    pub kind: String,
    pub key: Option<String>,
    pub access_key_id: Option<String>,
    pub access_key_secret: Option<String>,
    pub note: String,
    pub created_at: u64,
    pub updated_at: u64,
}

/// The content of an [`ApiKey`], with strings as character sequences.
pub struct ApiKeyView {
    pub id: Seq<char>,
    pub name: Seq<char>,
    pub kind: Seq<char>,
    pub key: Option<Seq<char>>,
    pub access_key_id: Option<Seq<char>>,
    pub access_key_secret: Option<Seq<char>>,
    pub note: Seq<char>,
    pub created_at: u64,
    pub updated_at: u64,
}

pub open spec fn opt_view(o: Option<String>) -> Option<Seq<char>> {
    match o {
        Some(s) => Some(s@),
        None => None,
    }
}

impl View for ApiKey {
    type V = ApiKeyView;

    open spec fn view(&self) -> ApiKeyView {
        ApiKeyView {
            id: self.id@,
            name: self.name@,
            kind: self.kind@,
            key: opt_view(self.key),
            access_key_id: opt_view(self.access_key_id),
            access_key_secret: opt_view(self.access_key_secret),
            note: self.note@,
            created_at: self.created_at,
            updated_at: self.updated_at,
        }
    }
}

fn opt_str_eq(a: &Option<String>, b: &Option<String>) -> (r: bool)
    ensures
        r == (opt_view(*a) == opt_view(*b)),
{
    match a {
        Some(x) => match b {
            Some(y) => {
                let same: bool = x.eq(y);
                same
            },
            None => false,
        },
        None => b.is_none(),
    }
}

impl PartialEq for ApiKey {
    fn eq(&self, o: &ApiKey) -> (r: bool) {
        self.id == o.id && self.name == o.name && self.kind == o.kind && opt_str_eq(
            &self.key,
            &o.key,
        ) && opt_str_eq(&self.access_key_id, &o.access_key_id) && opt_str_eq(
            &self.access_key_secret,
            &o.access_key_secret,
        ) && self.note == o.note && self.created_at == o.created_at && self.updated_at
            == o.updated_at
    }
}

impl vstd::std_specs::cmp::PartialEqSpecImpl for ApiKey {
    open spec fn obeys_eq_spec() -> bool {
        true
    }

    open spec fn eq_spec(&self, o: &ApiKey) -> bool {
        self@ == o@
    }
}

/// The whole persisted document: a format version and the records in order.
#[derive(Debug, Clone)]
pub struct AppData {
    pub version: String,
    pub keys: Vec<ApiKey>,
}

/// The content of an [`AppData`].
pub struct AppDataView {
    pub version: Seq<char>,
    pub keys: Seq<ApiKeyView>,
}

impl View for AppData {
    type V = AppDataView;

    open spec fn view(&self) -> AppDataView {
        AppDataView { version: self.version@, keys: self.keys@.map_values(|k: ApiKey| k@) }
    }
}

impl PartialEq for AppData {
    fn eq(&self, o: &AppData) -> (r: bool) {
        if !(self.version == o.version) || self.keys.len() != o.keys.len() {
            assert(self.version@ != o.version@ || self@.keys.len() != o@.keys.len());
            return false;
        }
        let n = self.keys.len();
        let mut i: usize = 0;
        while i < n
            invariant
                n == self.keys.len(),
                n == o.keys.len(),
                0 <= i <= n,
                forall|j: int| 0 <= j < i ==> self.keys@[j]@ == o.keys@[j]@,
            decreases n - i,
        {
            if !(self.keys[i] == o.keys[i]) {
                assert(self@.keys[i as int] != o@.keys[i as int]);
                return false;
            }
            i = i + 1;
        }
        assert(self@.keys =~= o@.keys);
        true
    }
}

impl vstd::std_specs::cmp::PartialEqSpecImpl for AppData {
    open spec fn obeys_eq_spec() -> bool {
        true
    }

    open spec fn eq_spec(&self, o: &AppData) -> bool {
        self@ == o@
    }
}

/// The kind that a record read without one receives: `"apiKey"`.
pub fn default_type() -> (r: String)
    ensures
        r@ == default_kind(),
{
    let r = "apiKey".to_string();
    proof {
        reveal_strlit("apiKey");
    }
    r
}

impl Default for AppData {
    /// An empty store at the initial format version.
    fn default() -> (r: AppData)
        ensures
            r@.version == initial_version(),
            r@.keys.len() == 0,
    {
        let version = "1.0.0".to_string();
        proof {
            reveal_strlit("1.0.0");
        }
        AppData { version, keys: Vec::new() }
    }
}

} // verus!
