use crate::document::{decode_store, Json};
use crate::record::{initial_version, AppData};
use vstd::prelude::*;
use vstd::string::StringExecFns;

verus! {

pub open spec fn app_dir_name() -> Seq<char> {
    seq!['k', 'e', 'y', 's', 'a', 'v', 'e', 'r']
}

pub open spec fn store_file_name() -> Seq<char> {
    seq!['k', 'e', 'y', 's', '.', 'j', 's', 'o', 'n']
}

/// The directory that the store's directory goes under: the platform's user
/// data directory, or the current directory where the platform names none.
pub open spec fn store_root(platform_data_dir: Option<Seq<char>>) -> Seq<char> {
    match platform_data_dir {
        Some(d) => d,
        None => seq!['.'],
    }
}

/// The path of the store file, as its components from the root down:
/// `<root>/keysaver/keys.json`.
pub fn store_location(platform_data_dir: Option<String>) -> (r: Vec<String>)
    ensures
        r@.len() == 3,
        r@[0]@ == store_root(
            match platform_data_dir {
                Some(d) => Some(d@),
                None => None,
            },
        ),
        r@[1]@ == app_dir_name(),
        r@[2]@ == store_file_name(),
{
    let root = match platform_data_dir {
        Some(d) => d,
        None => {
            let here = ".".to_string();
            proof {
                reveal_strlit(".");
            }
            here
        },
    };
    let dir = "keysaver".to_string();
    let file = "keys.json".to_string();
    proof {
        reveal_strlit("keysaver");
        reveal_strlit("keys.json");
    }
    let mut r: Vec<String> = Vec::new();
    r.push(root);
    r.push(dir);
    r.push(file);
    r
}

/// Why a load or a save failed, with the underlying error's text.
#[derive(Debug, Clone)]
pub enum StoreError {
    /// The store file exists but could not be read.
    Read(String),
    /// The file's text is not a store document.
    Parse(String),
    /// The store could not be turned into text.
    Serialize(String),
    /// The text could not be written to the store file.
    Write(String),
}

pub open spec fn read_prefix() -> Seq<char> {
    "Failed to read file: "@
}

pub open spec fn parse_prefix() -> Seq<char> {
    "Failed to parse JSON: "@
}

pub open spec fn serialize_prefix() -> Seq<char> {
    "Failed to serialize: "@
}

pub open spec fn write_prefix() -> Seq<char> {
    "Failed to write file: "@
}

impl StoreError {
    /// The detail text carried by the error.
    pub open spec fn detail(&self) -> Seq<char> {
        match self {
            StoreError::Read(d) => d@,
            StoreError::Parse(d) => d@,
            StoreError::Serialize(d) => d@,
            StoreError::Write(d) => d@,
        }
    }

    /// The text naming the failed stage, put before the detail.
    pub open spec fn prefix(&self) -> Seq<char> {
        match self {
            StoreError::Read(_) => read_prefix(),
            StoreError::Parse(_) => parse_prefix(),
            StoreError::Serialize(_) => serialize_prefix(),
            StoreError::Write(_) => write_prefix(),
        }
    }

    /// The message shown to the user: the failed stage, then the detail.
    pub fn message(&self) -> (r: String)
        ensures
            r@ == self.prefix() + self.detail(),
    {
        let (head, detail) = match self {
            StoreError::Read(d) => ("Failed to read file: ", d),
            StoreError::Parse(d) => ("Failed to parse JSON: ", d),
            StoreError::Serialize(d) => ("Failed to serialize: ", d),
            StoreError::Write(d) => ("Failed to write file: ", d),
        };
        let mut r = head.to_string();
        r.append(detail.as_str());
        r
    }
}

/// What was found at the store file's path when a load began.
pub enum FileState {
    /// No file is there.
    Missing,
    /// A file is there, but reading it failed with this error text.
    Unreadable(String),
    /// The file's full text.
    Contents(String),
}

/// What a load does after looking at the store file.
pub enum LoadStep {
    /// The load is over with this store; nothing is written.
    Ready(AppData),
    /// This text is to be parsed as a store document.
    Parse(String),
    /// The load failed.
    Failed(StoreError),
}

/// The first stage of a load. A missing file gives an empty store at the
/// initial version, without any write; an unreadable one a read error; the
/// text of a readable one goes on to parsing.
pub fn load_step(file: FileState) -> (r: LoadStep)
    ensures
        match file {
            FileState::Missing => match r {
                LoadStep::Ready(d) => d@.version == initial_version() && d@.keys.len() == 0,
                _ => false,
            },
            FileState::Unreadable(e) => r == LoadStep::Failed(StoreError::Read(e)),
            FileState::Contents(t) => r == LoadStep::Parse(t),
        },
{
    match file {
        FileState::Missing => LoadStep::Ready(AppData::default()),
        FileState::Unreadable(e) => LoadStep::Failed(StoreError::Read(e)),
        FileState::Contents(t) => LoadStep::Parse(t),
    }
}

/// The last stage of a load, from the JSON value that the file's text was
/// parsed into, or the parser's error. A parser error, and a value that stands
/// for no store, both become a parse error, never a read error; otherwise the
/// store that the value stands for is the result.
pub fn parse_outcome(parsed: Result<Json, String>) -> (r: Result<AppData, StoreError>)
    ensures
        match parsed {
            Err(e) => r == Err::<AppData, StoreError>(StoreError::Parse(e)),
            Ok(j) => match r {
                Ok(d) => decode_store(j) == Some(d@),
                Err(e) => decode_store(j) is None && e is Parse,
            },
        },
{
    match parsed {
        Ok(j) => match AppData::from_json(&j) {
            Ok(d) => Ok(d),
            Err(e) => Err(StoreError::Parse(e)),
        },
        Err(e) => Err(StoreError::Parse(e)),
    }
}

/// The first stage of a save: the store's text is what will be written; a
/// serializer error becomes a serialize error.
pub fn serialize_outcome(text: Result<String, String>) -> (r: Result<String, StoreError>)
    ensures
        r == match text {
            Ok(t) => Ok::<String, StoreError>(t),
            Err(e) => Err(StoreError::Serialize(e)),
        },
{
    match text {
        Ok(t) => Ok(t),
        Err(e) => Err(StoreError::Serialize(e)),
    }
}

/// The last stage of a save: a failed write becomes a write error.
pub fn write_outcome(written: Result<(), String>) -> (r: Result<(), StoreError>)
    ensures
        r == match written {
            Ok(()) => Ok::<(), StoreError>(()),
            Err(e) => Err(StoreError::Write(e)),
        },
{
    match written {
        Ok(()) => Ok(()),
        Err(e) => Err(StoreError::Write(e)),
    }
}

} // verus!
