//! A small on-disk store of API-key records: the record model, the stages of
//! loading and saving the store file, and random record identifiers.

pub mod document;
pub mod ident;
pub mod record;
pub mod store;

pub use document::Json;
pub use ident::generate_uuid;
pub use record::{default_type, ApiKey, AppData};
pub use store::{
    load_step, parse_outcome, serialize_outcome, store_location, write_outcome, FileState,
    LoadStep, StoreError,
};
