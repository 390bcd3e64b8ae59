//! A catalog of the platform's known folders and a verified resolver core.
//!
//! The catalog is a closed enumeration of folder concepts, each selecting a
//! 128-bit platform identifier; the enumeration and the ordered identifier
//! table are proved to stay in lock-step. The resolver interprets the
//! platform folder-path query's answer: it decodes the returned
//! wide-character buffer on success, classifies every failure status into a
//! small typed error set, and releases the buffer exactly once on every
//! path. The native query itself stands outside the library and hands in
//! plain values.

mod catalog;
mod error;
mod guid;
mod resolve;

pub use catalog::FolderId;
pub use catalog::FOLDER_COUNT;
pub use catalog::folder_at;
pub use catalog::folder_guid;
pub use catalog::folder_id_from_index;
pub use catalog::folder_ids_table;
pub use catalog::folder_index;
pub use catalog::guid_of;
pub use catalog::index_of;
pub use catalog::lemma_folder_at_index;
pub use catalog::lemma_folder_index_in_range;
pub use catalog::lemma_index_has_folder;
pub use error::Error;
pub use guid::Guid;
pub use resolve::STATUS_CANNOT_FIND_PATH;
pub use resolve::STATUS_FAIL;
pub use resolve::STATUS_INVALID_ARG;
pub use resolve::STATUS_NOT_FOUND;
pub use resolve::STATUS_OK;
pub use resolve::WideBuffer;
pub use resolve::interpret_and_release;
pub use resolve::lemma_classification_exhaustive;
pub use resolve::lemma_resolution_idempotent;
pub use resolve::path_units;
pub use resolve::path_units_spec;
pub use resolve::resolve_spec;
pub use resolve::result_units;
pub use resolve::wide_len;
pub use resolve::wide_len_spec;
