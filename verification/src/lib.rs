//! Typed access to a host system's shared clipboard (pasteboard).
//!
//! The crate verifies the clipboard-access protocol itself: the mapping
//! between a closed set of content types and the platform's native type
//! identifiers, the change-counter watermark that detects new content, and
//! the read/write/enumerate contracts, all stated against a model of the
//! OS clipboard service's documented behaviour.

mod board;
mod content;
mod error;
mod laws;
mod model;
mod registry;
mod types;

pub use board::after_write;
pub use board::classify_native_types;
pub use board::result_models;
pub use board::slot_ids;
pub use board::string_views;
pub use board::skip_read;
pub use board::spec_read;
pub use board::spec_types;
pub use board::spec_write_plan;
pub use board::write_outcome;
pub use board::PasteBoard;
pub use content::Content;
pub use content::ContentModel;
pub use error::Error;
pub use laws::lemma_enumeration_excludes_other;
pub use laws::lemma_other_read_rejected;
pub use laws::lemma_round_trip_data;
pub use laws::lemma_round_trip_text;
pub use laws::lemma_second_newer_read_skips;
pub use laws::lemma_write_then_newer_read_proceeds;
pub use laws::lemma_written_type_enumerated;
pub use model::after_clear;
pub use model::after_set;
pub use model::lookup;
pub use model::ClipboardModel;
pub use model::Slot;
pub use model::SlotModel;
pub use model::SystemClipboard;
pub use registry::lemma_registry_roundtrip;
pub use registry::native_id;
pub use registry::type_of_native;
pub use types::spec_payload_kind;
pub use types::PayloadKind;
pub use types::Type;
