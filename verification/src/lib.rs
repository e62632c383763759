//! Content compilation for a mod's source tree: documents are read into typed
//! records, passed through an ordered list of transformation stages, and
//! rendered as strict JSON artifacts under flattened names.

pub mod json;
pub mod text;
pub mod select;
pub mod record;
pub mod naming;
pub mod ingest;
pub mod pipeline;
pub mod serialize;
pub mod compile;

pub use crate::pipeline::execute_pipeline;
pub use crate::record::{Record, RecordMeta};
pub use crate::serialize::serialize_sources;
