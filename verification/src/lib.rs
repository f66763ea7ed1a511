//! Verified core of a CSV-to-NocoDB bulk uploader: encoding-aware CSV
//! decoding, fixed-size batching, record mapping, and the fail-fast
//! worker-pool scheduling that drives chunk uploads.

pub mod batch;
pub mod config;
pub mod csvrow;
pub mod decode;
pub mod nocodb;
pub mod pipeline;
pub mod pool;
pub mod record;
pub mod text;
pub mod urlcheck;

pub use batch::chunk_rows;
pub use config::Cli;
pub use config::ConfigError;
pub use config::Context;
pub use config::ContextStatus;
pub use config::Initialized;
pub use config::Uninitialized;
pub use decode::DecodeError;
pub use decode::DecodedTable;
pub use decode::decode_bytes;
pub use decode::decode_table;
pub use nocodb::NocoDB;
pub use nocodb::classify_response;
pub use pipeline::UploadPlan;
pub use pipeline::plan_upload;
pub use pool::PoolReport;
pub use pool::PoolState;
pub use pool::UploadError;
pub use pool::UploadOutcome;
pub use pool::run_pool;
pub use record::Record;
pub use record::map_chunk;
pub use record::map_row;
pub use urlcheck::UrlValidator;
pub use urlcheck::Validation;
