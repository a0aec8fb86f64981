//! A small, verified download library: URL validation, filename derivation,
//! the HTTP status gate, body preview truncation, and diagnostic rendering.
//!
//! The actual network and file I/O live outside the library; the library
//! holds every decision the pipeline makes, each behind a contract.

pub mod errors;
pub mod naming;
pub mod pipeline;
pub mod preview;
pub mod urls;

pub use errors::FetchError;
pub use naming::filename_from_path;
pub use pipeline::check_status;
pub use pipeline::save_target;
pub use preview::preview;
pub use urls::parse_url;
pub use urls::UrlParts;
