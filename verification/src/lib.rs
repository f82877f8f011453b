//! A minimal embeddable build-orchestration helper: named, lazily-invoked
//! build commands with ordered first-match dispatch, staleness-based
//! conditional file copying, and best-effort glob expansion.

pub mod copier;
pub mod maker;
pub mod resolve;
pub mod results;
pub mod stale;

pub use copier::CopyError;
pub use copier::effective_dest;
pub use copier::file_name;
pub use copier::join;
pub use maker::Dispatch;
pub use maker::Maker;
pub use resolve::GlobError;
pub use resolve::PathSet;
pub use resolve::Target;
pub use resolve::glob;
pub use results::ResultHelper;
pub use stale::Mtime;
pub use stale::StaleError;
pub use stale::is_newer;
pub use stale::should_copy;
