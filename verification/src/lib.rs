//! Verified core of a command-line tool that changes the visibility
//! (public/private) of GitHub repositories through the GitHub REST API.
//!
//! This crate holds the logic of the tool: input validation, the paginated
//! repository-listing state machine, selection handling, URL rewriting, and
//! the exact construction of every request the tool sends. Each public
//! function carries a contract stating what it returns; the surrounding
//! binary performs the actual terminal and network I/O and feeds plain
//! values in and out of this crate.

pub mod error;
pub mod input;
pub mod listing;
pub mod present;
pub mod repo;
pub mod status;
pub mod text;
pub mod update;

pub use error::RunError;
pub use error::RunErrorView;
pub use listing::Lister;
pub use listing::PageOutcome;
pub use repo::Repo;
pub use update::UpdateRequest;
