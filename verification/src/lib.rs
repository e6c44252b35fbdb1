//! Bookkeeping for a working group's resolutions: a persistent queue of
//! tasks that files decisions as issues and bugs, one step at a time.

pub mod config;
pub mod error;
pub mod paging;
pub mod query;
pub mod remote;
pub mod repo_config;
pub mod seqs;
pub mod state;
pub mod text;
pub mod text_map;
pub mod util;
