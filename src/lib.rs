//! Short-link resolution: a key-value hit redirects at once; a miss falls back
//! to the subject line of a commit patch fetched from a repository.

pub mod text;
pub mod patch;
pub mod resolve;
pub mod laws;
