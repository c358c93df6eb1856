//! Verified core of a small assistant that stages changes, writes a commit
//! message for them, and pushes the result.
//!
//! The library holds every decision the assistant makes: how the message is
//! produced from the staged diff (prompt construction, the request sent to a
//! remote text-generation endpoint, the fallbacks when anything in that chain
//! fails), how the current branch name is resolved, and how the
//! stage/commit/push workflow advances and halts. The process launches, the
//! environment reads and the network exchange itself live outside the
//! library; they hand plain values in and take plain values back.

pub mod branch;
pub mod json;
pub mod message;
pub mod text;
pub mod workflow;
