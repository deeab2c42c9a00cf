//! Reconciles the tags of a personal archive server with an external
//! catalog: title extraction, candidate parsing and ranking, tag translation,
//! merging, retry decisions and the unresolved-item ledger.
pub mod archive;
pub mod args;
pub mod eh;
pub mod reconcile;
pub mod retry;
pub mod tag;
pub mod text;
pub mod title;
pub mod unhandle;

mod html;
mod json;
