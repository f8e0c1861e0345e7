//! A bridge that lets a multi-threaded build pipeline call plugin hooks that
//! live in an external, single-threaded host runtime.
//!
//! The pipeline sees an ordinary plugin: a name and three optional hooks
//! (`resolve_id`, `load`, `transform`). Each hook, when bound, forwards its
//! arguments to an externally supplied function that may only run on the
//! host's designated thread, waits for the host's reply, and translates the
//! reply — present result, absent result, or failure — back into the
//! pipeline's types.
//!
//! The host call itself is performed by the embedder; this crate holds the
//! verified halves around it: the [`adapter`] decides whether a hook call is
//! made and what to return for every possible host reply, the [`codec`]
//! converts losslessly between pipeline records and host-transmissible value
//! shapes, the [`errors`] module translates failures without losing the
//! plugin's identity or the failing hook, and the [`dispatch`] module models
//! the one-at-a-time scheduling that keeps concurrent calls from mixing
//! their results.

pub mod adapter;
pub mod codec;
pub mod dispatch;
pub mod errors;
pub mod handle;
pub mod hooks;
