//! A memory-safe ownership and capability-typing layer over the opaque
//! handles of a native depth-sensing SDK.
//!
//! The native SDK hands out raw resource pointers, reports failures through
//! an error out-parameter, and requires each resource to be deleted exactly
//! once.  This crate wraps that convention:
//!
//! - [`error`] turns an error out-parameter into a checked `Result`;
//! - [`native`] is an instrumented in-memory model of the native layer,
//!   against which every handle operation is verified (it counts delete
//!   calls, answers extendability queries, and can have an error injected);
//! - [`sensor`] is the single-owner sensor handle with its typestate
//!   capability tags and the ordered narrowing into a closed variant;
//! - [`processing_block_list`] is the owning list handle and its one-shot
//!   consuming iterator.

pub mod device;
pub mod error;
pub mod kind;
pub mod native;
pub mod processing_block;
pub mod processing_block_list;
pub mod sensor;
pub mod stream_profile_list;
