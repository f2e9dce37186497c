//! A reference-counted shared-ownership primitive whose user-supplied
//! finalizer runs exactly once, after the last handle is released, and whose
//! payload is destroyed only after that finalizer completes.
//!
//! `cell` holds the counter discipline and the handle protocol; `trace` holds
//! the history model and the proofs that any interleaving of clones and
//! releases signals the finalizer exactly once, at the last release.

pub mod cell;
pub mod handle;
pub mod trace;
