//! Adapting an asynchronous DNS lookup to an HTTP client's resolution
//! interface.
//!
//! A resolver answers a name with an ordered list of network addresses; an
//! HTTP client wants an ordered list of socket endpoints, each address paired
//! with a placeholder port of zero (the real port is attached later by the
//! connection layer). This crate holds that translation, with its contracts:
//! the order of the addresses is preserved, every endpoint carries port zero,
//! and a failed lookup's error is surfaced unchanged. The asynchronous shells
//! that drive the lookup itself sit outside, around this library.

use vstd::prelude::*;

pub mod addr;
pub mod adapter;

verus! {

} // verus!
