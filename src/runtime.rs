//! The runtime that drives connections on tokio. Its socket and task
//! operations are asynchronous I/O and are provided outside the library.

use vstd::prelude::*;

verus! {

/// A handle to the tokio runtime. Copies are handles to the same runtime.
#[derive(Clone, Copy, Debug, Default)]
pub struct TokioRuntime;

} // verus!
