//! The native execution dispatchers of the three runtimes the node can run.
//!
//! The dispatchers only name a runtime; the node binds each one to the
//! runtime's native code.

use vstd::prelude::*;

verus! {

/// Native execution dispatcher of the Mandala runtime.
#[derive(Clone, Copy, Debug, PartialEq, Eq, Structural)]
pub struct MandalaExecutorDispatch;

/// Native execution dispatcher of the Karura runtime.
#[derive(Clone, Copy, Debug, PartialEq, Eq, Structural)]
pub struct KaruraExecutorDispatch;

/// Native execution dispatcher of the Acala runtime.
#[derive(Clone, Copy, Debug, PartialEq, Eq, Structural)]
pub struct AcalaExecutorDispatch;

} // verus!
