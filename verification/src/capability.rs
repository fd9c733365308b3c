//! Host capabilities: native functions offered under a namespace.

use vstd::prelude::*;
use crate::signature::FunctionSignature;

verus! {

/// A native implementation a capability binds to.
///
/// `FixedYear` answers with the given year on every call and has no external
/// dependence; `WallClockYear` reads the ambient wall clock, so its answer
/// may differ between calls.
#[derive(Clone, Copy, PartialEq, Eq, Structural, Debug)]
pub enum HostImpl {
    FixedYear(i32),
    WallClockYear,
}

/// One function a provider offers: a name, a declared signature and the
/// native implementation behind them.
#[derive(Debug)]
pub struct CapabilityFunc {
    pub name: String,
    pub signature: FunctionSignature,
    pub host_impl: HostImpl,
}

/// Zero or more native functions offered under one namespace.
#[derive(Debug)]
pub struct CapabilityProvider {
    pub namespace: String,
    pub funcs: Vec<CapabilityFunc>,
}

} // verus!
