//! The runtime's error taxonomy.
//!
//! Every failure is surfaced to the immediate caller as a typed value; the
//! runtime performs no retries and no recovery.

use vstd::prelude::*;
use crate::signature::FunctionSignature;

verus! {

/// A typed failure of loading, resolution, instantiation or invocation.
#[derive(Debug)]
pub enum RuntimeError {
    /// The byte buffer is not a well-formed module, or uses a feature the
    /// runtime does not support.
    LoadError(String),
    /// No registered capability offers the requested namespace and name.
    UnresolvedImportError { namespace: String, name: String },
    /// A capability was found under the requested namespace and name, but its
    /// signature differs from the one the import requires.
    SignatureMismatchError { expected: FunctionSignature, found: FunctionSignature },
    /// Import binding or the start routine failed during instantiation.
    InstantiationError(String),
    /// The dispatcher was invoked at an index it does not recognize: the
    /// resolver's and the dispatcher's numbering diverged, a wiring bug.
    DispatchIntegrityError { index: usize },
    /// The instance has no export under the requested name.
    UnknownExportError { name: String },
    /// The supplied arguments do not fit the export's declared signature.
    ArgumentMismatchError { name: String },
    /// A runtime fault during guest or host execution.
    ExecutionTrap(String),
}

} // verus!
