//! Loading a binary module into an immutable description.

use vstd::prelude::*;
use crate::engine::engine_decode;
use crate::errors::RuntimeError;
use crate::signature::FunctionSignature;

verus! {

/// A named external function the module requires at instantiation time.
#[derive(Debug)]
pub struct ImportDeclaration {
    pub namespace: String,
    pub name: String,
    pub signature: FunctionSignature,
}

/// A named function the module makes callable by its host.
#[derive(Debug)]
pub struct ExportDeclaration {
    pub name: String,
    pub signature: FunctionSignature,
    pub internal_index: usize,
}

/// The byte buffer decodes to a well-formed module under the engine's
/// default configuration, carrying only the value kinds this runtime's
/// boundary supports.  A function of the bytes alone.
pub uninterp spec fn loadable(bytes: Seq<u8>) -> bool;

/// The import declarations the engine reads from a loadable buffer, in the
/// module's declaration order.  A function of the bytes alone.
pub uninterp spec fn imports_of(bytes: Seq<u8>) -> Seq<ImportDeclaration>;

/// The export declarations the engine reads from a loadable buffer, in the
/// engine's enumeration order (sorted by name), numbered by position.  A
/// function of the bytes alone.
pub uninterp spec fn exports_of(bytes: Seq<u8>) -> Seq<ExportDeclaration>;

/// An immutable decoded description of a compiled bytecode module: its
/// declared imports and exports, together with the engine's compiled form
/// that instantiation later binds.  Never mutated after loading.
pub struct LoadedModule {
    pub engine: wasmi::Engine,
    pub compiled: wasmi::Module,
    pub imports: Vec<ImportDeclaration>,
    pub exports: Vec<ExportDeclaration>,
}

/// Decodes a raw byte buffer into a module description.
///
/// Purely structural: no guest code runs.  Succeeds exactly on the buffers
/// the engine decodes within this runtime's boundary — `loadable` names
/// them — and then the description is exactly what the engine read from
/// the bytes; any other buffer fails with `LoadError`.
pub fn load(bytes: &Vec<u8>) -> (r: Result<LoadedModule, RuntimeError>)
    ensures
        (r is Ok) <==> loadable(bytes@),
        r matches Ok(m) ==> m.imports@ == imports_of(bytes@) && m.exports@ == exports_of(bytes@),
        r matches Err(e) ==> e is LoadError,
{
    match engine_decode(bytes) {
        Ok(m) => Ok(m),
        Err(msg) => Err(RuntimeError::LoadError(msg)),
    }
}

} // verus!
