//! Instantiation and typed export invocation.
//!
//! Instantiation binds every declared import of a loaded module to a
//! resolved handle and runs the optional start routine; it produces an
//! instance only on full success.  Export invocation looks an exported
//! function up by name, validates the caller's arguments against the
//! export's declared signature, executes it, and returns a typed result.

use vstd::prelude::*;
use crate::dispatcher::Dispatcher;
use crate::engine::{engine_instantiate, engine_invoke, Binding, EngineSession};
use crate::errors::RuntimeError;
use crate::module::{ExportDeclaration, ImportDeclaration, LoadedModule};
use crate::resolver::{has_match, is_first_match, CapabilityEntry, FunctionHandle, ImportResolver};
use crate::signature::FunctionSignature;
use crate::values::Value;

verus! {

/// The import resolves against the registered entries: a first match exists
/// under its namespace and name, carrying the signature it requires.
pub open spec fn import_resolves(entries: Seq<CapabilityEntry>, imp: ImportDeclaration) -> bool {
    exists|k: int|
        #[trigger] is_first_match(entries, imp.namespace@, imp.name@, k) && entries[k].signature.spec_eq(
            imp.signature,
        )
}

/// Every declared import resolves.
pub open spec fn all_imports_resolve(
    entries: Seq<CapabilityEntry>,
    imports: Seq<ImportDeclaration>,
) -> bool {
    forall|i: int| 0 <= i < imports.len() ==> import_resolves(entries, #[trigger] imports[i])
}

/// The import finds a first match whose signature differs from the one it
/// requires; `ex` and `fd` are the two signatures the failure names.
pub open spec fn mismatch_for_import(
    entries: Seq<CapabilityEntry>,
    imp: ImportDeclaration,
    ex: FunctionSignature,
    fd: FunctionSignature,
) -> bool {
    &&& exists|k: int|
        #[trigger] is_first_match(entries, imp.namespace@, imp.name@, k)
            && !entries[k].signature.spec_eq(imp.signature) && fd.spec_eq(entries[k].signature)
    &&& ex.spec_eq(imp.signature)
}

/// The export declaration carries the requested name.
pub open spec fn export_matches(e: ExportDeclaration, nm: Seq<char>) -> bool {
    e.name@ == nm
}

/// Some export carries the requested name.
pub open spec fn has_export(exports: Seq<ExportDeclaration>, nm: Seq<char>) -> bool {
    exists|k: int| 0 <= k < exports.len() && export_matches(exports[k], nm)
}

/// `k` is the position of the first export carrying the requested name.
pub open spec fn is_first_export(exports: Seq<ExportDeclaration>, nm: Seq<char>, k: int) -> bool {
    &&& 0 <= k < exports.len()
    &&& export_matches(exports[k], nm)
    &&& forall|j: int| 0 <= j < k ==> !export_matches(exports[j], nm)
}

/// Resolver/dispatcher consistency across a whole instantiation: every
/// handle a successful `instantiate` produced — one per declared import,
/// each carrying a first-match index into the resolver's entries — is
/// recognized by a dispatcher whose table was built from that same
/// resolver, so serving any of the instance's imports never raises
/// `DispatchIntegrityError`.
pub proof fn lemma_instance_handles_recognized(
    entries: Seq<CapabilityEntry>,
    imports: Seq<ImportDeclaration>,
    handles: Seq<FunctionHandle>,
    d: crate::dispatcher::Dispatcher,
)
    requires
        d.table@.len() == entries.len(),
        handles.len() == imports.len(),
        forall|i: int|
            0 <= i < imports.len() ==> is_first_match(
                entries,
                imports[i].namespace@,
                imports[i].name@,
                (#[trigger] handles[i]).index as int,
            ),
    ensures
        forall|i: int| 0 <= i < handles.len() ==> d.recognizes((#[trigger] handles[i]).index),
{
    assert forall|i: int| 0 <= i < handles.len() implies d.recognizes(
        (#[trigger] handles[i]).index,
    ) by {
        assert(is_first_match(
            entries,
            imports[i].namespace@,
            imports[i].name@,
            handles[i].index as int,
        ));
    }
}

/// The first export under a name is unique.
pub proof fn lemma_first_export_unique(
    exports: Seq<ExportDeclaration>,
    nm: Seq<char>,
    k1: int,
    k2: int,
)
    requires
        is_first_export(exports, nm, k1),
        is_first_export(exports, nm, k2),
    ensures
        k1 == k2,
{
    if k1 < k2 {
        assert(!export_matches(exports[k1], nm));
    }
    if k2 < k1 {
        assert(!export_matches(exports[k2], nm));
    }
}

/// The arguments fit the signature: same count, and kinds equal position by
/// position.
pub open spec fn args_fit(sig: FunctionSignature, args: Seq<Value>) -> bool {
    &&& args.len() == sig.params@.len()
    &&& forall|i: int| 0 <= i < args.len() ==> (#[trigger] args[i]).kind() == sig.params@[i]
}

/// A module bound to a concrete set of resolved handles, ready for export
/// invocation.  Exclusively owned by the caller that instantiated it.
pub struct ModuleInstance {
    pub imports: Vec<ImportDeclaration>,
    pub exports: Vec<ExportDeclaration>,
    pub handles: Vec<FunctionHandle>,
    pub session: EngineSession,
}

/// Finds the position of the first export carrying the requested name.
fn find_export(exports: &Vec<ExportDeclaration>, name: &String) -> (r: Option<usize>)
    ensures
        r matches Some(k) ==> is_first_export(exports@, name@, k as int),
        (r is None) <==> !has_export(exports@, name@),
{
    let n: usize = exports.len();
    let mut i: usize = 0;
    while i < n
        invariant
            0 <= i <= n,
            n == exports@.len(),
            forall|j: int| 0 <= j < i ==> !export_matches(exports@[j], name@),
        decreases n - i,
    {
        if exports[i].name == *name {
            return Some(i);
        }
        i += 1;
    }
    None
}

/// Binds a loaded module's declared imports against the resolver and runs
/// the optional start routine inside the engine.
///
/// Every declared import is resolved in declaration order; the first one
/// that fails aborts instantiation with that resolution failure, and no
/// instance is produced.  When every import resolves, only a fault inside
/// the engine — a failed binding or a trapping start routine — can still
/// abort, as `InstantiationError`; otherwise the instance holds one handle
/// per import, in declaration order.
pub fn instantiate(module: LoadedModule, resolver: &ImportResolver) -> (r: Result<
    ModuleInstance,
    RuntimeError,
>)
    ensures
        r matches Ok(inst) ==> {
            &&& all_imports_resolve(resolver.entries@, module.imports@)
            &&& inst.imports@ == module.imports@
            &&& inst.exports@ == module.exports@
            &&& inst.handles@.len() == module.imports@.len()
            &&& forall|i: int|
                0 <= i < module.imports@.len() ==> {
                    let h = #[trigger] inst.handles@[i];
                    &&& is_first_match(
                        resolver.entries@,
                        module.imports@[i].namespace@,
                        module.imports@[i].name@,
                        h.index as int,
                    )
                    &&& h.signature.spec_eq(module.imports@[i].signature)
                }
        },
        r matches Err(e) ==> match e {
            RuntimeError::UnresolvedImportError { namespace, name } => exists|i: int|
                0 <= i < module.imports@.len() && (#[trigger] module.imports@[i]).namespace@
                    == namespace@ && module.imports@[i].name@ == name@ && !has_match(
                    resolver.entries@,
                    namespace@,
                    name@,
                ) && (forall|j: int|
                    0 <= j < i ==> import_resolves(resolver.entries@, #[trigger] module.imports@[j])),
            RuntimeError::SignatureMismatchError { expected: ex, found: fd } => exists|i: int|
                0 <= i < module.imports@.len() && mismatch_for_import(
                    resolver.entries@,
                    #[trigger] module.imports@[i],
                    ex,
                    fd,
                ) && (forall|j: int|
                    0 <= j < i ==> import_resolves(resolver.entries@, #[trigger] module.imports@[j])),
            RuntimeError::InstantiationError(_) => all_imports_resolve(
                resolver.entries@,
                module.imports@,
            ),
            _ => false,
        },
        all_imports_resolve(resolver.entries@, module.imports@) ==> (r is Ok || (r matches Err(e)
            && e is InstantiationError)),
{
    let n: usize = module.imports.len();
    let mut handles: Vec<FunctionHandle> = Vec::new();
    let mut bindings: Vec<Binding> = Vec::new();
    let mut i: usize = 0;
    while i < n
        invariant
            0 <= i <= n,
            n == module.imports@.len(),
            handles@.len() == i,
            bindings@.len() == i,
            forall|j: int| 0 <= j < i ==> import_resolves(resolver.entries@, #[trigger] module.imports@[j]),
            forall|j: int|
                0 <= j < i ==> {
                    let h = #[trigger] handles@[j];
                    &&& is_first_match(
                        resolver.entries@,
                        module.imports@[j].namespace@,
                        module.imports@[j].name@,
                        h.index as int,
                    )
                    &&& h.signature.spec_eq(module.imports@[j].signature)
                },
            forall|j: int|
                0 <= j < i ==> {
                    let b = #[trigger] bindings@[j];
                    &&& b.namespace@ == module.imports@[j].namespace@
                    &&& b.name@ == module.imports@[j].name@
                    &&& b.index == handles@[j].index
                },
        decreases n - i,
    {
        let imp = &module.imports[i];
        match resolver.resolve(imp.namespace.as_str(), imp.name.as_str(), &imp.signature) {
            Ok(h) => {
                bindings.push(
                    Binding {
                        namespace: imp.namespace.clone(),
                        name: imp.name.clone(),
                        index: h.index,
                    },
                );
                handles.push(h);
            },
            Err(e) => {
                return Err(e);
            },
        }
        i += 1;
    }
    let dispatcher = Dispatcher::from_resolver(resolver);
    let session = match engine_instantiate(&module, &bindings, dispatcher) {
        Ok(s) => s,
        Err(msg) => return Err(RuntimeError::InstantiationError(msg)),
    };
    let LoadedModule { imports, exports, engine: _engine, compiled: _compiled } = module;
    Ok(ModuleInstance { imports, exports, handles, session })
}

impl ModuleInstance {
    /// Looks up an exported function by name, validates the arguments
    /// against its declared signature, executes it, and returns the typed
    /// result.
    ///
    /// Fails with `UnknownExportError` exactly when no export carries the
    /// name, and with `ArgumentMismatchError` exactly when one does but the
    /// arguments do not fit its signature; on either caller error nothing
    /// runs and the whole instance is unchanged.  A runtime fault during
    /// execution surfaces as `ExecutionTrap`.  A success carries a value
    /// exactly when the export declares a return kind, and the value's kind
    /// is the declared one.
    pub fn invoke_export(&mut self, name: &str, args: &Vec<Value>) -> (r: Result<
        Option<Value>,
        RuntimeError,
    >)
        ensures
            final(self).imports@ == old(self).imports@,
            final(self).exports@ == old(self).exports@,
            final(self).handles@ == old(self).handles@,
            (r matches Err(e) && (e is UnknownExportError || e is ArgumentMismatchError))
                ==> *final(self) == *old(self),
            (r matches Err(e) && e is UnknownExportError) <==> !has_export(
                old(self).exports@,
                name@,
            ),
            r matches Err(RuntimeError::UnknownExportError { name: n }) ==> n@ == name@,
            (r matches Err(e) && e is ArgumentMismatchError) <==> (exists|k: int|
                #[trigger] is_first_export(old(self).exports@, name@, k) && !args_fit(
                    old(self).exports@[k].signature,
                    args@,
                )),
            r matches Ok(o) ==> (exists|k: int|
                #[trigger] is_first_export(old(self).exports@, name@, k) && args_fit(
                    old(self).exports@[k].signature,
                    args@,
                ) && ((o is Some) <==> (old(self).exports@[k].signature.ret is Some)) && (
                o matches Some(v) ==> old(self).exports@[k].signature.ret == Some(v.kind()))),
            r matches Err(e) ==> (e is UnknownExportError || e is ArgumentMismatchError
                || e is ExecutionTrap),
    {
        let nm: String = name.to_owned();
        let idx: usize = match find_export(&self.exports, &nm) {
            Some(k) => k,
            None => {
                return Err(RuntimeError::UnknownExportError { name: nm });
            },
        };
        let n_params: usize = self.exports[idx].signature.params.len();
        if args.len() != n_params {
            proof {
                assert(!args_fit(self.exports@[idx as int].signature, args@));
            }
            return Err(RuntimeError::ArgumentMismatchError { name: nm });
        }
        let mut j: usize = 0;
        while j < n_params
            invariant
                0 <= j <= n_params,
                is_first_export(self.exports@, name@, idx as int),
                idx < self.exports@.len(),
                n_params == self.exports@[idx as int].signature.params@.len(),
                args@.len() == n_params,
                nm@ == name@,
                forall|t: int|
                    0 <= t < j ==> (#[trigger] args@[t]).kind() == self.exports@[
                        idx as int
                    ].signature.params@[t],
            decreases n_params - j,
        {
            let ak = args[j].kind_of();
            if ak != self.exports[idx].signature.params[j] {
                return Err(RuntimeError::ArgumentMismatchError { name: nm });
            }
            j += 1;
        }
        proof {
            assert(args_fit(self.exports@[idx as int].signature, args@));
        }
        proof {
            assert forall|k: int| #[trigger] is_first_export(self.exports@, name@, k) implies k
                == idx as int by {
                lemma_first_export_unique(self.exports@, name@, k, idx as int);
            }
        }
        let has_result: bool = self.exports[idx].signature.ret.is_some();
        match engine_invoke(&mut self.session, name, args, has_result) {
            Ok(o) => {
                proof {
                    assert(o is Some <==> old(self).exports@[idx as int].signature.ret is Some);
                }
                Ok(o)
            },
            Err(msg) => Err(RuntimeError::ExecutionTrap(msg)),
        }
    }
}

} // verus!
