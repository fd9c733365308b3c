//! The trusted boundary to the underlying bytecode-execution engine.
//!
//! The engine decodes the binary module format and executes guest code;
//! both are black boxes to this runtime.  Every call into the engine goes
//! through one of the wrappers below, and everything the runtime claims
//! about loading, instantiation and invocation is conditioned on what these
//! wrappers hand back.

use vstd::prelude::*;
use crate::dispatcher::{dispatch_i32, Dispatcher};
use crate::module::{
    exports_of, imports_of, loadable, ExportDeclaration, ImportDeclaration, LoadedModule,
};
use crate::signature::FunctionSignature;
use crate::values::{Value, ValueKind};

verus! {

#[verifier::external_type_specification]
#[verifier::external_body]
pub struct ExEngine(wasmi::Engine);

#[verifier::external_type_specification]
#[verifier::external_body]
pub struct ExModule(wasmi::Module);

#[verifier::external_type_specification]
#[verifier::external_body]
#[verifier::reject_recursive_types(T)]
pub struct ExStore<T>(wasmi::Store<T>);

#[verifier::external_type_specification]
#[verifier::external_body]
pub struct ExInstance(wasmi::Instance);

#[verifier::external_type_specification]
#[verifier::external_body]
pub struct ExFuncType(wasmi::FuncType);

/// One instantiated guest module inside the engine: the engine's instance
/// handle together with the store that owns its state and the dispatcher.
pub struct EngineSession {
    pub(crate) store: wasmi::Store<Dispatcher>,
    pub(crate) instance: wasmi::Instance,
}

/// One import binding handed to the engine: the namespace and name the
/// guest declared, and the dispatch-table index resolution assigned to it.
pub struct Binding {
    pub namespace: String,
    pub name: String,
    pub index: usize,
}

/// Relies on wasmi::Engine::default and wasmi::Module::new: decodes and
/// validates a binary module, erring — never panicking — on a buffer that
/// is not well-formed, then reads its declarations through the two helpers
/// below.  Under the default engine configuration every step is a function
/// of the bytes alone, so the outcome carries the names `loadable`,
/// `imports_of` and `exports_of`.
#[verifier::external_body]
pub(crate) fn engine_decode(bytes: &Vec<u8>) -> (r: Result<LoadedModule, String>)
    ensures
        (r is Ok) <==> loadable(bytes@),
        r matches Ok(m) ==> m.imports@ == imports_of(bytes@) && m.exports@ == exports_of(bytes@),
{
    let engine = wasmi::Engine::default();
    let compiled = wasmi::Module::new(&engine, bytes.as_slice()).map_err(|e| e.to_string())?;
    let imports = module_import_decls(&compiled)?;
    let exports = module_export_decls(&compiled)?;
    Ok(LoadedModule { engine, compiled, imports, exports })
}

/// Relies on wasmi::FuncType::params and wasmi::FuncType::results: the
/// parameter and result types of a function type.  Only the 32-bit integer
/// kind crosses this runtime's boundary; any other type is refused.
#[verifier::external_body]
pub(crate) fn sig_of_func_type(ft: &wasmi::FuncType) -> (r: Result<FunctionSignature, String>) {
    let mut params: Vec<ValueKind> = Vec::new();
    for p in ft.params() {
        match p {
            wasmi::ValType::I32 => params.push(ValueKind::I32),
            _ => return Err("unsupported parameter type".to_string()),
        }
    }
    let ret = match ft.results() {
        [] => None,
        [wasmi::ValType::I32] => Some(ValueKind::I32),
        _ => return Err("unsupported result type".to_string()),
    };
    Ok(FunctionSignature { params, ret })
}

/// Relies on wasmi::Module::imports: one declaration per declared import,
/// in the module's own order.  A non-function import is refused.
#[verifier::external_body]
pub(crate) fn module_import_decls(m: &wasmi::Module) -> (r: Result<Vec<ImportDeclaration>, String>) {
    let mut out: Vec<ImportDeclaration> = Vec::new();
    for imp in m.imports() {
        let ft = imp.ty().func().ok_or("unsupported import kind".to_string())?.clone();
        let signature = sig_of_func_type(&ft)?;
        let (namespace, name) = (imp.module().to_string(), imp.name().to_string());
        out.push(ImportDeclaration { namespace, name, signature });
    }
    Ok(out)
}

/// Relies on wasmi::Module::exports: one declaration per declared export,
/// in the engine's enumeration order — sorted by name, since the engine
/// keeps exports in an ordered map — and numbered by position in that
/// order.  A non-function export is refused.
#[verifier::external_body]
pub(crate) fn module_export_decls(m: &wasmi::Module) -> (r: Result<Vec<ExportDeclaration>, String>) {
    let mut out: Vec<ExportDeclaration> = Vec::new();
    for (internal_index, exp) in m.exports().enumerate() {
        let ft = exp.ty().func().ok_or("unsupported export kind".to_string())?.clone();
        let signature = sig_of_func_type(&ft)?;
        out.push(ExportDeclaration { name: exp.name().to_string(), signature, internal_index });
    }
    Ok(out)
}

/// Relies on wasmi::Store::new, wasmi::Linker::new, wasmi::Linker::func_wrap
/// and wasmi::Linker::instantiate_and_start: builds a store owning the
/// dispatcher, registers under each binding's namespace and name a host
/// function that forwards to the dispatcher at the binding's index, binds
/// the module's imports and runs its start routine.  The engine refuses a
/// binding whose import the guest declared with parameters.
#[verifier::external_body]
pub(crate) fn engine_instantiate(
    module: &LoadedModule,
    bindings: &Vec<Binding>,
    dispatcher: Dispatcher,
)
    -> (r: Result<EngineSession, String>) {
    let mut store = wasmi::Store::new(&module.engine, dispatcher);
    let mut linker = wasmi::Linker::new(&module.engine);
    for b in bindings.iter() {
        let index = b.index;
        let host = move |c: wasmi::Caller<'_, Dispatcher>| -> Result<i32, wasmi::Error> {
            dispatch_i32(c.data(), index).map_err(wasmi::Error::new)
        };
        linker.func_wrap(b.namespace.as_str(), b.name.as_str(), host).map_err(|e| e.to_string())?;
    }
    let instance = linker.instantiate_and_start(&mut store, &module.compiled).map_err(|e| e.to_string())?;
    Ok(EngineSession { store, instance })
}

/// Relies on wasmi::Instance::get_func and wasmi::Func::call: looks the
/// export up in the engine and executes it with the given arguments, with
/// room for one I32 result exactly when `has_result` holds.  The engine
/// checks the arguments and the result room against the function's type and
/// fails the call on any disagreement, so a returned `Ok` carries a value
/// exactly when one was asked for.
#[verifier::external_body]
pub(crate) fn engine_invoke(
    session: &mut EngineSession,
    name: &str,
    args: &Vec<Value>,
    has_result: bool,
) -> (r: Result<Option<Value>, String>)
    ensures
        r matches Ok(o) ==> (o is Some <==> has_result),
{
    let func = session.instance.get_func(&session.store, name).ok_or("unknown engine function".to_string())?;
    let inputs: Vec<wasmi::Val> =
        args.iter().map(|v| match v { Value::I32(x) => wasmi::Val::I32(*x) }).collect();
    let mut outputs = if has_result { vec![wasmi::Val::I32(0)] } else { vec![] };
    func.call(&mut session.store, &inputs, &mut outputs).map_err(|e| e.to_string())?;
    match outputs.as_slice() {
        [] => Ok(None),
        [wasmi::Val::I32(x)] => Ok(Some(Value::I32(*x))),
        _ => Err("unsupported result type".to_string()),
    }
}

} // verus!
