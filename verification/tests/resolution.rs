// Resolution and dispatch behaviour on plain capability tables, without a
// guest module.

use wasm_runner::capability::{CapabilityFunc, CapabilityProvider, HostImpl};
use wasm_runner::dispatcher::Dispatcher;
use wasm_runner::errors::RuntimeError;
use wasm_runner::leap::{is_it_leap_year_now, is_leap_year};
use wasm_runner::resolver::ImportResolver;
use wasm_runner::signature::FunctionSignature;
use wasm_runner::values::{Value, ValueKind};

fn sig_unit_to_i32() -> FunctionSignature {
    FunctionSignature { params: Vec::new(), ret: Some(ValueKind::I32) }
}

fn provider(namespace: &str, names: &[&str]) -> CapabilityProvider {
    CapabilityProvider {
        namespace: namespace.to_string(),
        funcs: names
            .iter()
            .map(|n| CapabilityFunc {
                name: n.to_string(),
                signature: sig_unit_to_i32(),
                host_impl: HostImpl::FixedYear(2022),
            })
            .collect(),
    }
}

#[test]
fn resolution_assigns_indices_in_registration_order() {
    let mut resolver = ImportResolver::new();
    resolver.register_provider(&provider("time-provider", &["get_current_year", "other"]));
    resolver.register_provider(&provider("math", &["third"]));
    let sig = sig_unit_to_i32();
    let h0 = resolver.resolve("time-provider", "get_current_year", &sig).unwrap();
    let h1 = resolver.resolve("time-provider", "other", &sig).unwrap();
    let h2 = resolver.resolve("math", "third", &sig).unwrap();
    assert_eq!(h0.index, 0);
    assert_eq!(h1.index, 1);
    assert_eq!(h2.index, 2);
}

#[test]
fn resolution_is_deterministic_across_repeated_calls() {
    let mut resolver = ImportResolver::new();
    resolver.register_provider(&provider("time-provider", &["get_current_year"]));
    let sig = sig_unit_to_i32();
    let first = resolver.resolve("time-provider", "get_current_year", &sig).unwrap();
    let second = resolver.resolve("time-provider", "get_current_year", &sig).unwrap();
    assert_eq!(first.index, second.index);
}

#[test]
fn resolution_fails_on_unknown_name() {
    let mut resolver = ImportResolver::new();
    resolver.register_provider(&provider("time-provider", &["get_current_year"]));
    let sig = sig_unit_to_i32();
    let result = resolver.resolve("time-provider", "no_such_capability", &sig);
    assert!(matches!(result, Err(RuntimeError::UnresolvedImportError { .. })));
    let result = resolver.resolve("no-such-namespace", "get_current_year", &sig);
    assert!(matches!(result, Err(RuntimeError::UnresolvedImportError { .. })));
}

#[test]
fn resolution_fails_on_differing_signature() {
    let mut resolver = ImportResolver::new();
    resolver.register_provider(&provider("time-provider", &["get_current_year"]));
    let wanted = FunctionSignature { params: vec![ValueKind::I32], ret: None };
    let result = resolver.resolve("time-provider", "get_current_year", &wanted);
    assert!(matches!(result, Err(RuntimeError::SignatureMismatchError { .. })));
}

#[test]
fn dispatch_at_resolved_index_succeeds() {
    let mut resolver = ImportResolver::new();
    resolver.register_provider(&provider("time-provider", &["get_current_year"]));
    let dispatcher = Dispatcher::from_resolver(&resolver);
    let sig = sig_unit_to_i32();
    let handle = resolver.resolve("time-provider", "get_current_year", &sig).unwrap();
    let result = dispatcher.invoke(handle.index, &Vec::new());
    assert!(matches!(result, Ok(Some(Value::I32(2022)))));
}

#[test]
fn dispatch_at_unknown_index_fails_loudly() {
    let mut resolver = ImportResolver::new();
    resolver.register_provider(&provider("time-provider", &["get_current_year"]));
    let dispatcher = Dispatcher::from_resolver(&resolver);
    let result = dispatcher.invoke(5, &Vec::new());
    match result {
        Err(RuntimeError::DispatchIntegrityError { index }) => assert_eq!(index, 5),
        other => panic!("expected a dispatch integrity failure, got {:?}", other),
    }
}

#[test]
fn fixed_year_dispatch_is_deterministic() {
    let mut resolver = ImportResolver::new();
    resolver.register_provider(&provider("time-provider", &["get_current_year"]));
    let dispatcher = Dispatcher::from_resolver(&resolver);
    let first = dispatcher.invoke(0, &Vec::new()).unwrap();
    let second = dispatcher.invoke(0, &Vec::new()).unwrap();
    assert_eq!(first, second);
}

#[test]
fn signature_equality_is_exact() {
    let a = FunctionSignature { params: vec![ValueKind::I32], ret: Some(ValueKind::I32) };
    let b = FunctionSignature { params: vec![ValueKind::I32], ret: Some(ValueKind::I32) };
    let c = FunctionSignature { params: Vec::new(), ret: Some(ValueKind::I32) };
    let d = FunctionSignature { params: vec![ValueKind::I32], ret: None };
    assert!(a.matches(&b));
    assert!(!a.matches(&c));
    assert!(!a.matches(&d));
}

#[test]
fn test_current_year() {
    let mut resolver = ImportResolver::new();
    resolver.register_provider(&provider("time-provider", &["get_current_year"]));
    let dispatcher = Dispatcher::from_resolver(&resolver);
    let sig = sig_unit_to_i32();
    let handle = resolver.resolve("time-provider", "get_current_year", &sig).unwrap();
    match dispatcher.invoke(handle.index, &Vec::new()) {
        Ok(Some(Value::I32(year))) => assert_eq!(year, 2022),
        other => panic!("expected the fixed year, got {:?}", other),
    }
}

#[test]
fn host_side_leap_year_concrete_values() {
    assert_eq!(is_leap_year(2000), 1);
    assert_eq!(is_leap_year(1900), 0);
    assert_eq!(is_leap_year(2022), 0);
    assert_eq!(is_leap_year(2024), 1);
    assert_eq!(is_leap_year(2400), 1);
    assert_eq!(is_leap_year(2100), 0);
}

#[test]
fn host_side_leap_year_now_follows_the_convention() {
    match is_it_leap_year_now() {
        Ok(flag) => assert!(flag == 0 || flag == 1),
        Err(e) => panic!("the wall clock should be readable here, got {:?}", e),
    }
}
