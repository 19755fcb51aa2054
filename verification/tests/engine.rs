use llvm_engine::execution_engine::link_in_interpreter;
use llvm_engine::execution_engine::link_in_mcjit;
use llvm_engine::execution_engine::symbol_name_ok;
use llvm_engine::execution_engine::symbol_resolved;
use llvm_engine::Backends;
use llvm_engine::CreationOutcome;
use llvm_engine::EngineKind;
use llvm_engine::ExecutionEngine;
use llvm_engine::GenericValue;
use llvm_engine::Module;

fn linked_backends() -> Backends {
    let mut b = Backends::new();
    link_in_mcjit(&mut b);
    link_in_interpreter(&mut b);
    b
}

#[test]
fn module_round_trip() {
    let m = Module::from_ref(7);
    assert_eq!(m.to_ref(), 7);
    assert!(m.is_owned());
    assert_eq!(m.release(), Some(7));
}

#[test]
fn disowned_module_releases_nothing() {
    let mut m = Module::from_ref(7);
    m.unown();
    assert_eq!(m.to_ref(), 7);
    assert!(!m.is_owned());
    assert_eq!(m.release(), None);
}

#[test]
fn generic_constructor_failure_returns_error() {
    let b = linked_backends();
    let m = Module::from_ref(7);
    let outcome = CreationOutcome::Failed { message: String::from("invalid module") };
    let r = ExecutionEngine::new(m, outcome, &b);
    let err = r.err().expect("construction must fail on a failed outcome");
    assert_eq!(err.message, "invalid module");
    assert!(err.module.is_owned());
    assert_eq!(err.module.to_ref(), 7);
    assert_eq!(err.module.release(), Some(7));
}

#[test]
fn interpreter_constructor_failure_returns_error() {
    let b = linked_backends();
    let m = Module::from_ref(11);
    let outcome = CreationOutcome::Failed { message: String::from("empty module") };
    let r = ExecutionEngine::new_interpreter(m, outcome, &b);
    let err = r.err().expect("construction must fail on a failed outcome");
    assert_eq!(err.message, "empty module");
    assert!(err.module.is_owned());
    assert_eq!(err.module.to_ref(), 11);
}

#[test]
fn jit_constructor_failure_returns_error() {
    let b = linked_backends();
    let m = Module::from_ref(13);
    let outcome = CreationOutcome::Failed { message: String::from("no target") };
    let r = ExecutionEngine::new_jit_compiler(m, 3, outcome, &b);
    let err = r.err().expect("construction must fail on a failed outcome");
    assert_eq!(err.message, "no target");
    assert!(err.module.is_owned());
    assert_eq!(err.module.to_ref(), 13);
}

#[test]
fn successful_construction_takes_module_ownership() {
    let b = linked_backends();
    let m = Module::from_ref(7);
    let outcome = CreationOutcome::Created { engine: 9 };
    let e = ExecutionEngine::new(m, outcome, &b).ok().expect("construction must succeed");
    assert_eq!(e.to_ref(), 9);
    assert_eq!(e.kind(), EngineKind::Generic);
    assert_eq!(e.modules().as_slice(), &[7]);
    let (engine, modules) = e.dispose();
    assert_eq!(engine, 9);
    assert_eq!(modules, vec![7]);
}

#[test]
fn interpreter_constructor_records_kind() {
    let b = linked_backends();
    let m = Module::from_ref(21);
    let outcome = CreationOutcome::Created { engine: 22 };
    let e = ExecutionEngine::new_interpreter(m, outcome, &b).ok().expect("must succeed");
    assert_eq!(e.kind(), EngineKind::Interpreter);
    assert_eq!(e.to_ref(), 22);
}

#[test]
fn jit_constructor_records_kind_and_level() {
    let b = linked_backends();
    let m = Module::from_ref(31);
    let outcome = CreationOutcome::Created { engine: 32 };
    let e = ExecutionEngine::new_jit_compiler(m, 2, outcome, &b).ok().expect("must succeed");
    assert_eq!(e.kind(), EngineKind::JitCompiler { opt_level: 2 });
}

#[test]
fn static_constructor_runs_leave_state_untouched() {
    let b = linked_backends();
    let m = Module::from_ref(7);
    let outcome = CreationOutcome::Created { engine: 9 };
    let mut e = ExecutionEngine::new(m, outcome, &b).ok().expect("must succeed");
    assert_eq!(e.run_static_constructors(), 9);
    assert_eq!(e.run_static_constructors(), 9);
    assert_eq!(e.run_static_destructors(), 9);
    assert_eq!(e.run_static_destructors(), 9);
    assert_eq!(e.modules().as_slice(), &[7]);
    let (engine, modules) = e.dispose();
    assert_eq!(engine, 9);
    assert_eq!(modules, vec![7]);
}

#[test]
fn run_function_wraps_native_result() {
    let b = linked_backends();
    let m = Module::from_ref(7);
    let outcome = CreationOutcome::Created { engine: 9 };
    let mut e = ExecutionEngine::new(m, outcome, &b).ok().expect("must succeed");
    let args: Vec<u64> = vec![101, 102];
    let g = e.run_function(55, &args, 77);
    assert_eq!(g.to_ref(), 77);
    assert_eq!(g.dispose(), 77);
    assert_eq!(e.modules().as_slice(), &[7]);
}

#[test]
fn generic_value_round_trip() {
    let g = GenericValue::from_ref(123);
    assert_eq!(g.to_ref(), 123);
    assert_eq!(g.dispose(), 123);
}

#[test]
fn added_module_is_owned_by_engine() {
    let b = linked_backends();
    let m = Module::from_ref(7);
    let outcome = CreationOutcome::Created { engine: 9 };
    let mut e = ExecutionEngine::new(m, outcome, &b).ok().expect("must succeed");
    e.add_module(Module::from_ref(8));
    assert_eq!(e.modules().as_slice(), &[7, 8]);
    let addr = e.get_function_address("only_in_added_module", 0x1000);
    assert_eq!(addr, 0x1000);
    assert!(symbol_resolved(addr));
    let (engine, modules) = e.dispose();
    assert_eq!(engine, 9);
    assert_eq!(modules, vec![7, 8]);
}

#[test]
fn unresolved_symbol_reports_zero_sentinel() {
    let b = linked_backends();
    let m = Module::from_ref(7);
    let outcome = CreationOutcome::Created { engine: 9 };
    let e = ExecutionEngine::new(m, outcome, &b).ok().expect("must succeed");
    let addr = e.get_function_address("no_such_symbol", 0);
    assert_eq!(addr, 0);
    assert!(!symbol_resolved(0));
    assert!(symbol_resolved(0x4000));
}

#[test]
fn symbol_names_must_be_nul_free() {
    assert!(symbol_name_ok("main"));
    assert!(symbol_name_ok(""));
    assert!(!symbol_name_ok("bad\0name"));
    assert!(!symbol_name_ok("\0"));
}

#[test]
fn backend_linking_is_recorded_and_idempotent() {
    let mut b = Backends::new();
    assert!(!b.mcjit_linked());
    assert!(!b.interpreter_linked());
    link_in_mcjit(&mut b);
    assert!(b.mcjit_linked());
    assert!(!b.interpreter_linked());
    link_in_mcjit(&mut b);
    assert!(b.mcjit_linked());
    link_in_interpreter(&mut b);
    assert!(b.mcjit_linked());
    assert!(b.interpreter_linked());
}
