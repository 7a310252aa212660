use wasm_bridge::dispatch::{call_dyn_func, coerce_arguments, finish_call, DispatchError};
use wasm_bridge::exports::{ExportEntry, ExportImportKind, ExportedFunctions};
use wasm_bridge::function::{host_return_to_results, CallTrap, Function};
use wasm_bridge::signature::{Annotation, FunctionSignature, SignatureError};
use wasm_bridge::value::{host_int_of, ConversionError, HostValue, TypedValue, ValueKind};

fn host_i(i: i128) -> HostValue {
    host_int_of(i < 0, i.unsigned_abs())
}

fn sig(params: Vec<ValueKind>, results: Vec<ValueKind>) -> FunctionSignature {
    FunctionSignature { params, results }
}

fn add_host(args: Vec<HostValue>) -> Result<HostValue, String> {
    match (&args[0], &args[1]) {
        (HostValue::Int { negative: false, magnitude: x }, HostValue::Int { negative: false, magnitude: y }) => {
            Ok(HostValue::Int { negative: false, magnitude: x + y })
        }
        _ => Err("unexpected arguments".to_string()),
    }
}

#[test]
fn bound_import_adds_three_and_four() {
    let f = Function::new(true, Some(sig(vec![ValueKind::I32, ValueKind::I32], vec![ValueKind::I32])), None)
        .unwrap();
    let r = f.call_from_wasm(&add_host, &vec![TypedValue::I32(3), TypedValue::I32(4)]);
    assert_eq!(r, Ok(vec![TypedValue::I32(7)]));
}

#[test]
fn import_from_annotations() {
    let anns = vec![
        Annotation { name: "x".to_string(), token: "<class 'int'>".to_string() },
        Annotation { name: "y".to_string(), token: "<class 'int'>".to_string() },
        Annotation { name: "return".to_string(), token: "<class 'int'>".to_string() },
    ];
    let f = Function::new(true, None, Some(&anns)).unwrap();
    assert_eq!(f.ty(), &sig(vec![ValueKind::I32, ValueKind::I32], vec![ValueKind::I32]));
    assert!(matches!(Function::new(true, None, None), Err(SignatureError::MissingSignature)));
}

#[test]
fn missing_arguments_carry_both_counts() {
    let table = vec![ExportEntry {
        name: "sum".to_string(),
        signature: sig(vec![ValueKind::I32, ValueKind::I32], vec![ValueKind::I32]),
    }];
    let exports = ExportedFunctions::new(vec!["sum".to_string()]);
    let sum = exports.getattr("sum".to_string()).unwrap();
    let run = |_: usize, _: Vec<TypedValue>| -> Result<Vec<TypedValue>, String> { panic!("must not run") };
    assert_eq!(
        sum.call(&table, &run, &vec![host_i(1)]),
        Err(DispatchError::MissingArguments { expected: 2, got: 1 })
    );
    assert_eq!(
        sum.call(&table, &run, &vec![host_i(1), host_i(2), host_i(3)]),
        Err(DispatchError::ExtraArguments { expected: 2, got: 3 })
    );
}

#[test]
fn export_call_runs_and_returns_a_single_value() {
    let table = vec![
        ExportEntry { name: "nop".to_string(), signature: sig(vec![], vec![]) },
        ExportEntry {
            name: "sum".to_string(),
            signature: sig(vec![ValueKind::I32, ValueKind::I32], vec![ValueKind::I32]),
        },
    ];
    let exports = ExportedFunctions::new(vec!["nop".to_string(), "sum".to_string()]);
    let sum = exports.getattr("sum".to_string()).unwrap();
    assert_eq!(sum.move_runtime_func_obj(&table), Ok(1));
    let run = |i: usize, a: Vec<TypedValue>| -> Result<Vec<TypedValue>, String> {
        assert_eq!(i, 1);
        match (a[0], a[1]) {
            (TypedValue::I32(x), TypedValue::I32(y)) => Ok(vec![TypedValue::I32(x + y)]),
            _ => Err("bad".to_string()),
        }
    };
    assert_eq!(sum.call(&table, &run, &vec![host_i(1), host_i(2)]), Ok(host_i(3)));
}

#[test]
fn no_declared_results_give_no_value() {
    let s = sig(vec![], vec![]);
    let run = |_: Vec<TypedValue>| -> Result<Vec<TypedValue>, String> { Ok(vec![TypedValue::I32(42)]) };
    assert_eq!(call_dyn_func(&s, &vec![], &run), Ok(HostValue::Nothing));
}

#[test]
fn several_results_give_a_tuple_in_order() {
    let s = sig(vec![ValueKind::I64], vec![ValueKind::I64, ValueKind::I32]);
    let run = |a: Vec<TypedValue>| -> Result<Vec<TypedValue>, String> {
        Ok(vec![a[0], TypedValue::I32(-1)])
    };
    assert_eq!(
        call_dyn_func(&s, &vec![host_i(10)], &run),
        Ok(HostValue::Tuple(vec![host_i(10), host_i(-1)]))
    );
}

#[test]
fn too_few_results_from_the_machine_are_reported() {
    assert_eq!(
        finish_call(2, Ok(vec![TypedValue::I32(1)])),
        Err(DispatchError::ResultArity { expected: 2, got: 1 })
    );
}

#[test]
fn argument_type_error_names_position_and_kind() {
    let params = vec![ValueKind::I32, ValueKind::F64];
    assert_eq!(
        coerce_arguments(&params, &vec![host_i(1), host_i(2)]),
        Err(DispatchError::ArgumentType { position: 1, expected: ValueKind::F64 })
    );
}

#[test]
fn unknown_export_fails_cleanly() {
    let exports = ExportedFunctions::new(vec!["sum".to_string()]);
    assert_eq!(
        exports.getattr("mul".to_string()),
        Err(DispatchError::UnknownExport { name: "mul".to_string() })
    );
    let handle = exports.getattr("sum".to_string()).unwrap();
    assert_eq!(
        handle.move_runtime_func_obj(&vec![]),
        Err(DispatchError::UnknownExport { name: "sum".to_string() })
    );
}

#[test]
fn host_error_becomes_a_trap_then_an_execution_trap() {
    let f = Function::new(true, Some(sig(vec![ValueKind::I32], vec![ValueKind::I32])), None).unwrap();
    let failing = |_: Vec<HostValue>| -> Result<HostValue, String> { Err("boom".to_string()) };
    assert_eq!(
        f.call_from_wasm(&failing, &vec![TypedValue::I32(1)]),
        Err(CallTrap::HostError { message: "boom".to_string() })
    );
    let outer = sig(vec![ValueKind::I32], vec![ValueKind::I32]);
    let run = |a: Vec<TypedValue>| -> Result<Vec<TypedValue>, String> {
        match f.call_from_wasm(&failing, &a) {
            Ok(v) => Ok(v),
            Err(CallTrap::HostError { message }) => Err(message),
            Err(_) => Err("trap".to_string()),
        }
    };
    assert_eq!(
        call_dyn_func(&outer, &vec![host_i(5)], &run),
        Err(DispatchError::ExecutionTrap { message: "boom".to_string() })
    );
}

#[test]
fn host_returns_are_checked_against_result_kinds() {
    let one = vec![ValueKind::I32];
    let two = vec![ValueKind::I32, ValueKind::I64];
    assert_eq!(host_return_to_results(&vec![], Ok(host_i(3))), Ok(vec![]));
    assert_eq!(
        host_return_to_results(&one, Ok(HostValue::Nothing)),
        Err(CallTrap::ResultArity { expected: 1, got: 0 })
    );
    assert_eq!(
        host_return_to_results(&two, Ok(HostValue::Tuple(vec![host_i(1), host_i(2)]))),
        Ok(vec![TypedValue::I32(1), TypedValue::I64(2)])
    );
    assert_eq!(
        host_return_to_results(&two, Ok(HostValue::Tuple(vec![host_i(1)]))),
        Err(CallTrap::ResultArity { expected: 2, got: 1 })
    );
    assert_eq!(
        host_return_to_results(&two, Ok(host_i(1))),
        Err(CallTrap::ResultArity { expected: 2, got: 1 })
    );
    assert_eq!(
        host_return_to_results(&one, Ok(HostValue::Other)),
        Err(CallTrap::Conversion {
            position: 0,
            error: ConversionError::TypeMismatch { expected: ValueKind::I32 }
        })
    );
}

#[test]
fn export_kinds_in_order() {
    let kinds = ExportImportKind::iter();
    let names: Vec<&str> = kinds.iter().map(|k| k.name()).collect();
    assert_eq!(names, vec!["FUNCTION", "MEMORY", "GLOBAL", "TABLE"]);
    let codes: Vec<u8> = kinds.iter().map(|k| k.code()).collect();
    assert_eq!(codes, vec![1, 2, 3, 4]);
}

#[test]
fn raw_function_keeps_its_signature() {
    let s = sig(vec![ValueKind::V128], vec![ValueKind::F32]);
    assert_eq!(Function::raw_new(s.clone()).ty(), &s);
}

#[test]
fn introspection_text() {
    let table = vec![ExportEntry {
        name: "sum".to_string(),
        signature: sig(vec![ValueKind::I32, ValueKind::F64], vec![ValueKind::I64]),
    }];
    let exports = ExportedFunctions::new(vec!["sum".to_string()]);
    let sum = exports.getattr("sum".to_string()).unwrap();
    assert_eq!(sum.signature(&table), Ok("sum: FuncSig { params: [I32, F64], returns: [I64] }".to_string()));
    assert_eq!(sum.params(&table), Ok("sum: [I32, F64]".to_string()));
    assert_eq!(
        sum.params(&vec![]),
        Err(DispatchError::UnknownExport { name: "sum".to_string() })
    );
    let nop = vec![ExportEntry { name: "sum".to_string(), signature: sig(vec![], vec![]) }];
    assert_eq!(sum.signature(&nop), Ok("sum: FuncSig { params: [], returns: [] }".to_string()));
}

#[test]
fn function_called_from_the_host() {
    let f = Function::new(true, Some(sig(vec![ValueKind::I64], vec![ValueKind::I64])), None).unwrap();
    let run = |a: Vec<TypedValue>| -> Result<Vec<TypedValue>, String> {
        match a[0] {
            TypedValue::I64(x) => Ok(vec![TypedValue::I64(x * 2)]),
            _ => Err("bad".to_string()),
        }
    };
    assert_eq!(f.call(&run, &vec![host_i(-21)]), Ok(host_i(-42)));
    assert_eq!(
        f.call(&run, &vec![]),
        Err(DispatchError::MissingArguments { expected: 1, got: 0 })
    );
}

#[test]
fn pretagged_argument_reaches_the_machine_as_it_is() {
    let s = sig(vec![ValueKind::I32, ValueKind::I32], vec![ValueKind::I32]);
    let run = |a: Vec<TypedValue>| -> Result<Vec<TypedValue>, String> {
        assert_eq!(a, vec![TypedValue::I64(5), TypedValue::I32(2)]);
        Err("type mismatch".to_string())
    };
    assert_eq!(
        call_dyn_func(&s, &vec![HostValue::Typed(TypedValue::I64(5)), host_i(2)], &run),
        Err(DispatchError::ExecutionTrap { message: "type mismatch".to_string() })
    );
}

#[test]
fn pretagged_result_of_another_kind_traps() {
    assert_eq!(
        host_return_to_results(&vec![ValueKind::I32], Ok(HostValue::Typed(TypedValue::F64(0)))),
        Err(CallTrap::Conversion {
            position: 0,
            error: ConversionError::TypeMismatch { expected: ValueKind::I32 }
        })
    );
}
