//! Calling a WebAssembly function with host arguments: arity check, argument
//! coercion, the call, and the shape of the host result.
use crate::value::{
    coerce_all, coerce_seq, host_of, to_host_value, values_to_host, HostValue,
    TypedValue, ValueKind,
};
use crate::signature::FunctionSignature;
use vstd::prelude::*;

verus! {

/// Why a call into WebAssembly failed, as the host sees it.
#[derive(Clone, Debug, PartialEq, Eq)]
pub enum DispatchError {
    /// No exported function has this name.
    UnknownExport { name: String },
    /// Fewer arguments than parameters.
    MissingArguments { expected: usize, got: usize },
    /// More arguments than parameters.
    ExtraArguments { expected: usize, got: usize },
    /// The argument at `position` cannot become a value of kind `expected`.
    ArgumentType { position: usize, expected: ValueKind },
    /// The WebAssembly code trapped.
    ExecutionTrap { message: String },
    /// The machine produced fewer results than the function declares.
    ResultArity { expected: usize, got: usize },
}

/// The typed arguments for a function with parameter kinds `params`, or why
/// the host arguments do not fit them. An argument that the host already
/// tagged is passed on as it is, whatever its kind.
pub open spec fn coerce_args(params: Seq<ValueKind>, args: Seq<HostValue>) -> Result<
    Seq<TypedValue>,
    DispatchError,
> {
    if args.len() < params.len() {
        Err(DispatchError::MissingArguments { expected: params.len() as usize, got: args.len() as usize })
    } else if args.len() > params.len() {
        Err(DispatchError::ExtraArguments { expected: params.len() as usize, got: args.len() as usize })
    } else {
        match coerce_seq(args, params, false) {
            Ok(s) => Ok(s),
            Err((i, _)) => Err(DispatchError::ArgumentType { position: i as usize, expected: params[i as int] }),
        }
    }
}

/// `h` is the host form of the results `rs`: no value for none, the value
/// itself for one, and a tuple in declared order for more.
pub open spec fn results_match(h: HostValue, rs: Seq<TypedValue>) -> bool {
    if rs.len() == 0 {
        h is Nothing
    } else if rs.len() == 1 {
        h == host_of(rs[0])
    } else {
        &&& h is Tuple
        &&& h->Tuple_0@.len() == rs.len()
        &&& forall|i: int| 0 <= i < rs.len() ==> #[trigger] h->Tuple_0@[i] == host_of(rs[i])
    }
}

/// What a call of a function that declares `declared` results returns once
/// the machine has produced `out`: only the declared results reach the host.
pub open spec fn outcome_matches(
    declared: nat,
    out: Result<Vec<TypedValue>, String>,
    r: Result<HostValue, DispatchError>,
) -> bool {
    match out {
        Ok(rs) => if rs@.len() >= declared {
            r is Ok && results_match(r->Ok_0, rs@.take(declared as int))
        } else {
            r == Err::<HostValue, DispatchError>(
                DispatchError::ResultArity { expected: declared as usize, got: rs@.len() as usize },
            )
        },
        Err(m) => r == Err::<HostValue, DispatchError>(DispatchError::ExecutionTrap { message: m }),
    }
}

/// Checks the arity and coerces each argument to its parameter's kind.
pub fn coerce_arguments(params: &Vec<ValueKind>, args: &Vec<HostValue>) -> (r: Result<
    Vec<TypedValue>,
    DispatchError,
>)
    ensures
        match coerce_args(params@, args@) {
            Ok(s) => r is Ok && r->Ok_0@ == s,
            Err(e) => r == Err::<Vec<TypedValue>, DispatchError>(e),
        },
{
    let expected = params.len();
    let got = args.len();
    if got < expected {
        return Err(DispatchError::MissingArguments { expected, got });
    }
    if got > expected {
        return Err(DispatchError::ExtraArguments { expected, got });
    }
    match coerce_all(args, params, false) {
        Ok(v) => Ok(v),
        Err((i, _)) => Err(DispatchError::ArgumentType { position: i, expected: params[i] }),
    }
}

/// The host form of a function's results.
pub fn results_to_host(rs: &Vec<TypedValue>) -> (r: HostValue)
    ensures
        results_match(r, rs@),
{
    if rs.len() == 0 {
        HostValue::Nothing
    } else if rs.len() == 1 {
        to_host_value(rs[0])
    } else {
        HostValue::Tuple(values_to_host(rs))
    }
}

/// Maps what the machine produced for a function that declares `declared`
/// results to what the host receives.
pub fn finish_call(declared: usize, out: Result<Vec<TypedValue>, String>) -> (r: Result<
    HostValue,
    DispatchError,
>)
    ensures
        outcome_matches(declared as nat, out, r),
{
    match out {
        Ok(rs) => {
            if rs.len() < declared {
                return Err(DispatchError::ResultArity { expected: declared, got: rs.len() });
            }
            let mut kept: Vec<TypedValue> = Vec::new();
            let mut i: usize = 0;
            while i < declared
                invariant
                    i <= declared <= rs@.len(),
                    kept@ == rs@.take(i as int),
                decreases declared - i,
            {
                kept.push(rs[i]);
                assert(rs@.take(i + 1) == rs@.take(i as int).push(rs@[i as int]));
                i = i + 1;
            }
            Ok(results_to_host(&kept))
        },
        Err(message) => Err(DispatchError::ExecutionTrap { message }),
    }
}

/// Calls a function of signature `signature` through `run`, which runs the
/// WebAssembly code on typed arguments. `run` is called only when the
/// arguments fit, and exactly once then.
pub fn call_dyn_func<F: Fn(Vec<TypedValue>) -> Result<Vec<TypedValue>, String>>(
    signature: &FunctionSignature,
    args: &Vec<HostValue>,
    run: &F,
) -> (r: Result<HostValue, DispatchError>)
    requires
        forall|a: Vec<TypedValue>| run.requires((a,)),
    ensures
        match coerce_args(signature.params@, args@) {
            Err(e) => r == Err::<HostValue, DispatchError>(e),
            Ok(s) => exists|a: Vec<TypedValue>, out: Result<Vec<TypedValue>, String>|
                a@ == s && run.ensures((a,), out) && outcome_matches(
                    signature.results@.len(),
                    out,
                    r,
                ),
        },
{
    let params = &signature.params;
    let typed = match coerce_arguments(params, args) {
        Ok(v) => v,
        Err(e) => return Err(e),
    };
    let ghost a = typed;
    let out = run(typed);
    let ghost o = out;
    let r = finish_call(signature.results.len(), out);
    assert(a@ == coerce_args(params@, args@)->Ok_0 && run.ensures((a,), o) && outcome_matches(
        signature.results@.len(),
        o,
        r,
    ));
    r
}

/// Whatever the machine produced, a successful call gives the host no value
/// when the function declares no result, a single value when it declares
/// one, and a tuple of the declared length when it declares more.
pub proof fn lemma_result_shape(
    declared: nat,
    out: Result<Vec<TypedValue>, String>,
    r: Result<HostValue, DispatchError>,
)
    requires
        outcome_matches(declared, out, r),
        r is Ok,
    ensures
        declared == 0 <==> r->Ok_0 is Nothing,
        declared == 1 ==> !(r->Ok_0 is Nothing) && !(r->Ok_0 is Tuple),
        declared >= 2 <==> (r->Ok_0 is Tuple && r->Ok_0->Tuple_0@.len() == declared),
{
    let rs = out->Ok_0@.take(declared as int);
    if declared >= 1 {
        match rs[0] {
            TypedValue::I32(x) => {},
            TypedValue::I64(x) => {},
            TypedValue::F32(x) => {},
            TypedValue::F64(x) => {},
            TypedValue::V128(x) => {},
        }
    }
}

/// A call with any number of arguments other than the parameter count fails
/// with the error for missing or extra arguments, carrying both counts.
pub proof fn lemma_arity_mismatch(params: Seq<ValueKind>, args: Seq<HostValue>)
    requires
        args.len() != params.len(),
        params.len() <= usize::MAX,
        args.len() <= usize::MAX,
    ensures
        args.len() < params.len() ==> coerce_args(params, args) == Err::<Seq<TypedValue>, DispatchError>(
            DispatchError::MissingArguments { expected: params.len() as usize, got: args.len() as usize },
        ),
        args.len() > params.len() ==> coerce_args(params, args) == Err::<Seq<TypedValue>, DispatchError>(
            DispatchError::ExtraArguments { expected: params.len() as usize, got: args.len() as usize },
        ),
{
}

} // verus!
