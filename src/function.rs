//! Host callables registered as WebAssembly functions, and the bridge that
//! runs them when WebAssembly code calls them.
use crate::dispatch::{call_dyn_func, coerce_args, outcome_matches, DispatchError};
use crate::signature::{infer, resolve_signature, Annotation, FunctionSignature, SignatureError};
use crate::value::{
    coerce_all, coerce_seq, coerce_value, coerced, host_of, values_to_host, ConversionError, HostValue,
    TypedValue, ValueKind,
};
use vstd::prelude::*;

verus! {

/// Why a host callable invoked from WebAssembly failed. The machine receives
/// it as a trap, never as a host fault.
#[derive(Clone, Debug, PartialEq, Eq)]
pub enum CallTrap {
    /// The host callable raised an error with this message.
    HostError { message: String },
    /// The returned value at `position` does not fit its result kind.
    Conversion { position: usize, error: ConversionError },
    /// The callable returned a number of values other than the declared one.
    ResultArity { expected: usize, got: usize },
}

/// The typed results that the host return `ret` gives for result kinds
/// `kinds`, or the trap it raises. A value the host already tagged must be of
/// its result's kind: the machine takes results untyped.
pub open spec fn returned_values(kinds: Seq<ValueKind>, ret: Result<HostValue, String>) -> Result<
    Seq<TypedValue>,
    CallTrap,
> {
    match ret {
        Err(m) => Err(CallTrap::HostError { message: m }),
        Ok(h) => if kinds.len() == 0 {
            Ok(Seq::empty())
        } else {
            match h {
                HostValue::Nothing => Err(CallTrap::ResultArity { expected: kinds.len() as usize, got: 0 }),
                HostValue::Tuple(vs) => if vs@.len() != kinds.len() {
                    Err(CallTrap::ResultArity { expected: kinds.len() as usize, got: vs@.len() as usize })
                } else {
                    match coerce_seq(vs@, kinds, true) {
                        Ok(s) => Ok(s),
                        Err((i, e)) => Err(CallTrap::Conversion { position: i as usize, error: e }),
                    }
                },
                _ => if kinds.len() == 1 {
                    match coerced(h, kinds[0], true) {
                        Ok(t) => Ok(seq![t]),
                        Err(e) => Err(CallTrap::Conversion { position: 0, error: e }),
                    }
                } else {
                    Err(CallTrap::ResultArity { expected: kinds.len() as usize, got: 1 })
                },
            }
        },
    }
}

/// What the bridge hands back to the machine for the host return `ret`.
pub open spec fn return_matches(
    kinds: Seq<ValueKind>,
    ret: Result<HostValue, String>,
    r: Result<Vec<TypedValue>, CallTrap>,
) -> bool {
    match returned_values(kinds, ret) {
        Ok(s) => r is Ok && r->Ok_0@ == s,
        Err(e) => r == Err::<Vec<TypedValue>, CallTrap>(e),
    }
}

/// Interprets what a host callable returned against the declared result
/// kinds.
pub fn host_return_to_results(kinds: &Vec<ValueKind>, ret: Result<HostValue, String>) -> (r: Result<
    Vec<TypedValue>,
    CallTrap,
>)
    ensures
        return_matches(kinds@, ret, r),
{
    match ret {
        Err(message) => Err(CallTrap::HostError { message }),
        Ok(h) => {
            if kinds.len() == 0 {
                return Ok(Vec::new());
            }
            match h {
                HostValue::Nothing => Err(CallTrap::ResultArity { expected: kinds.len(), got: 0 }),
                HostValue::Tuple(vs) => {
                    if vs.len() != kinds.len() {
                        Err(CallTrap::ResultArity { expected: kinds.len(), got: vs.len() })
                    } else {
                        match coerce_all(&vs, kinds, true) {
                            Ok(v) => Ok(v),
                            Err((i, e)) => Err(CallTrap::Conversion { position: i, error: e }),
                        }
                    }
                },
                _ => {
                    if kinds.len() == 1 {
                        match coerce_value(&h, kinds[0], true) {
                            Ok(t) => {
                                let mut v: Vec<TypedValue> = Vec::new();
                                v.push(t);
                                assert(v@ == seq![t]);
                                Ok(v)
                            },
                            Err(e) => Err(CallTrap::Conversion { position: 0, error: e }),
                        }
                    } else {
                        Err(CallTrap::ResultArity { expected: kinds.len(), got: 1 })
                    }
                },
            }
        },
    }
}

/// A WebAssembly function backed by a host callable, with its signature.
#[derive(Clone, Debug)]
pub struct Function {
    ty: FunctionSignature,
}

impl Function {
    /// Wraps a signature that was already resolved.
    pub fn raw_new(ty: FunctionSignature) -> (r: Function)
        ensures
            r.spec_ty() == ty,
    {
        Function { ty }
    }

    pub closed spec fn spec_ty(&self) -> FunctionSignature {
        self.ty
    }

    /// Registers a host callable: the explicit signature when one is given,
    /// else the one its annotations declare.
    pub fn new(
        is_callable: bool,
        function_type: Option<FunctionSignature>,
        annotations: Option<&Vec<Annotation>>,
    ) -> (r: Result<Function, SignatureError>)
        ensures
            !is_callable ==> r == Err::<Function, SignatureError>(SignatureError::NotCallable),
            is_callable && function_type is Some ==> r is Ok && r->Ok_0.spec_ty()
                == function_type->Some_0,
            is_callable && function_type is None && annotations is None ==> r == Err::<
                Function,
                SignatureError,
            >(SignatureError::MissingSignature),
            is_callable && function_type is None && annotations is Some ==> match infer(
                annotations->Some_0@,
            ) {
                Ok((p, rs)) => r is Ok && r->Ok_0.spec_ty().params@ == p
                    && r->Ok_0.spec_ty().results@ == rs,
                Err(t) => r is Err && r->Err_0 is UnsupportedType && r->Err_0->token@ == t,
            },
    {
        match resolve_signature(is_callable, function_type, annotations) {
            Ok(ty) => Ok(Function::raw_new(ty)),
            Err(e) => Err(e),
        }
    }

    /// The function's signature.
    pub fn ty(&self) -> (r: &FunctionSignature)
        ensures
            *r == self.spec_ty(),
    {
        &self.ty
    }

    /// Runs the host callable `host` for a call from WebAssembly with typed
    /// `arguments`: the arguments reach `host` in their host form, and what it
    /// returns, or the error it raises, becomes results or a trap.
    pub fn call_from_wasm<H: Fn(Vec<HostValue>) -> Result<HostValue, String>>(
        &self,
        host: &H,
        arguments: &Vec<TypedValue>,
    ) -> (r: Result<Vec<TypedValue>, CallTrap>)
        requires
            forall|a: Vec<HostValue>| host.requires((a,)),
        ensures
            exists|a: Vec<HostValue>, ret: Result<HostValue, String>|
                a@.len() == arguments@.len()
                && (forall|i: int| 0 <= i < a@.len() ==> #[trigger] a@[i] == host_of(arguments@[i]))
                && host.ensures((a,), ret) && return_matches(self.spec_ty().results@, ret, r),
    {
        let a = values_to_host(arguments);
        let ghost ga = a;
        let ret = host(a);
        let ghost gret = ret;
        let r = host_return_to_results(&self.ty.results, ret);
        assert(ga@.len() == arguments@.len() && host.ensures((ga,), gret) && return_matches(
            self.spec_ty().results@,
            gret,
            r,
        ));
        r
    }

    /// Calls the function from the host with `arguments`, where `run` runs it
    /// on typed arguments.
    pub fn call<F: Fn(Vec<TypedValue>) -> Result<Vec<TypedValue>, String>>(
        &self,
        run: &F,
        arguments: &Vec<HostValue>,
    ) -> (r: Result<HostValue, DispatchError>)
        requires
            forall|a: Vec<TypedValue>| run.requires((a,)),
        ensures
            match coerce_args(self.spec_ty().params@, arguments@) {
                Err(e) => r == Err::<HostValue, DispatchError>(e),
                Ok(s) => exists|a: Vec<TypedValue>, out: Result<Vec<TypedValue>, String>|
                    a@ == s && run.ensures((a,), out) && outcome_matches(
                        self.spec_ty().results@.len(),
                        out,
                        r,
                    ),
            },
    {
        call_dyn_func(&self.ty, arguments, run)
    }
}

} // verus!
