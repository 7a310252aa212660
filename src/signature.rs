//! Function signatures, and how one is inferred from a host callable's
//! type annotations.
use crate::value::ValueKind;
use vstd::prelude::*;

verus! {

/// The parameter kinds and the result kinds of a function, in call order.
#[derive(Clone, Debug, PartialEq, Eq)]
pub struct FunctionSignature {
    pub params: Vec<ValueKind>,
    pub results: Vec<ValueKind>,
}

/// One declared type annotation of a host callable: the annotated name
/// (`return` for the callable's own result) and the annotation's text.
#[derive(Clone, Debug, PartialEq, Eq)]
pub struct Annotation {
    pub name: String,
    pub token: String,
}

/// Why a host callable cannot be registered as an import.
#[derive(Clone, Debug, PartialEq, Eq)]
pub enum SignatureError {
    /// The host object is not callable.
    NotCallable,
    /// No explicit signature and no type annotations were given.
    MissingSignature,
    /// An annotation names a type that has no value kind.
    UnsupportedType { token: String },
}

/// The value kind an annotation token denotes, if any.
pub open spec fn token_kind(t: Seq<char>) -> Option<ValueKind> {
    if t == "i32"@ || t == "I32"@ || t == "<class 'int'>"@ {
        Some(ValueKind::I32)
    } else if t == "i64"@ || t == "I64"@ {
        Some(ValueKind::I64)
    } else if t == "f32"@ || t == "F32"@ {
        Some(ValueKind::F32)
    } else if t == "f64"@ || t == "F64"@ || t == "<class 'float'>"@ {
        Some(ValueKind::F64)
    } else {
        None
    }
}

/// The parameter and result kinds that the first `n` annotations declare, or
/// the first token among them that has no value kind.
pub open spec fn infer_prefix(anns: Seq<Annotation>, n: nat) -> Result<
    (Seq<ValueKind>, Seq<ValueKind>),
    Seq<char>,
>
    decreases n,
{
    if n == 0 {
        Ok((Seq::empty(), Seq::empty()))
    } else {
        match infer_prefix(anns, (n - 1) as nat) {
            Err(t) => Err(t),
            Ok((p, r)) => {
                let a = anns[n - 1];
                match token_kind(a.token@) {
                    None => Err(a.token@),
                    Some(k) => if a.name@ == "return"@ {
                        Ok((p, r.push(k)))
                    } else {
                        Ok((p.push(k), r))
                    },
                }
            },
        }
    }
}

/// The kinds that all the annotations declare.
pub open spec fn infer(anns: Seq<Annotation>) -> Result<(Seq<ValueKind>, Seq<ValueKind>), Seq<char>> {
    infer_prefix(anns, anns.len())
}

fn same_text(s: &String, lit: &str) -> (r: bool)
    ensures
        r == (s@ == lit@),
{
    let owned = lit.to_owned();
    s.eq(&owned)
}

/// Maps an annotation token through the fixed table of kinds.
pub fn kind_of_token(t: &String) -> (r: Option<ValueKind>)
    ensures
        r == token_kind(t@),
{
    if same_text(t, "i32") || same_text(t, "I32") || same_text(t, "<class 'int'>") {
        Some(ValueKind::I32)
    } else if same_text(t, "i64") || same_text(t, "I64") {
        Some(ValueKind::I64)
    } else if same_text(t, "f32") || same_text(t, "F32") {
        Some(ValueKind::F32)
    } else if same_text(t, "f64") || same_text(t, "F64") || same_text(t, "<class 'float'>") {
        Some(ValueKind::F64)
    } else {
        None
    }
}

/// Derives a signature from type annotations, in their declaration order.
pub fn infer_signature(anns: &Vec<Annotation>) -> (r: Result<FunctionSignature, SignatureError>)
    ensures
        match infer(anns@) {
            Ok((p, rs)) => r is Ok && r->Ok_0.params@ == p && r->Ok_0.results@ == rs,
            Err(t) => r is Err && r->Err_0 is UnsupportedType && r->Err_0->token@ == t,
        },
{
    let mut params: Vec<ValueKind> = Vec::new();
    let mut results: Vec<ValueKind> = Vec::new();
    let mut i: usize = 0;
    while i < anns.len()
        invariant
            i <= anns.len(),
            infer_prefix(anns@, i as nat) == Ok::<(Seq<ValueKind>, Seq<ValueKind>), Seq<char>>(
                (params@, results@),
            ),
        decreases anns.len() - i,
    {
        let a = &anns[i];
        match kind_of_token(&a.token) {
            None => {
                assert(infer_prefix(anns@, (i + 1) as nat) == Err::<
                    (Seq<ValueKind>, Seq<ValueKind>),
                    Seq<char>,
                >(a.token@));
                proof {
                    lemma_infer_error_sticks(anns@, (i + 1) as nat, anns.len() as nat);
                }
                return Err(SignatureError::UnsupportedType { token: a.token.clone() });
            },
            Some(k) => {
                if same_text(&a.name, "return") {
                    results.push(k);
                } else {
                    params.push(k);
                }
            },
        }
        i = i + 1;
    }
    Ok(FunctionSignature { params, results })
}

proof fn lemma_infer_error_sticks(anns: Seq<Annotation>, i: nat, n: nat)
    requires
        i <= n,
        infer_prefix(anns, i) is Err,
    ensures
        infer_prefix(anns, n) == infer_prefix(anns, i),
    decreases n - i,
{
    if i < n {
        lemma_infer_error_sticks(anns, i, (n - 1) as nat);
    }
}

/// Resolves the signature of a host callable: an explicit signature is used
/// verbatim; otherwise the callable's annotations decide.
pub fn resolve_signature(
    is_callable: bool,
    explicit: Option<FunctionSignature>,
    annotations: Option<&Vec<Annotation>>,
) -> (r: Result<FunctionSignature, SignatureError>)
    ensures
        !is_callable ==> r == Err::<FunctionSignature, SignatureError>(SignatureError::NotCallable),
        is_callable && explicit is Some ==> r == Ok::<FunctionSignature, SignatureError>(
            explicit->Some_0,
        ),
        is_callable && explicit is None && annotations is None ==> r == Err::<
            FunctionSignature,
            SignatureError,
        >(SignatureError::MissingSignature),
        is_callable && explicit is None && annotations is Some ==> match infer(
            annotations->Some_0@,
        ) {
            Ok((p, rs)) => r is Ok && r->Ok_0.params@ == p && r->Ok_0.results@ == rs,
            Err(t) => r is Err && r->Err_0 is UnsupportedType && r->Err_0->token@ == t,
        },
{
    if !is_callable {
        return Err(SignatureError::NotCallable);
    }
    match explicit {
        Some(sig) => Ok(sig),
        None => match annotations {
            None => Err(SignatureError::MissingSignature),
            Some(anns) => infer_signature(anns),
        },
    }
}

} // verus!
