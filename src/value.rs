//! WebAssembly value kinds, typed values, and the host's dynamic values.
use vstd::prelude::*;

verus! {

/// The value kinds of the WebAssembly calling convention.
#[derive(Clone, Copy, Debug, PartialEq, Eq, Structural)]
pub enum ValueKind {
    I32,
    I64,
    F32,
    F64,
    V128,
}

/// A value tagged with its kind. Floating values are held as their IEEE-754
/// bit patterns, so that the tag always matches the payload's width.
#[derive(Clone, Copy, Debug, PartialEq, Eq, Structural)]
pub enum TypedValue {
    I32(i32),
    I64(i64),
    F32(u32),
    F64(u64),
    V128(u128),
}

/// A host float, held as the IEEE-754 bits of the width it was produced at.
#[derive(Clone, Copy, Debug, PartialEq, Eq, Structural)]
pub enum HostFloat {
    Single(u32),
    Double(u64),
}

/// A dynamically typed host value.
#[derive(Debug, PartialEq)]
pub enum HostValue {
    /// The host's "no value" marker.
    Nothing,
    /// An integer, as a sign and a magnitude.
    Int { negative: bool, magnitude: u128 },
    Float(HostFloat),
    /// A value that the host already tagged with its kind.
    Typed(TypedValue),
    /// A fixed-size ordered grouping of values.
    Tuple(Vec<HostValue>),
    /// Any other host object (a string, a list, ...).
    Other,
}

/// Why a host value could not become a typed value.
#[derive(Clone, Copy, Debug, PartialEq, Eq, Structural)]
pub enum ConversionError {
    /// The host value is not of the dynamic type the kind needs.
    TypeMismatch { expected: ValueKind },
    /// The host integer does not fit the kind's width.
    Overflow { expected: ValueKind },
}

pub open spec fn kind_of(v: TypedValue) -> ValueKind {
    match v {
        TypedValue::I32(_) => ValueKind::I32,
        TypedValue::I64(_) => ValueKind::I64,
        TypedValue::F32(_) => ValueKind::F32,
        TypedValue::F64(_) => ValueKind::F64,
        TypedValue::V128(_) => ValueKind::V128,
    }
}

impl TypedValue {
    /// The kind of this value.
    pub fn kind(&self) -> (r: ValueKind)
        ensures
            r == kind_of(*self),
    {
        match self {
            TypedValue::I32(_) => ValueKind::I32,
            TypedValue::I64(_) => ValueKind::I64,
            TypedValue::F32(_) => ValueKind::F32,
            TypedValue::F64(_) => ValueKind::F64,
            TypedValue::V128(_) => ValueKind::V128,
        }
    }
}

/// The mathematical integer a sign and a magnitude stand for.
pub open spec fn signed_int(negative: bool, magnitude: u128) -> int {
    if negative {
        -(magnitude as int)
    } else {
        magnitude as int
    }
}

/// A host integer in canonical form: zero is never negative.
pub open spec fn host_int(i: int) -> HostValue {
    if i < 0 {
        HostValue::Int { negative: true, magnitude: (-i) as u128 }
    } else {
        HostValue::Int { negative: false, magnitude: i as u128 }
    }
}

/// The host value a typed value stands for.
pub open spec fn host_of(v: TypedValue) -> HostValue {
    match v {
        TypedValue::I32(x) => host_int(x as int),
        TypedValue::I64(x) => host_int(x as int),
        TypedValue::F32(b) => HostValue::Float(HostFloat::Single(b)),
        TypedValue::F64(b) => HostValue::Float(HostFloat::Double(b)),
        TypedValue::V128(x) => host_int(x as int),
    }
}

/// The typed value of kind `k` that the host value `h` becomes, or why it
/// cannot become one.
pub open spec fn typed_of(h: HostValue, k: ValueKind) -> Result<TypedValue, ConversionError> {
    match h {
        HostValue::Int { negative, magnitude } => {
            let i = signed_int(negative, magnitude);
            match k {
                ValueKind::I32 => if i32::MIN <= i <= i32::MAX {
                    Ok(TypedValue::I32(i as i32))
                } else {
                    Err(ConversionError::Overflow { expected: k })
                },
                ValueKind::I64 => if i64::MIN <= i <= i64::MAX {
                    Ok(TypedValue::I64(i as i64))
                } else {
                    Err(ConversionError::Overflow { expected: k })
                },
                ValueKind::V128 => if 0 <= i {
                    Ok(TypedValue::V128(i as u128))
                } else {
                    Err(ConversionError::Overflow { expected: k })
                },
                _ => Err(ConversionError::TypeMismatch { expected: k }),
            }
        },
        HostValue::Float(HostFloat::Single(b)) => if k == ValueKind::F32 {
            Ok(TypedValue::F32(b))
        } else {
            Err(ConversionError::TypeMismatch { expected: k })
        },
        HostValue::Float(HostFloat::Double(b)) => if k == ValueKind::F64 {
            Ok(TypedValue::F64(b))
        } else {
            Err(ConversionError::TypeMismatch { expected: k })
        },
        _ => Err(ConversionError::TypeMismatch { expected: k }),
    }
}

/// The host integer with this sign and magnitude, in canonical form.
pub fn host_int_of(negative: bool, magnitude: u128) -> (r: HostValue)
    ensures
        r == host_int(signed_int(negative, magnitude)),
{
    if negative && magnitude > 0 {
        HostValue::Int { negative: true, magnitude }
    } else {
        HostValue::Int { negative: false, magnitude }
    }
}

/// Converts a typed value to its host representation; this always succeeds.
pub fn to_host_value(v: TypedValue) -> (r: HostValue)
    ensures
        r == host_of(v),
{
    match v {
        TypedValue::I32(x) => if x < 0 {
            HostValue::Int { negative: true, magnitude: (-(x as i64)) as u128 }
        } else {
            HostValue::Int { negative: false, magnitude: x as u128 }
        },
        TypedValue::I64(x) => if x < 0 {
            HostValue::Int { negative: true, magnitude: (-(x as i128)) as u128 }
        } else {
            HostValue::Int { negative: false, magnitude: x as u128 }
        },
        TypedValue::F32(b) => HostValue::Float(HostFloat::Single(b)),
        TypedValue::F64(b) => HostValue::Float(HostFloat::Double(b)),
        TypedValue::V128(x) => HostValue::Int { negative: false, magnitude: x },
    }
}

/// Converts a host value to a typed value of kind `k`.
pub fn to_typed_value(h: &HostValue, k: ValueKind) -> (r: Result<TypedValue, ConversionError>)
    ensures
        r == typed_of(*h, k),
{
    match h {
        HostValue::Int { negative, magnitude } => {
            let negative = *negative;
            let magnitude = *magnitude;
            match k {
                ValueKind::I32 => {
                    if !negative && magnitude <= 0x7fff_ffff {
                        Ok(TypedValue::I32(magnitude as i32))
                    } else if negative && magnitude <= 0x8000_0000 {
                        Ok(TypedValue::I32((-(magnitude as i64)) as i32))
                    } else {
                        Err(ConversionError::Overflow { expected: k })
                    }
                },
                ValueKind::I64 => {
                    if !negative && magnitude <= 0x7fff_ffff_ffff_ffff {
                        Ok(TypedValue::I64(magnitude as i64))
                    } else if negative && magnitude <= 0x8000_0000_0000_0000 {
                        Ok(TypedValue::I64((-(magnitude as i128)) as i64))
                    } else {
                        Err(ConversionError::Overflow { expected: k })
                    }
                },
                ValueKind::V128 => {
                    if !negative || magnitude == 0 {
                        Ok(TypedValue::V128(magnitude))
                    } else {
                        Err(ConversionError::Overflow { expected: k })
                    }
                },
                _ => Err(ConversionError::TypeMismatch { expected: k }),
            }
        },
        HostValue::Float(HostFloat::Single(b)) => {
            if k == ValueKind::F32 {
                Ok(TypedValue::F32(*b))
            } else {
                Err(ConversionError::TypeMismatch { expected: k })
            }
        },
        HostValue::Float(HostFloat::Double(b)) => {
            if k == ValueKind::F64 {
                Ok(TypedValue::F64(*b))
            } else {
                Err(ConversionError::TypeMismatch { expected: k })
            }
        },
        _ => Err(ConversionError::TypeMismatch { expected: k }),
    }
}

/// The typed value a host value stands for at kind `k`. A value that the
/// host already tagged is used as it is; with `tag_checked` its kind must also
/// be `k`.
pub open spec fn coerced(h: HostValue, k: ValueKind, tag_checked: bool) -> Result<
    TypedValue,
    ConversionError,
> {
    match h {
        HostValue::Typed(t) => if !tag_checked || kind_of(t) == k {
            Ok(t)
        } else {
            Err(ConversionError::TypeMismatch { expected: k })
        },
        _ => typed_of(h, k),
    }
}

/// The first `n` host values coerced position by position, or the first
/// position that fails and why.
pub open spec fn coerce_prefix(
    vals: Seq<HostValue>,
    kinds: Seq<ValueKind>,
    tag_checked: bool,
    n: nat,
) -> Result<
    Seq<TypedValue>,
    (nat, ConversionError),
>
    decreases n,
{
    if n == 0 {
        Ok(Seq::empty())
    } else {
        match coerce_prefix(vals, kinds, tag_checked, (n - 1) as nat) {
            Err(e) => Err(e),
            Ok(s) => match coerced(vals[n - 1], kinds[n - 1], tag_checked) {
                Ok(t) => Ok(s.push(t)),
                Err(e) => Err(((n - 1) as nat, e)),
            },
        }
    }
}

/// All the host values coerced position by position.
pub open spec fn coerce_seq(vals: Seq<HostValue>, kinds: Seq<ValueKind>, tag_checked: bool) -> Result<
    Seq<TypedValue>,
    (nat, ConversionError),
> {
    coerce_prefix(vals, kinds, tag_checked, vals.len())
}

proof fn lemma_coerce_error_sticks(
    vals: Seq<HostValue>,
    kinds: Seq<ValueKind>,
    tag_checked: bool,
    i: nat,
    n: nat,
)
    requires
        i <= n,
        coerce_prefix(vals, kinds, tag_checked, i) is Err,
    ensures
        coerce_prefix(vals, kinds, tag_checked, n) == coerce_prefix(vals, kinds, tag_checked, i),
    decreases n - i,
{
    if i < n {
        lemma_coerce_error_sticks(vals, kinds, tag_checked, i, (n - 1) as nat);
    }
}

/// Coerces one host value to kind `k`.
pub fn coerce_value(h: &HostValue, k: ValueKind, tag_checked: bool) -> (r: Result<
    TypedValue,
    ConversionError,
>)
    ensures
        r == coerced(*h, k, tag_checked),
{
    match h {
        HostValue::Typed(t) => {
            if !tag_checked || t.kind() == k {
                Ok(*t)
            } else {
                Err(ConversionError::TypeMismatch { expected: k })
            }
        },
        _ => to_typed_value(h, k),
    }
}

/// Coerces host values to the kinds at the same positions.
pub fn coerce_all(vals: &Vec<HostValue>, kinds: &Vec<ValueKind>, tag_checked: bool) -> (r: Result<
    Vec<TypedValue>,
    (usize, ConversionError),
>)
    requires
        vals.len() == kinds.len(),
    ensures
        match coerce_seq(vals@, kinds@, tag_checked) {
            Ok(s) => r is Ok && r->Ok_0@ == s,
            Err((i, e)) => r is Err && r->Err_0.0 == i && r->Err_0.1 == e,
        },
        r is Err ==> r->Err_0.0 < vals.len(),
{
    let mut out: Vec<TypedValue> = Vec::new();
    let mut i: usize = 0;
    while i < vals.len()
        invariant
            i <= vals.len(),
            vals.len() == kinds.len(),
            coerce_prefix(vals@, kinds@, tag_checked, i as nat) == Ok::<Seq<TypedValue>, (nat, ConversionError)>(
                out@,
            ),
        decreases vals.len() - i,
    {
        match coerce_value(&vals[i], kinds[i], tag_checked) {
            Ok(t) => out.push(t),
            Err(e) => {
                proof {
                    lemma_coerce_error_sticks(vals@, kinds@, tag_checked, (i + 1) as nat, vals.len() as nat);
                }
                return Err((i, e));
            },
        }
        i = i + 1;
    }
    Ok(out)
}

/// Converts typed values to their host representations.
pub fn values_to_host(vals: &Vec<TypedValue>) -> (r: Vec<HostValue>)
    ensures
        r@.len() == vals@.len(),
        forall|i: int| 0 <= i < vals@.len() ==> #[trigger] r@[i] == host_of(vals@[i]),
{
    let mut out: Vec<HostValue> = Vec::new();
    let mut i: usize = 0;
    while i < vals.len()
        invariant
            i <= vals.len(),
            out@.len() == i,
            forall|j: int| 0 <= j < i ==> #[trigger] out@[j] == host_of(vals@[j]),
        decreases vals.len() - i,
    {
        out.push(to_host_value(vals[i]));
        i = i + 1;
    }
    out
}

/// Converting a typed value to the host and back, at its own kind, gives the
/// same typed value.
pub proof fn lemma_typed_round_trip(v: TypedValue)
    ensures
        typed_of(host_of(v), kind_of(v)) == Ok::<TypedValue, ConversionError>(v),
{
}

/// Converting a host value to a typed value of any kind and back gives the
/// same host value, whenever the conversion succeeds and the host value is in
/// canonical form.
pub proof fn lemma_host_round_trip(h: HostValue, k: ValueKind)
    requires
        typed_of(h, k) is Ok,
        h is Int ==> h == host_int(signed_int(h->negative, h->magnitude)),
    ensures
        host_of(typed_of(h, k)->Ok_0) == h,
{
}

} // verus!
