//! Readable text for signatures, for introspection and debugging.
use crate::value::ValueKind;
use vstd::prelude::*;
use vstd::string::StringExecFns;

verus! {

/// The name of a value kind.
pub open spec fn kind_text(k: ValueKind) -> Seq<char> {
    match k {
        ValueKind::I32 => "I32"@,
        ValueKind::I64 => "I64"@,
        ValueKind::F32 => "F32"@,
        ValueKind::F64 => "F64"@,
        ValueKind::V128 => "V128"@,
    }
}

/// The names of the kinds, separated by `, `.
pub open spec fn joined(ks: Seq<ValueKind>) -> Seq<char>
    decreases ks.len(),
{
    if ks.len() == 0 {
        Seq::empty()
    } else if ks.len() == 1 {
        kind_text(ks[0])
    } else {
        joined(ks.drop_last()) + ", "@ + kind_text(ks.last())
    }
}

/// A list of kinds in brackets, such as `[I32, F64]`.
pub open spec fn list_text(ks: Seq<ValueKind>) -> Seq<char> {
    "["@ + joined(ks) + "]"@
}

/// The name of a value kind.
pub fn kind_name(k: ValueKind) -> (r: &'static str)
    ensures
        r@ == kind_text(k),
{
    match k {
        ValueKind::I32 => "I32",
        ValueKind::I64 => "I64",
        ValueKind::F32 => "F32",
        ValueKind::F64 => "F64",
        ValueKind::V128 => "V128",
    }
}

/// Appends the bracketed list of `ks` to `s`.
pub fn append_list(s: &mut String, ks: &Vec<ValueKind>)
    ensures
        final(s)@ == old(s)@ + list_text(ks@),
{
    let ghost start = s@;
    s.append("[");
    let mut i: usize = 0;
    while i < ks.len()
        invariant
            i <= ks@.len(),
            s@ == start + "["@ + joined(ks@.take(i as int)),
        decreases ks.len() - i,
    {
        let ghost before = s@;
        if i > 0 {
            s.append(", ");
        }
        s.append(kind_name(ks[i]));
        proof {
            let t = ks@.take(i + 1);
            assert(t.drop_last() == ks@.take(i as int));
            assert(t.last() == ks@[i as int]);
            if i == 0 {
                assert(joined(ks@.take(i as int)) == Seq::<char>::empty());
                assert(s@ == before + kind_text(ks@[i as int]));
            } else {
                assert(s@ == before + ", "@ + kind_text(ks@[i as int]));
            }
            assert(joined(t) == joined(ks@.take(i as int)) + (if i == 0 {
                Seq::<char>::empty()
            } else {
                ", "@
            }) + kind_text(ks@[i as int]));
        }
        i = i + 1;
    }
    assert(ks@.take(ks@.len() as int) == ks@);
    s.append("]");
}

} // verus!
