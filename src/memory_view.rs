//! Typed, bounds-checked views over an instance's linear memory.
use vstd::prelude::*;

verus! {

/// The element type of a view: unsigned or signed, 8, 16 or 32 bits wide.
#[derive(Clone, Copy, Debug, PartialEq, Eq, Structural)]
pub enum ElementKind {
    U8,
    I8,
    U16,
    I16,
    U32,
    I32,
}

/// Why a memory access was rejected.
#[derive(Clone, Copy, Debug, PartialEq, Eq, Structural)]
pub enum MemoryError {
    /// The index is not below the view's current length.
    OutOfBounds { index: usize, length: usize },
    /// The value does not fit the view's element type.
    ValueOutOfRange,
}

/// The width of an element in bytes.
pub open spec fn width_of(k: ElementKind) -> nat {
    match k {
        ElementKind::U8 | ElementKind::I8 => 1,
        ElementKind::U16 | ElementKind::I16 => 2,
        ElementKind::U32 | ElementKind::I32 => 4,
    }
}

pub open spec fn is_signed(k: ElementKind) -> bool {
    k == ElementKind::I8 || k == ElementKind::I16 || k == ElementKind::I32
}

/// The number of distinct bit patterns of an element.
pub open spec fn modulus(k: ElementKind) -> int {
    match k {
        ElementKind::U8 | ElementKind::I8 => 0x100,
        ElementKind::U16 | ElementKind::I16 => 0x1_0000,
        ElementKind::U32 | ElementKind::I32 => 0x1_0000_0000,
    }
}

/// The values an element of kind `k` can hold.
pub open spec fn in_range(k: ElementKind, v: int) -> bool {
    if is_signed(k) {
        -(modulus(k) / 2) <= v < modulus(k) / 2
    } else {
        0 <= v < modulus(k)
    }
}

/// The unsigned little-endian number held by the `w` bytes at `pos`.
pub open spec fn unsigned_at(bytes: Seq<u8>, pos: int, w: nat) -> int
    decreases w,
{
    if w == 0 {
        0
    } else {
        bytes[pos] as int + 0x100 * unsigned_at(bytes, pos + 1, (w - 1) as nat)
    }
}

/// The element of kind `k` held by the bytes at `pos`.
pub open spec fn element_at(bytes: Seq<u8>, pos: int, k: ElementKind) -> int {
    let u = unsigned_at(bytes, pos, width_of(k));
    if is_signed(k) && u >= modulus(k) / 2 {
        u - modulus(k)
    } else {
        u
    }
}

/// The bit pattern that stores `v` in an element of kind `k`.
pub open spec fn pattern_of(k: ElementKind, v: int) -> int {
    if v < 0 {
        v + modulus(k)
    } else {
        v
    }
}

/// The bytes after `u` is written little-endian into the `w` bytes at `pos`.
pub open spec fn store_unsigned(bytes: Seq<u8>, pos: int, w: nat, u: int) -> Seq<u8>
    decreases w,
{
    if w == 0 {
        bytes
    } else {
        store_unsigned(bytes.update(pos, (u % 0x100) as u8), pos + 1, (w - 1) as nat, u / 0x100)
    }
}

/// The bytes after `v` is written as an element of kind `k` at `pos`.
pub open spec fn store_element(bytes: Seq<u8>, pos: int, k: ElementKind, v: int) -> Seq<u8> {
    store_unsigned(bytes, pos, width_of(k), pattern_of(k, v))
}

/// The number of whole elements of width `w` from byte `offset` on, in a
/// buffer of `len` bytes.
pub open spec fn view_length(len: nat, offset: nat, w: nat) -> nat {
    if offset >= len || w == 0 {
        0
    } else {
        ((len - offset) as nat / w) as nat
    }
}

proof fn lemma_store_unsigned(bytes: Seq<u8>, pos: int, w: nat, u: int)
    requires
        0 <= pos,
        pos + w <= bytes.len(),
        0 <= u,
    ensures
        store_unsigned(bytes, pos, w, u).len() == bytes.len(),
        forall|j: int|
            0 <= j < bytes.len() && !(pos <= j < pos + w) ==> #[trigger] store_unsigned(
                bytes,
                pos,
                w,
                u,
            )[j] == bytes[j],
        unsigned_at(store_unsigned(bytes, pos, w, u), pos, w) == u % pow256(w),
    decreases w,
{
    if w > 0 {
        let b2 = bytes.update(pos, (u % 0x100) as u8);
        lemma_store_unsigned(b2, pos + 1, (w - 1) as nat, u / 0x100);
        let s = store_unsigned(b2, pos + 1, (w - 1) as nat, u / 0x100);
        assert(s[pos] == (u % 0x100) as u8);
        lemma_div_mod_256(u, (w - 1) as nat);
    }
}

/// `256^w`.
pub open spec fn pow256(w: nat) -> int
    decreases w,
{
    if w == 0 {
        1
    } else {
        0x100 * pow256((w - 1) as nat)
    }
}

proof fn lemma_pow256_positive(w: nat)
    ensures
        pow256(w) > 0,
    decreases w,
{
    if w > 0 {
        lemma_pow256_positive((w - 1) as nat);
    }
}

proof fn lemma_div_mod_256(u: int, w: nat)
    requires
        0 <= u,
    ensures
        u % 0x100 + 0x100 * ((u / 0x100) % pow256(w)) == u % pow256(w + 1),
{
    lemma_pow256_positive(w);
    let p = pow256(w);
    assert(pow256(w + 1) == 0x100 * p);
    vstd::arithmetic::div_mod::lemma_breakdown(u, 0x100, p);
}

/// A view over linear memory whose elements are of kind `kind` and start at
/// byte `offset`. The memory itself belongs to the instance and is handed in
/// on each access, so every access sees its current length.
#[derive(Clone, Copy, Debug, PartialEq, Eq, Structural)]
pub struct MemoryView {
    pub kind: ElementKind,
    pub offset: usize,
}

/// A view of unsigned bytes from `offset` on.
pub fn new_uint8_memory_view(offset: usize) -> (r: MemoryView)
    ensures
        r == (MemoryView { kind: ElementKind::U8, offset }),
{
    MemoryView { kind: ElementKind::U8, offset }
}

/// A view of signed bytes from `offset` on.
pub fn new_int8_memory_view(offset: usize) -> (r: MemoryView)
    ensures
        r == (MemoryView { kind: ElementKind::I8, offset }),
{
    MemoryView { kind: ElementKind::I8, offset }
}

/// A view of unsigned 16-bit elements from `offset` on.
pub fn new_uint16_memory_view(offset: usize) -> (r: MemoryView)
    ensures
        r == (MemoryView { kind: ElementKind::U16, offset }),
{
    MemoryView { kind: ElementKind::U16, offset }
}

/// A view of signed 16-bit elements from `offset` on.
pub fn new_int16_memory_view(offset: usize) -> (r: MemoryView)
    ensures
        r == (MemoryView { kind: ElementKind::I16, offset }),
{
    MemoryView { kind: ElementKind::I16, offset }
}

/// A view of unsigned 32-bit elements from `offset` on.
pub fn new_uint32_memory_view(offset: usize) -> (r: MemoryView)
    ensures
        r == (MemoryView { kind: ElementKind::U32, offset }),
{
    MemoryView { kind: ElementKind::U32, offset }
}

/// A view of signed 32-bit elements from `offset` on.
pub fn new_int32_memory_view(offset: usize) -> (r: MemoryView)
    ensures
        r == (MemoryView { kind: ElementKind::I32, offset }),
{
    MemoryView { kind: ElementKind::I32, offset }
}

proof fn lemma_index_fits(index: nat, len: nat, offset: nat, w: nat)
    requires
        0 < w,
        offset < len,
        index < ((len - offset) as nat / w) as nat,
    ensures
        offset + index * w + w <= len,
{
    assert(index * w + w <= len - offset) by (nonlinear_arith)
        requires
            0 < w,
            index < ((len - offset) as nat / w) as nat,
            offset < len,
    ;
}

impl MemoryView {
    pub open spec fn spec_width(&self) -> nat {
        width_of(self.kind)
    }

    /// The byte at which element `index` starts.
    pub open spec fn position(&self, index: int) -> int {
        self.offset + index * self.spec_width()
    }

    /// The width of an element in bytes.
    pub fn width(&self) -> (r: usize)
        ensures
            r == self.spec_width(),
    {
        match self.kind {
            ElementKind::U8 | ElementKind::I8 => 1,
            ElementKind::U16 | ElementKind::I16 => 2,
            ElementKind::U32 | ElementKind::I32 => 4,
        }
    }

    /// The number of whole elements from the offset to the end of `memory`
    /// as it is now.
    pub fn length(&self, memory: &Vec<u8>) -> (r: usize)
        ensures
            r == view_length(memory@.len(), self.offset as nat, self.spec_width()),
    {
        let w = self.width();
        if self.offset >= memory.len() {
            0
        } else {
            (memory.len() - self.offset) / w
        }
    }

    /// The element at `index`.
    pub fn get(&self, memory: &Vec<u8>, index: usize) -> (r: Result<i64, MemoryError>)
        ensures
            index < view_length(memory@.len(), self.offset as nat, self.spec_width()) ==> r is Ok
                && r->Ok_0 == element_at(memory@, self.position(index as int), self.kind),
            index >= view_length(memory@.len(), self.offset as nat, self.spec_width()) ==> r
                == Err::<i64, MemoryError>(
                MemoryError::OutOfBounds {
                    index,
                    length: view_length(memory@.len(), self.offset as nat, self.spec_width()) as usize,
                },
            ),
    {
        let length = self.length(memory);
        let n = memory.len();
        if index >= length {
            return Err(MemoryError::OutOfBounds { index, length });
        }
        let w = self.width();
        proof {
            lemma_index_fits(index as nat, n as nat, self.offset as nat, w as nat);
        }
        let pos = self.offset + index * w;
        let b0 = memory[pos] as i64;
        let u: i64 = if w == 1 {
            b0
        } else if w == 2 {
            b0 + 0x100 * (memory[pos + 1] as i64)
        } else {
            b0 + 0x100 * (memory[pos + 1] as i64 + 0x100 * (memory[pos + 2] as i64 + 0x100
                * (memory[pos + 3] as i64)))
        };
        proof {
            reveal_with_fuel(unsigned_at, 5);
        }
        let signed = match self.kind {
            ElementKind::I8 | ElementKind::I16 | ElementKind::I32 => true,
            _ => false,
        };
        let half: i64 = if w == 1 {
            0x80
        } else if w == 2 {
            0x8000
        } else {
            0x8000_0000
        };
        if signed && u >= half {
            Ok(u - 2 * half)
        } else {
            Ok(u)
        }
    }

    /// Writes `value` as the element at `index`. Nothing is written when the
    /// index is out of bounds or the value does not fit the element type.
    pub fn set(&self, memory: &mut Vec<u8>, index: usize, value: i64) -> (r: Result<(), MemoryError>)
        ensures
            index >= view_length(old(memory)@.len(), self.offset as nat, self.spec_width()) ==> r
                == Err::<(), MemoryError>(
                MemoryError::OutOfBounds {
                    index,
                    length: view_length(old(memory)@.len(), self.offset as nat, self.spec_width()) as usize,
                },
            ),
            index < view_length(old(memory)@.len(), self.offset as nat, self.spec_width())
                && !in_range(self.kind, value as int) ==> r == Err::<(), MemoryError>(
                MemoryError::ValueOutOfRange,
            ),
            r is Err ==> final(memory)@ == old(memory)@,
            index < view_length(old(memory)@.len(), self.offset as nat, self.spec_width())
                && in_range(self.kind, value as int) ==> r is Ok && final(memory)@ == store_element(
                old(memory)@,
                self.position(index as int),
                self.kind,
                value as int,
            ),
    {
        let length = self.length(memory);
        let n = memory.len();
        if index >= length {
            return Err(MemoryError::OutOfBounds { index, length });
        }
        let w = self.width();
        let modulus: i64 = if w == 1 {
            0x100
        } else if w == 2 {
            0x1_0000
        } else {
            0x1_0000_0000
        };
        let signed = match self.kind {
            ElementKind::I8 | ElementKind::I16 | ElementKind::I32 => true,
            _ => false,
        };
        let fits = if signed {
            -(modulus / 2) <= value && value < modulus / 2
        } else {
            0 <= value && value < modulus
        };
        if !fits {
            return Err(MemoryError::ValueOutOfRange);
        }
        proof {
            lemma_index_fits(index as nat, n as nat, self.offset as nat, w as nat);
        }
        let pos = self.offset + index * w;
        let mut q: i64 = if value < 0 {
            value + modulus
        } else {
            value
        };
        let ghost target = store_element(old(memory)@, pos as int, self.kind, value as int);
        let mut j: usize = 0;
        while j < w
            invariant
                j <= w,
                w == self.spec_width(),
                pos + w <= n,
                n == memory@.len(),
                memory@.len() == old(memory)@.len(),
                0 <= q,
                target == store_unsigned(memory@, pos + j, (w - j) as nat, q as int),
            decreases w - j,
        {
            memory.set(pos + j, (q % 0x100) as u8);
            q = q / 0x100;
            j = j + 1;
        }
        Ok(())
    }
}

proof fn lemma_store_then_load(bytes: Seq<u8>, pos: int, k: ElementKind, v: int)
    requires
        0 <= pos,
        pos + width_of(k) <= bytes.len(),
        in_range(k, v),
    ensures
        element_at(store_element(bytes, pos, k, v), pos, k) == v,
        store_element(bytes, pos, k, v).len() == bytes.len(),
{
    reveal_with_fuel(pow256, 5);
    lemma_store_unsigned(bytes, pos, width_of(k), pattern_of(k, v));
    assert(pow256(width_of(k)) == modulus(k));
    let u = pattern_of(k, v);
    assert(0 <= u < modulus(k));
    vstd::arithmetic::div_mod::lemma_small_mod(u as nat, modulus(k) as nat);
}

/// Through a view, setting an in-range value at an index within the current
/// length and then getting that index gives the value back; the memory keeps
/// its length, so the view keeps its length too.
pub proof fn lemma_set_then_get(view: MemoryView, bytes: Seq<u8>, index: nat, v: int)
    requires
        index < view_length(bytes.len(), view.offset as nat, view.spec_width()),
        in_range(view.kind, v),
    ensures
        store_element(bytes, view.position(index as int), view.kind, v).len() == bytes.len(),
        element_at(
            store_element(bytes, view.position(index as int), view.kind, v),
            view.position(index as int),
            view.kind,
        ) == v,
{
    lemma_index_fits(index, bytes.len(), view.offset as nat, view.spec_width());
    lemma_store_then_load(bytes, view.position(index as int), view.kind, v);
}

} // verus!
