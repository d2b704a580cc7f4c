//! Source-level numeric constant payloads: the integer and floating-point
//! values a front-end constant node can carry before lowering.

use vstd::prelude::*;

verus! {

/// The bit width a platform-dependent integer resolves to on the target.
#[derive(Clone, Copy, Debug, PartialEq, Eq)]
pub enum IntWidth {
    W16,
    W32,
    W64,
}

/// A pointer-width signed integer, carried at the width the front-end chose.
#[derive(Clone, Copy, Debug, PartialEq, Eq)]
pub enum ConstIsize {
    Is16(i16),
    Is32(i32),
    Is64(i64),
}

impl ConstIsize {
    /// The width the value is carried at.
    pub open spec fn width(self) -> IntWidth {
        match self {
            ConstIsize::Is16(_) => IntWidth::W16,
            ConstIsize::Is32(_) => IntWidth::W32,
            ConstIsize::Is64(_) => IntWidth::W64,
        }
    }

    /// The carried value, read as a 64-bit integer.
    pub open spec fn spec_as_i64(self) -> i64 {
        match self {
            ConstIsize::Is16(v) => v as i64,
            ConstIsize::Is32(v) => v as i64,
            ConstIsize::Is64(v) => v,
        }
    }

    /// Resolve to 64 bits. The target's configured native width must match
    /// the width the value is carried at; the front-end guarantees this.
    pub fn as_i64(self, target_int_width: IntWidth) -> (r: i64)
        requires
            self.width() == target_int_width,
        ensures
            r == self.spec_as_i64(),
    {
        match self {
            ConstIsize::Is16(v) => v as i64,
            ConstIsize::Is32(v) => v as i64,
            ConstIsize::Is64(v) => v,
        }
    }
}

/// A pointer-width unsigned integer, carried at the width the front-end
/// chose.
#[derive(Clone, Copy, Debug, PartialEq, Eq)]
pub enum ConstUsize {
    Us16(u16),
    Us32(u32),
    Us64(u64),
}

impl ConstUsize {
    /// The width the value is carried at.
    pub open spec fn width(self) -> IntWidth {
        match self {
            ConstUsize::Us16(_) => IntWidth::W16,
            ConstUsize::Us32(_) => IntWidth::W32,
            ConstUsize::Us64(_) => IntWidth::W64,
        }
    }

    /// The carried value, read as a 64-bit integer.
    pub open spec fn spec_as_u64(self) -> u64 {
        match self {
            ConstUsize::Us16(v) => v as u64,
            ConstUsize::Us32(v) => v as u64,
            ConstUsize::Us64(v) => v,
        }
    }

    /// Resolve to 64 bits. The target's configured native width must match
    /// the width the value is carried at; the front-end guarantees this.
    pub fn as_u64(self, target_uint_width: IntWidth) -> (r: u64)
        requires
            self.width() == target_uint_width,
        ensures
            r == self.spec_as_u64(),
    {
        match self {
            ConstUsize::Us16(v) => v as u64,
            ConstUsize::Us32(v) => v as u64,
            ConstUsize::Us64(v) => v,
        }
    }
}

/// A typed integer constant as the front-end carries it. `Infer` and
/// `InferSigned` are inference placeholders; the front-end must resolve them
/// before lowering.
#[derive(Clone, Copy, Debug, PartialEq, Eq)]
pub enum ConstInt {
    I8(i8),
    I16(i16),
    I32(i32),
    I64(i64),
    I128(i128),
    Isize(ConstIsize),
    U8(u8),
    U16(u16),
    U32(u32),
    U64(u64),
    U128(u128),
    Usize(ConstUsize),
    Infer(u64),
    InferSigned(i64),
}

/// A floating-point constant, held as its IEEE-754 bit pattern. `FInfer` is
/// an inference placeholder; the front-end must resolve it before lowering.
#[derive(Clone, Copy, Debug, PartialEq, Eq)]
pub enum ConstFloat {
    /// A 32-bit float, as its bit pattern.
    F32(u32),
    /// A 64-bit float, as its bit pattern.
    F64(u64),
    FInfer,
}

} // verus!
