//! The two fatal error classes of the lowering core: constructs the target
//! format cannot represent, and states an upstream collaborator must make
//! impossible. Both abort the enclosing compilation unit's translation;
//! there is no degraded-mode path.

use vstd::prelude::*;

verus! {

/// A construct the target format cannot represent.
#[derive(Clone, Copy, Debug, PartialEq, Eq)]
pub enum UnsupportedKind {
    /// An 8-bit integer constant, signed or unsigned.
    Int8,
    /// A 128-bit integer constant, signed or unsigned.
    Int128,
    /// A character constant.
    Char,
    /// A string constant.
    Str,
    /// A byte-string constant.
    ByteStr,
    /// An aggregate constant: struct, tuple, array or repeat.
    Aggregate,
    /// A constant referring to a function.
    Function,
    /// A promoted rvalue literal; not lowered at this layer.
    Promoted,
    /// A store into a storage-location kind other than a direct value slot.
    StoreLocation,
}

/// A state the front-end and earlier passes are supposed to make impossible.
#[derive(Clone, Copy, Debug, PartialEq, Eq)]
pub enum InternalKind {
    /// An inference placeholder literal survived to lowering.
    InferLiteral,
    /// A type with unresolved generic parameters reached lowering.
    UnresolvedType,
    /// A constant's type resolved to a pointer-wrapped shader type.
    RefConstant,
    /// A "no value" operand reached the store protocol.
    NullStore,
}

/// A fatal lowering error: the source uses a construct the target cannot
/// represent (a user-facing diagnostic), or an upstream invariant was broken
/// (an internal error).
#[derive(Clone, Copy, Debug, PartialEq, Eq)]
pub enum LowerError {
    Unsupported(UnsupportedKind),
    Internal(InternalKind),
}

} // verus!
