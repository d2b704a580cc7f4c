//! Resolution of source types to the shader types the binary module
//! represents.

use vstd::prelude::*;
use crate::error::{InternalKind, LowerError, UnsupportedKind};
use crate::mir::{FloatTy, IntTy, Ty, UintTy};
use crate::module::SpvType;

verus! {

/// The shader representation of a source type, or the error its resolution
/// surfaces. Platform-width integers resolve to a fixed 64-bit width; 8-bit
/// and 128-bit integers and `char` have no representation on the target; an
/// unresolved generic parameter is an internal error, since monomorphization
/// must be complete before lowering.
pub open spec fn spec_spv_type_of(ty: Ty) -> Result<SpvType, LowerError>
    decreases ty,
{
    match ty {
        Ty::Bool => Ok(SpvType::Bool),
        Ty::Int(IntTy::I8) => Err(LowerError::Unsupported(UnsupportedKind::Int8)),
        Ty::Int(IntTy::I16) => Ok(SpvType::Int(16, true)),
        Ty::Int(IntTy::I32) => Ok(SpvType::Int(32, true)),
        Ty::Int(IntTy::I64) => Ok(SpvType::Int(64, true)),
        Ty::Int(IntTy::I128) => Err(LowerError::Unsupported(UnsupportedKind::Int128)),
        Ty::Int(IntTy::Isize) => Ok(SpvType::Int(64, true)),
        Ty::Uint(UintTy::U8) => Err(LowerError::Unsupported(UnsupportedKind::Int8)),
        Ty::Uint(UintTy::U16) => Ok(SpvType::Int(16, false)),
        Ty::Uint(UintTy::U32) => Ok(SpvType::Int(32, false)),
        Ty::Uint(UintTy::U64) => Ok(SpvType::Int(64, false)),
        Ty::Uint(UintTy::U128) => Err(LowerError::Unsupported(UnsupportedKind::Int128)),
        Ty::Uint(UintTy::Usize) => Ok(SpvType::Int(64, false)),
        Ty::Float(FloatTy::F32) => Ok(SpvType::Float(32)),
        Ty::Float(FloatTy::F64) => Ok(SpvType::Float(64)),
        Ty::Char => Err(LowerError::Unsupported(UnsupportedKind::Char)),
        Ty::Vector(base, n) => match spec_spv_type_of(*base) {
            Ok(t) => Ok(SpvType::Vector(Box::new(t), n)),
            Err(e) => Err(e),
        },
        Ty::Ref(inner) => match spec_spv_type_of(*inner) {
            Ok(t) => Ok(SpvType::Ref(Box::new(t))),
            Err(e) => Err(e),
        },
        Ty::Param(_) => Err(LowerError::Internal(InternalKind::UnresolvedType)),
    }
}

/// Resolve a source type to its shader representation.
pub fn spv_type_of(ty: &Ty) -> (r: Result<SpvType, LowerError>)
    ensures
        r == spec_spv_type_of(*ty),
    decreases ty,
{
    match ty {
        Ty::Bool => Ok(SpvType::Bool),
        Ty::Int(IntTy::I8) => Err(LowerError::Unsupported(UnsupportedKind::Int8)),
        Ty::Int(IntTy::I16) => Ok(SpvType::Int(16, true)),
        Ty::Int(IntTy::I32) => Ok(SpvType::Int(32, true)),
        Ty::Int(IntTy::I64) => Ok(SpvType::Int(64, true)),
        Ty::Int(IntTy::I128) => Err(LowerError::Unsupported(UnsupportedKind::Int128)),
        Ty::Int(IntTy::Isize) => Ok(SpvType::Int(64, true)),
        Ty::Uint(UintTy::U8) => Err(LowerError::Unsupported(UnsupportedKind::Int8)),
        Ty::Uint(UintTy::U16) => Ok(SpvType::Int(16, false)),
        Ty::Uint(UintTy::U32) => Ok(SpvType::Int(32, false)),
        Ty::Uint(UintTy::U64) => Ok(SpvType::Int(64, false)),
        Ty::Uint(UintTy::U128) => Err(LowerError::Unsupported(UnsupportedKind::Int128)),
        Ty::Uint(UintTy::Usize) => Ok(SpvType::Int(64, false)),
        Ty::Float(FloatTy::F32) => Ok(SpvType::Float(32)),
        Ty::Float(FloatTy::F64) => Ok(SpvType::Float(64)),
        Ty::Char => Err(LowerError::Unsupported(UnsupportedKind::Char)),
        Ty::Vector(base, n) => match spv_type_of(&**base) {
            Ok(t) => Ok(SpvType::Vector(Box::new(t), *n)),
            Err(e) => Err(e),
        },
        Ty::Ref(inner) => match spv_type_of(&**inner) {
            Ok(t) => Ok(SpvType::Ref(Box::new(t))),
            Err(e) => Err(e),
        },
        Ty::Param(_) => Err(LowerError::Internal(InternalKind::UnresolvedType)),
    }
}

} // verus!
