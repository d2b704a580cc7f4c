//! Constant lowering: a typed source constant becomes one constant-pool
//! entry in the binary module and a typed value handle. The numeric policy is
//! fixed and exhaustive: booleans, 16/32/64-bit integers and 32/64-bit floats
//! lower at their width, platform-width integers resolve to 64 bits, and
//! every other constant kind is a fatal error.

use vstd::prelude::*;
use crate::const_math::{ConstFloat, ConstInt, IntWidth};
use crate::context::{CrateContext, MirContext};
use crate::error::{InternalKind, LowerError, UnsupportedKind};
use crate::lvalue::ValueRef;
use crate::mir::{self, is_monomorphic, ConstVal, Literal, Ty};
use crate::module::{Constant, ConstValue, ConstValueFloat, Id, PoolEntry, SpvType};
use crate::operand::{OperandRef, OperandValue};
use crate::type_of::{spec_spv_type_of, spv_type_of};

verus! {

/// A lowered, sized constant: its value (a module value, or "no value") and
/// its source type.
#[derive(Debug, PartialEq, Eq)]
pub struct Const {
    pub val: ConstRef,
    pub ty: Ty,
}

/// The value of a lowered constant: a reference into the module, or no
/// materializable value (a deferred item reference; legitimate, not an
/// error).
#[derive(Debug, PartialEq, Eq)]
pub enum ConstRef {
    Value(ValueRef),
    Null,
}

/// Whether the target can represent constant value `cv`.
pub open spec fn supported_constval(cv: ConstVal) -> bool {
    match cv {
        ConstVal::Bool(_) => true,
        ConstVal::Float(f) => f matches ConstFloat::F32(_) || f matches ConstFloat::F64(_),
        ConstVal::Integral(i) => match i {
            ConstInt::I16(_) | ConstInt::I32(_) | ConstInt::I64(_) | ConstInt::Isize(_) => true,
            ConstInt::U16(_) | ConstInt::U32(_) | ConstInt::U64(_) | ConstInt::Usize(_) => true,
            _ => false,
        },
        _ => false,
    }
}

/// The pool value a supported constant lowers to: a scalar or float of the
/// matching width, with platform-width integers resolved to 64 bits.
pub open spec fn spec_lowered_constant(cv: ConstVal) -> Constant
    recommends
        supported_constval(cv),
{
    match cv {
        ConstVal::Bool(v) => Constant::Scalar(ConstValue::Bool(v)),
        ConstVal::Float(ConstFloat::F32(bits)) => Constant::Float(ConstValueFloat::F32(bits)),
        ConstVal::Float(ConstFloat::F64(bits)) => Constant::Float(ConstValueFloat::F64(bits)),
        ConstVal::Integral(ConstInt::I16(v)) => Constant::Scalar(ConstValue::I16(v)),
        ConstVal::Integral(ConstInt::I32(v)) => Constant::Scalar(ConstValue::I32(v)),
        ConstVal::Integral(ConstInt::I64(v)) => Constant::Scalar(ConstValue::I64(v)),
        ConstVal::Integral(ConstInt::Isize(v)) => Constant::Scalar(ConstValue::I64(v.spec_as_i64())),
        ConstVal::Integral(ConstInt::U16(v)) => Constant::Scalar(ConstValue::U16(v)),
        ConstVal::Integral(ConstInt::U32(v)) => Constant::Scalar(ConstValue::U32(v)),
        ConstVal::Integral(ConstInt::U64(v)) => Constant::Scalar(ConstValue::U64(v)),
        ConstVal::Integral(ConstInt::Usize(v)) => Constant::Scalar(ConstValue::U64(v.spec_as_u64())),
        _ => arbitrary(),
    }
}

/// The error an unsupported or ill-formed constant value surfaces, before the
/// type is consulted: unrepresentable kinds are user-facing diagnostics,
/// inference placeholders are internal errors.
pub open spec fn spec_constval_error(cv: ConstVal) -> Option<LowerError> {
    match cv {
        ConstVal::Bool(_) => None,
        ConstVal::Float(f) => match f {
            ConstFloat::F32(_) | ConstFloat::F64(_) => None,
            ConstFloat::FInfer => Some(LowerError::Internal(InternalKind::InferLiteral)),
        },
        ConstVal::Integral(i) => match i {
            ConstInt::I16(_) | ConstInt::I32(_) | ConstInt::I64(_) | ConstInt::Isize(_) => None,
            ConstInt::U16(_) | ConstInt::U32(_) | ConstInt::U64(_) | ConstInt::Usize(_) => None,
            ConstInt::I8(_) | ConstInt::U8(_) => Some(
                LowerError::Unsupported(UnsupportedKind::Int8),
            ),
            ConstInt::I128(_) | ConstInt::U128(_) => Some(
                LowerError::Unsupported(UnsupportedKind::Int128),
            ),
            ConstInt::Infer(_) | ConstInt::InferSigned(_) => Some(
                LowerError::Internal(InternalKind::InferLiteral),
            ),
        },
        ConstVal::Char(_) => Some(LowerError::Unsupported(UnsupportedKind::Char)),
        ConstVal::Str => Some(LowerError::Unsupported(UnsupportedKind::Str)),
        ConstVal::ByteStr => Some(LowerError::Unsupported(UnsupportedKind::ByteStr)),
        ConstVal::Struct | ConstVal::Tuple | ConstVal::Array | ConstVal::Repeat => Some(
            LowerError::Unsupported(UnsupportedKind::Aggregate),
        ),
        ConstVal::Function => Some(LowerError::Unsupported(UnsupportedKind::Function)),
    }
}

/// The exact outcome class of lowering `cv` at type `ty`: `None` exactly when
/// a handle is owed, otherwise the error surfaced. The constant value is
/// judged first; then its type must resolve to a shader type that is not
/// pointer-wrapped.
pub open spec fn spec_lower_error(cv: ConstVal, ty: Ty) -> Option<LowerError> {
    if spec_constval_error(cv) is Some {
        spec_constval_error(cv)
    } else {
        match spec_spv_type_of(ty) {
            Err(e) => Some(e),
            Ok(t) => if t.is_ref() {
                Some(LowerError::Internal(InternalKind::RefConstant))
            } else {
                None
            },
        }
    }
}

/// Relation between constant pools: `post` extends `pre` by exactly the entry
/// lowering `cv` defines, under identifier `id`.
pub open spec fn lowers_const(pre: Seq<PoolEntry>, post: Seq<PoolEntry>, id: Id, cv: ConstVal) -> bool {
    post == pre.push(PoolEntry { id, value: spec_lowered_constant(cv) })
}

/// The front-end carries platform-width integer constants at the width the
/// target is configured for.
pub open spec fn widths_match(cv: ConstVal, int_width: IntWidth, uint_width: IntWidth) -> bool {
    &&& (cv matches ConstVal::Integral(ConstInt::Isize(v)) ==> v.width() == int_width)
    &&& (cv matches ConstVal::Integral(ConstInt::Usize(v)) ==> v.width() == uint_width)
}

/// The effect of successfully lowering `cv` at type `ty` on the crate
/// context: the pool gains exactly one entry holding `cv`'s lowered value
/// under the next fresh identifier, nothing else changes, and the returned
/// handle `v` carries that identifier and the shader representation of `ty`,
/// never a pointer-wrapped one.
pub open spec fn lower_ok_effect(pre: CrateContext, post: CrateContext, cv: ConstVal, ty: Ty, v: ValueRef) -> bool {
    &&& spec_lower_error(cv, ty) is None
    &&& (spec_spv_type_of(ty) matches Ok(t) && v.spvty == t)
    &&& !v.spvty.is_ref()
    &&& v.spvid == pre.builder.next_id
    &&& post.builder.next_id == pre.builder.next_id + 1
    &&& lowers_const(pre.builder.constants@, post.builder.constants@, v.spvid, cv)
    &&& post.builder.types@ == pre.builder.types@
    &&& post.int_width == pre.int_width
    &&& post.uint_width == pre.uint_width
}

impl Const {
    /// Pair a constant value with its source type.
    pub fn new(val: ConstRef, ty: Ty) -> (r: Const)
        ensures
            r == (Const { val, ty }),
    {
        Const { val, ty }
    }

    /// Lower a source constant value at its resolved source type into the
    /// module's constant pool.
    ///
    /// Succeeds exactly on the kinds the target represents — booleans,
    /// 16/32/64-bit and platform-width integers, 32/64-bit floats — at a type
    /// whose shader representation exists and is not pointer-wrapped; it then
    /// interns one pool entry under one fresh identifier and returns the
    /// typed handle. Every other kind fails with the error
    /// `spec_lower_error` names, leaving the module untouched.
    pub fn from_constval(ccx: &mut CrateContext, cv: ConstVal, ty: Ty) -> (r: Result<
        Const,
        LowerError,
    >)
        requires
            old(ccx).wf(),
            old(ccx).builder.next_id < Id::MAX,
            ty.monomorphic(),
            widths_match(cv, old(ccx).int_width, old(ccx).uint_width),
        ensures
            final(ccx).wf(),
            r is Ok <==> spec_lower_error(cv, ty) is None,
            (r matches Ok(c) ==> c.ty == ty && (c.val matches ConstRef::Value(v)
                && lower_ok_effect(*old(ccx), *final(ccx), cv, ty, v))),
            (r matches Err(e) ==> Some(e) == spec_lower_error(cv, ty) && *final(ccx) == *old(
                ccx,
            )),
    {
        let const_val: Constant = match cv {
            ConstVal::Float(ConstFloat::F32(v)) => Constant::Float(ConstValueFloat::F32(v)),
            ConstVal::Float(ConstFloat::F64(v)) => Constant::Float(ConstValueFloat::F64(v)),
            ConstVal::Float(ConstFloat::FInfer) => {
                return Err(LowerError::Internal(InternalKind::InferLiteral));
            },
            ConstVal::Bool(v) => Constant::Scalar(ConstValue::Bool(v)),
            ConstVal::Integral(ConstInt::I8(_)) => {
                return Err(LowerError::Unsupported(UnsupportedKind::Int8));
            },
            ConstVal::Integral(ConstInt::I16(v)) => Constant::Scalar(ConstValue::I16(v)),
            ConstVal::Integral(ConstInt::I32(v)) => Constant::Scalar(ConstValue::I32(v)),
            ConstVal::Integral(ConstInt::I64(v)) => Constant::Scalar(ConstValue::I64(v)),
            ConstVal::Integral(ConstInt::Isize(v)) => {
                let i: i64 = v.as_i64(ccx.int_width);
                Constant::Scalar(ConstValue::I64(i))
            },
            ConstVal::Integral(ConstInt::I128(_)) => {
                return Err(LowerError::Unsupported(UnsupportedKind::Int128));
            },
            ConstVal::Integral(ConstInt::U8(_)) => {
                return Err(LowerError::Unsupported(UnsupportedKind::Int8));
            },
            ConstVal::Integral(ConstInt::U16(v)) => Constant::Scalar(ConstValue::U16(v)),
            ConstVal::Integral(ConstInt::U32(v)) => Constant::Scalar(ConstValue::U32(v)),
            ConstVal::Integral(ConstInt::U64(v)) => Constant::Scalar(ConstValue::U64(v)),
            ConstVal::Integral(ConstInt::Usize(v)) => {
                let u: u64 = v.as_u64(ccx.uint_width);
                Constant::Scalar(ConstValue::U64(u))
            },
            ConstVal::Integral(ConstInt::U128(_)) => {
                return Err(LowerError::Unsupported(UnsupportedKind::Int128));
            },
            ConstVal::Char(_) => {
                return Err(LowerError::Unsupported(UnsupportedKind::Char));
            },
            ConstVal::Integral(ConstInt::Infer(_)) | ConstVal::Integral(
                ConstInt::InferSigned(_),
            ) => {
                return Err(LowerError::Internal(InternalKind::InferLiteral));
            },
            ConstVal::Str => {
                return Err(LowerError::Unsupported(UnsupportedKind::Str));
            },
            ConstVal::ByteStr => {
                return Err(LowerError::Unsupported(UnsupportedKind::ByteStr));
            },
            ConstVal::Struct | ConstVal::Tuple | ConstVal::Array | ConstVal::Repeat => {
                return Err(LowerError::Unsupported(UnsupportedKind::Aggregate));
            },
            ConstVal::Function => {
                return Err(LowerError::Unsupported(UnsupportedKind::Function));
            },
        };

        let spv_ty: SpvType = match spv_type_of(&ty) {
            Ok(t) => t,
            Err(e) => {
                return Err(e);
            },
        };
        if let SpvType::Ref(_) = spv_ty {
            return Err(LowerError::Internal(InternalKind::RefConstant));
        }

        let constant_id: Id = ccx.builder.define_constant(const_val);
        let value = ValueRef { spvid: constant_id, spvty: spv_ty };
        Ok(Const::new(ConstRef::Value(value), ty))
    }

    /// Wrap a lowered constant as an operand: a module value becomes a usable
    /// immediate, a deferred "no value" stays "no value".
    pub fn to_operand(self) -> (r: OperandRef)
        ensures
            r.ty == self.ty,
            (self.val matches ConstRef::Value(v) ==> r.val == OperandValue::Immediate(v)),
            (self.val is Null ==> r.val is Null),
    {
        let val: OperandValue = match self.val {
            ConstRef::Value(v) => OperandValue::Immediate(v),
            ConstRef::Null => OperandValue::Null,
        };
        OperandRef { val, ty: self.ty }
    }
}

impl MirContext {
    /// Translate one IR constant node: monomorphize its type, then defer an
    /// item reference as "no value", reject a promoted rvalue, and lower a
    /// direct value into the constant pool. A type still carrying generic
    /// parameters after monomorphization is an internal error.
    pub fn trans_constant(&mut self, constant: &mir::Constant) -> (r: Result<Const, LowerError>)
        requires
            old(self).wf(),
            old(self).ccx.builder.next_id < Id::MAX,
            (constant.literal matches Literal::Value { value } ==> widths_match(
                value,
                old(self).ccx.int_width,
                old(self).ccx.uint_width,
            )),
        ensures
            final(self).wf(),
            final(self).block == old(self).block,
            final(self).locals@ == old(self).locals@,
            final(self).substs@ == old(self).substs@,
            ({
                let ty = old(self).spec_monomorphize(constant.ty);
                match constant.literal {
                    Literal::Item { .. } => r matches Ok(c) && c == (Const {
                        val: ConstRef::Null,
                        ty,
                    }) && *final(self) == *old(self),
                    Literal::Promoted { .. } => r == Err::<Const, LowerError>(
                        LowerError::Unsupported(UnsupportedKind::Promoted),
                    ) && *final(self) == *old(self),
                    Literal::Value { value } => if !ty.monomorphic() {
                        r == Err::<Const, LowerError>(
                            LowerError::Internal(InternalKind::UnresolvedType),
                        ) && *final(self) == *old(self)
                    } else {
                        &&& (r is Ok <==> spec_lower_error(value, ty) is None)
                        &&& (r matches Ok(c) ==> c.ty == ty && (c.val matches ConstRef::Value(v)
                            && lower_ok_effect(old(self).ccx, final(self).ccx, value, ty, v)))
                        &&& (r matches Err(e) ==> Some(e) == spec_lower_error(value, ty)
                            && *final(self) == *old(self))
                    },
                }
            }),
    {
        let ty: Ty = self.monomorphize(&constant.ty);
        match &constant.literal {
            Literal::Item { .. } => Ok(Const::new(ConstRef::Null, ty)),
            Literal::Promoted { .. } => Err(LowerError::Unsupported(UnsupportedKind::Promoted)),
            Literal::Value { value } => {
                if !is_monomorphic(&ty) {
                    Err(LowerError::Internal(InternalKind::UnresolvedType))
                } else {
                    Const::from_constval(&mut self.ccx, *value, ty)
                }
            },
        }
    }
}

/// Law: rejection is complete. A constant value the target cannot represent
/// never lowers, whatever its type: the outcome of lowering it is an error,
/// so `from_constval` never returns a handle for it.
pub proof fn lemma_rejection_complete(cv: ConstVal, ty: Ty)
    requires
        !supported_constval(cv),
    ensures
        spec_lower_error(cv, ty) is Some,
{
}

/// Law: constant lowering is deterministic. Two lowerings of the same
/// constant value, into any two modules, define pool entries whose values are
/// equal — the identifiers may differ, but the represented value never
/// depends on the module state, and is the one the numeric policy names.
pub proof fn lemma_lowering_deterministic(
    p1: Seq<PoolEntry>,
    q1: Seq<PoolEntry>,
    i1: Id,
    p2: Seq<PoolEntry>,
    q2: Seq<PoolEntry>,
    i2: Id,
    cv: ConstVal,
)
    requires
        lowers_const(p1, q1, i1, cv),
        lowers_const(p2, q2, i2, cv),
    ensures
        q1.len() == p1.len() + 1,
        q2.len() == p2.len() + 1,
        q1.last().value == spec_lowered_constant(cv),
        q1.last().value == q2.last().value,
{
}

} // verus!
