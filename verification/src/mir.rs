//! The slice of the mid-level IR this core consumes: source types, constant
//! nodes, operands and lvalues.

use vstd::prelude::*;
use crate::const_math::{ConstFloat, ConstInt};

verus! {

/// Signed integer types of the source language.
#[derive(Clone, Copy, Debug, PartialEq, Eq)]
pub enum IntTy {
    I8,
    I16,
    I32,
    I64,
    I128,
    Isize,
}

/// Unsigned integer types of the source language.
#[derive(Clone, Copy, Debug, PartialEq, Eq)]
pub enum UintTy {
    U8,
    U16,
    U32,
    U64,
    U128,
    Usize,
}

/// Floating-point types of the source language.
#[derive(Clone, Copy, Debug, PartialEq, Eq)]
pub enum FloatTy {
    F32,
    F64,
}

/// A source-language type, as far as this core reads it. `Param` is an
/// unresolved generic parameter, to be replaced by monomorphization before
/// lowering.
#[derive(Debug, PartialEq, Eq)]
pub enum Ty {
    Bool,
    Int(IntTy),
    Uint(UintTy),
    Float(FloatTy),
    Char,
    /// A vector of a base type and a component count.
    Vector(Box<Ty>, u32),
    /// A reference to another type.
    Ref(Box<Ty>),
    /// A generic type parameter, by its index into the substitution list.
    Param(usize),
}

impl Ty {
    /// Whether the type carries no unresolved generic parameter.
    pub open spec fn monomorphic(self) -> bool
        decreases self,
    {
        match self {
            Ty::Vector(base, _) => base.monomorphic(),
            Ty::Ref(inner) => inner.monomorphic(),
            Ty::Param(_) => false,
            _ => true,
        }
    }
}

impl Clone for Ty {
    fn clone(&self) -> (r: Self)
        ensures
            r == *self,
        decreases self,
    {
        match self {
            Ty::Bool => Ty::Bool,
            Ty::Int(t) => Ty::Int(*t),
            Ty::Uint(t) => Ty::Uint(*t),
            Ty::Float(t) => Ty::Float(*t),
            Ty::Char => Ty::Char,
            Ty::Vector(base, n) => Ty::Vector(Box::new((**base).clone()), *n),
            Ty::Ref(inner) => Ty::Ref(Box::new((**inner).clone())),
            Ty::Param(i) => Ty::Param(*i),
        }
    }
}

/// Whether `ty` carries no unresolved generic parameter.
pub fn is_monomorphic(ty: &Ty) -> (r: bool)
    ensures
        r == ty.monomorphic(),
    decreases ty,
{
    match ty {
        Ty::Vector(base, _) => is_monomorphic(&**base),
        Ty::Ref(inner) => is_monomorphic(&**inner),
        Ty::Param(_) => false,
        _ => true,
    }
}

/// A source constant value: the payload of a constant node. Kinds the target
/// cannot represent are recognized only to be rejected, so they carry no
/// payload here.
#[derive(Clone, Copy, Debug, PartialEq, Eq)]
pub enum ConstVal {
    Float(ConstFloat),
    Integral(ConstInt),
    Str,
    ByteStr,
    Bool(bool),
    Char(char),
    Struct,
    Tuple,
    Array,
    Repeat,
    Function,
}

/// The literal of a constant node: a reference to an item whose value is not
/// materializable at this stage, a promoted rvalue, or a direct value.
#[derive(Clone, Copy, Debug, PartialEq, Eq)]
pub enum Literal {
    Item { def_id: u32 },
    Promoted { index: usize },
    Value { value: ConstVal },
}

/// A typed constant node of the IR.
#[derive(Debug, PartialEq, Eq)]
pub struct Constant {
    pub ty: Ty,
    pub literal: Literal,
}

/// An addressable place of the IR: a translated local slot, by index.
#[derive(Clone, Copy, Debug, PartialEq, Eq)]
pub enum Lvalue {
    Local(usize),
}

impl Lvalue {
    /// The index of the local slot the place names.
    pub open spec fn local_index(self) -> usize {
        match self {
            Lvalue::Local(i) => i,
        }
    }
}

/// A value-producing IR node: consume an addressable place, or a constant.
#[derive(Debug, PartialEq, Eq)]
pub enum Operand {
    Consume(Lvalue),
    Constant(Constant),
}

} // verus!
