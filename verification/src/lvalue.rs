//! Addressable storage locations, and the module value references they hold.

use vstd::prelude::*;
use crate::context::MirContext;
use crate::mir::{Lvalue, Ty};
use crate::module::{Id, SpvType};

verus! {

/// A reference to a value inside the binary module: its identifier together
/// with its shader type.
#[derive(Debug, PartialEq, Eq)]
pub struct ValueRef {
    pub spvid: Id,
    pub spvty: SpvType,
}

impl Clone for ValueRef {
    fn clone(&self) -> (r: Self)
        ensures
            r == *self,
    {
        ValueRef { spvid: self.spvid, spvty: self.spvty.clone() }
    }
}

/// A translated storage location. Only the direct value slot participates in
/// load/store at this layer; the other kinds are recognized placeholders for
/// a higher-capability implementation.
#[derive(Debug, PartialEq, Eq)]
pub enum LvalueRef {
    /// A direct value slot: the slot's module value and its source type.
    Value(ValueRef, Ty),
    /// An indirect reference; not loadable or storable at this layer.
    Ref,
    /// An interface (signature) struct slot; entry-point layout handles it,
    /// not this layer.
    SigStruct,
    /// A write target that discards its value.
    Ignore,
}

impl Clone for LvalueRef {
    fn clone(&self) -> (r: Self)
        ensures
            r == *self,
    {
        match self {
            LvalueRef::Value(val, ty) => LvalueRef::Value(val.clone(), ty.clone()),
            LvalueRef::Ref => LvalueRef::Ref,
            LvalueRef::SigStruct => LvalueRef::SigStruct,
            LvalueRef::Ignore => LvalueRef::Ignore,
        }
    }
}

impl MirContext {
    /// Translate an IR place to the already-translated slot it names.
    pub fn trans_lvalue(&self, lvalue: &Lvalue) -> (r: LvalueRef)
        requires
            lvalue.local_index() < self.locals@.len(),
        ensures
            r == self.locals@[lvalue.local_index() as int],
    {
        match lvalue {
            Lvalue::Local(i) => self.locals[*i].clone(),
        }
    }
}

} // verus!
