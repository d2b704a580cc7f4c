//! The operand value model and the storage load/store protocol.
//!
//! An operand is the result of evaluating a value-producing IR expression:
//! either a usable immediate module value, or "no value". Loads and stores of
//! direct value slots emit exactly one module instruction each; the other
//! storage kinds are recognized but inert at this layer.

use vstd::prelude::*;
use crate::context::MirContext;
use crate::error::{InternalKind, LowerError, UnsupportedKind};
use crate::lvalue::{LvalueRef, ValueRef};
use crate::mir::{self, Literal, Ty};
use crate::constants::{lower_ok_effect, spec_lower_error, widths_match, Const};
use crate::module::{Id, Instruction};

verus! {

/// The value of an operand: a usable immediate module value, or no value.
/// A "no value" operand must never reach the store protocol or stand as an
/// instruction operand.
#[derive(Debug, PartialEq, Eq)]
pub enum OperandValue {
    Immediate(ValueRef),
    Null,
}

/// The result of evaluating a value-producing IR expression: its value
/// variant and the source type of the value.
#[derive(Debug, PartialEq, Eq)]
pub struct OperandRef {
    pub val: OperandValue,
    pub ty: Ty,
}

/// Relation between instruction streams: `post` extends `pre` by exactly one
/// load from pointer `ptr` into result `result`, at interned type `tid`.
pub open spec fn load_effect(pre: Seq<Instruction>, post: Seq<Instruction>, tid: Id, result: Id, ptr: Id) -> bool {
    post == pre.push(Instruction::OpLoad { result_type: tid, result_id: result, pointer: ptr })
}

/// Relation between instruction streams: `post` extends `pre` by exactly one
/// store of value `val` into pointer `ptr`.
pub open spec fn store_effect(pre: Seq<Instruction>, post: Seq<Instruction>, ptr: Id, val: Id) -> bool {
    post == pre.push(Instruction::OpStore { pointer: ptr, value: val })
}

impl MirContext {
    /// Load a direct value slot: allocate one fresh result identifier, emit
    /// exactly one load instruction against the slot's identifier at the
    /// slot's interned type, and return the loaded value as an immediate
    /// operand of the location's logical type.
    pub fn trans_load(&mut self, spv_val: ValueRef, ty: Ty) -> (r: OperandRef)
        requires
            old(self).wf(),
            old(self).ccx.builder.next_id < Id::MAX - 1,
        ensures
            final(self).wf(),
            final(self).locals@ == old(self).locals@,
            final(self).substs@ == old(self).substs@,
            final(self).ccx.int_width == old(self).ccx.int_width,
            final(self).ccx.uint_width == old(self).ccx.uint_width,
            final(self).ccx.builder.constants@ == old(self).ccx.builder.constants@,
            r.ty == ty,
            (r.val matches OperandValue::Immediate(v) && v.spvty == spv_val.spvty && v.spvid == old(
                self,
            ).ccx.builder.next_id),
            exists|tid: Id|
                #![auto]
                final(self).ccx.builder.maps_type(tid, spv_val.spvty) && load_effect(
                    old(self).block.instructions@,
                    final(self).block.instructions@,
                    tid,
                    old(self).ccx.builder.next_id,
                    spv_val.spvid,
                ),
    {
        let operand_id: Id = self.ccx.builder.alloc_id();
        let type_id: Id = self.ccx.builder.define_type(&spv_val.spvty);
        self.block.emit_instruction(
            Instruction::OpLoad {
                result_type: type_id,
                result_id: operand_id,
                pointer: spv_val.spvid,
            },
        );
        OperandRef {
            val: OperandValue::Immediate(ValueRef { spvid: operand_id, spvty: spv_val.spvty }),
            ty,
        }
    }

    /// Consume an addressable place: a direct value slot is loaded (one load
    /// instruction, one fresh identifier); every other location kind yields
    /// "no value produced" — a recognized, non-fatal outcome of deliberately
    /// partial support — and leaves the module untouched.
    pub fn trans_consume(&mut self, lvalue: &mir::Lvalue) -> (r: Option<OperandRef>)
        requires
            old(self).wf(),
            old(self).ccx.builder.next_id < Id::MAX - 1,
            lvalue.local_index() < old(self).locals@.len(),
        ensures
            final(self).wf(),
            final(self).locals@ == old(self).locals@,
            final(self).substs@ == old(self).substs@,
            final(self).ccx.int_width == old(self).ccx.int_width,
            final(self).ccx.uint_width == old(self).ccx.uint_width,
            final(self).ccx.builder.constants@ == old(self).ccx.builder.constants@,
            ({
                let slot = old(self).locals@[lvalue.local_index() as int];
                match slot {
                    LvalueRef::Value(val, slot_ty) => {
                        &&& (r matches Some(op) && op.ty == slot_ty && (op.val matches
                            OperandValue::Immediate(v) && v.spvty == val.spvty && v.spvid == old(
                            self,
                        ).ccx.builder.next_id))
                        &&& exists|tid: Id|
                            #![auto]
                            final(self).ccx.builder.maps_type(tid, val.spvty) && load_effect(
                                old(self).block.instructions@,
                                final(self).block.instructions@,
                                tid,
                                old(self).ccx.builder.next_id,
                                val.spvid,
                            )
                    },
                    _ => r is None && *final(self) == *old(self),
                }
            }),
    {
        let tr_lvalue: LvalueRef = self.trans_lvalue(lvalue);
        match tr_lvalue {
            LvalueRef::Value(val, slot_ty) => Some(self.trans_load(val, slot_ty)),
            LvalueRef::Ref => None,
            LvalueRef::SigStruct => None,
            LvalueRef::Ignore => None,
        }
    }

    /// Evaluate an IR operand. Consuming a place loads it, or yields the
    /// recognized "no value produced" (`Ok(None)`) for the location kinds
    /// this layer does not load; a constant node is lowered and wrapped, a
    /// deferred item reference becoming a "no value" operand. Fatal lowering
    /// errors pass through unchanged.
    pub fn trans_operand(&mut self, operand: &mir::Operand) -> (r: Result<
        Option<OperandRef>,
        LowerError,
    >)
        requires
            old(self).wf(),
            old(self).ccx.builder.next_id < Id::MAX - 1,
            (operand matches mir::Operand::Consume(lv) ==> lv.local_index() < old(
                self,
            ).locals@.len()),
            (operand matches mir::Operand::Constant(c) ==> (c.literal matches Literal::Value {
                value,
            } ==> widths_match(value, old(self).ccx.int_width, old(self).ccx.uint_width))),
        ensures
            final(self).wf(),
            final(self).locals@ == old(self).locals@,
            final(self).substs@ == old(self).substs@,
            final(self).ccx.int_width == old(self).ccx.int_width,
            final(self).ccx.uint_width == old(self).ccx.uint_width,
            (match operand {
                mir::Operand::Consume(lv) => {
                    let slot = old(self).locals@[lv.local_index() as int];
                    &&& final(self).ccx.builder.constants@ == old(self).ccx.builder.constants@
                    &&& match slot {
                        LvalueRef::Value(val, slot_ty) => {
                            &&& (r matches Ok(opt) && (opt matches Some(op) && op.ty == slot_ty && (
                            op.val matches OperandValue::Immediate(v) && v.spvty == val.spvty
                                && v.spvid == old(self).ccx.builder.next_id)))
                            &&& exists|tid: Id|
                                #![auto]
                                final(self).ccx.builder.maps_type(tid, val.spvty) && load_effect(
                                    old(self).block.instructions@,
                                    final(self).block.instructions@,
                                    tid,
                                    old(self).ccx.builder.next_id,
                                    val.spvid,
                                )
                        },
                        _ => r == Ok::<Option<OperandRef>, LowerError>(None) && *final(self)
                            == *old(self),
                    }
                },
                mir::Operand::Constant(c) => {
                    let ty = old(self).spec_monomorphize(c.ty);
                    &&& final(self).block == old(self).block
                    &&& match c.literal {
                        Literal::Item { .. } => (r matches Ok(opt) && (opt matches Some(op)
                            && op.val is Null && op.ty == ty)) && *final(self) == *old(self),
                        Literal::Promoted { .. } => r == Err::<Option<OperandRef>, LowerError>(
                            LowerError::Unsupported(UnsupportedKind::Promoted),
                        ) && *final(self) == *old(self),
                        Literal::Value { value } => if !ty.monomorphic() {
                            r == Err::<Option<OperandRef>, LowerError>(
                                LowerError::Internal(InternalKind::UnresolvedType),
                            ) && *final(self) == *old(self)
                        } else {
                            &&& (r is Ok <==> spec_lower_error(value, ty) is None)
                            &&& (r matches Ok(opt) ==> (opt matches Some(op) && op.ty == ty && (
                            op.val matches OperandValue::Immediate(v) && lower_ok_effect(
                                old(self).ccx,
                                final(self).ccx,
                                value,
                                ty,
                                v,
                            ))))
                            &&& (r matches Err(e) ==> Some(e) == spec_lower_error(value, ty)
                                && *final(self) == *old(self))
                        },
                    }
                },
            }),
    {
        match operand {
            mir::Operand::Consume(lvalue) => Ok(self.trans_consume(lvalue)),
            mir::Operand::Constant(constant) => {
                let const_val: Const = match self.trans_constant(constant) {
                    Ok(c) => c,
                    Err(e) => {
                        return Err(e);
                    },
                };
                let op: OperandRef = const_val.to_operand();
                Ok(Some(op))
            },
        }
    }

    /// Store an immediate operand into a direct value slot: emit exactly one
    /// store instruction referencing the destination's identifier and the
    /// value's identifier. Storing a "no value" operand is an internal error;
    /// storing into any other location kind is unsupported at this layer.
    /// Both failures leave the module untouched — no write is silently
    /// dropped, and none is invented.
    pub fn store_operand(&mut self, dest: &LvalueRef, operand: &OperandRef) -> (r: Result<
        (),
        LowerError,
    >)
        ensures
            final(self).ccx == old(self).ccx,
            final(self).locals@ == old(self).locals@,
            final(self).substs@ == old(self).substs@,
            r is Ok <==> (operand.val is Immediate && dest is Value),
            (match operand.val {
                OperandValue::Immediate(v) => match *dest {
                    LvalueRef::Value(lval, _) => r is Ok && store_effect(
                        old(self).block.instructions@,
                        final(self).block.instructions@,
                        lval.spvid,
                        v.spvid,
                    ),
                    _ => r == Err::<(), LowerError>(
                        LowerError::Unsupported(UnsupportedKind::StoreLocation),
                    ) && *final(self) == *old(self),
                },
                OperandValue::Null => r == Err::<(), LowerError>(
                    LowerError::Internal(InternalKind::NullStore),
                ) && *final(self) == *old(self),
            }),
    {
        match &operand.val {
            OperandValue::Immediate(op) => {
                match dest {
                    LvalueRef::Value(lval, _) => {
                        self.block.emit_instruction(
                            Instruction::OpStore { pointer: lval.spvid, value: op.spvid },
                        );
                        Ok(())
                    },
                    _ => Err(LowerError::Unsupported(UnsupportedKind::StoreLocation)),
                }
            },
            OperandValue::Null => Err(LowerError::Internal(InternalKind::NullStore)),
        }
    }
}

/// Law: store/load round trip. Storing an immediate operand into a direct
/// value slot and then loading that slot extends the block by exactly one
/// store followed by one load, both referencing the slot's identifier; the
/// store writes the operand's identifier, so the value the load's fresh
/// result carries is the value the operand carried.
pub proof fn lemma_store_load_round_trip(
    b0: Seq<Instruction>,
    b1: Seq<Instruction>,
    b2: Seq<Instruction>,
    slot_id: Id,
    stored_id: Id,
    tid: Id,
    loaded_id: Id,
)
    requires
        store_effect(b0, b1, slot_id, stored_id),
        load_effect(b1, b2, tid, loaded_id, slot_id),
    ensures
        b2 =~= b0 + seq![
            (Instruction::OpStore { pointer: slot_id, value: stored_id }),
            (Instruction::OpLoad { result_type: tid, result_id: loaded_id, pointer: slot_id }),
        ],
        b2.len() == b0.len() + 2,
        b2[b2.len() - 2] == (Instruction::OpStore { pointer: slot_id, value: stored_id }),
        b2[b2.len() - 1] == (Instruction::OpLoad {
            result_type: tid,
            result_id: loaded_id,
            pointer: slot_id,
        }),
{
    assert(b2 =~= b0 + seq![
        (Instruction::OpStore { pointer: slot_id, value: stored_id }),
        (Instruction::OpLoad { result_type: tid, result_id: loaded_id, pointer: slot_id }),
    ]);
}

} // verus!
