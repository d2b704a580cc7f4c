//! The operand model and the load/store protocol: emitted instruction
//! sequences, the no-value rule, and the inert storage kinds.

use spv_lower::const_math::{ConstInt, IntWidth};
use spv_lower::context::{CrateContext, MirContext};
use spv_lower::error::{InternalKind, LowerError, UnsupportedKind};
use spv_lower::lvalue::{LvalueRef, ValueRef};
use spv_lower::mir::{Constant as MirConstant, ConstVal, FloatTy, IntTy, Literal, Lvalue, Operand, Ty};
use spv_lower::module::{Instruction, SpvType};
use spv_lower::operand::{OperandRef, OperandValue};

fn fresh_fcx() -> MirContext {
    MirContext::new(CrateContext::new(IntWidth::W64, IntWidth::W64))
}

fn float4_spv() -> SpvType {
    SpvType::Vector(Box::new(SpvType::Float(32)), 4)
}

fn float4_ty() -> Ty {
    Ty::Vector(Box::new(Ty::Float(FloatTy::F32)), 4)
}

#[test]
fn loading_a_direct_slot_emits_exactly_one_load() {
    let mut fcx = fresh_fcx();
    let slot_id = fcx.ccx.builder.alloc_id();
    fcx.locals.push(LvalueRef::Value(
        ValueRef { spvid: slot_id, spvty: float4_spv() },
        float4_ty(),
    ));
    let op = fcx.trans_consume(&Lvalue::Local(0)).unwrap();
    assert_eq!(op.ty, float4_ty());
    let loaded = match op.val {
        OperandValue::Immediate(v) => v,
        OperandValue::Null => panic!("expected an immediate"),
    };
    assert_eq!(loaded.spvty, float4_spv());
    assert_ne!(loaded.spvid, slot_id);
    assert_eq!(fcx.block.instructions.len(), 1);
    match fcx.block.instructions[0] {
        Instruction::OpLoad { result_id, pointer, .. } => {
            assert_eq!(pointer, slot_id);
            assert_eq!(result_id, loaded.spvid);
        }
        Instruction::OpStore { .. } => panic!("expected a load"),
    }
}

#[test]
fn consuming_inert_location_kinds_yields_no_value() {
    for slot in [LvalueRef::Ref, LvalueRef::SigStruct, LvalueRef::Ignore] {
        let mut fcx = fresh_fcx();
        fcx.locals.push(slot);
        let r = fcx.trans_consume(&Lvalue::Local(0));
        assert!(r.is_none());
        assert_eq!(fcx.block.instructions.len(), 0);
    }
}

#[test]
fn storing_an_immediate_emits_exactly_one_store() {
    let mut fcx = fresh_fcx();
    let dest = LvalueRef::Value(
        ValueRef { spvid: 7, spvty: SpvType::Float(32) },
        Ty::Float(FloatTy::F32),
    );
    let op = OperandRef {
        val: OperandValue::Immediate(ValueRef { spvid: 9, spvty: SpvType::Float(32) }),
        ty: Ty::Float(FloatTy::F32),
    };
    fcx.store_operand(&dest, &op).unwrap();
    assert_eq!(
        fcx.block.instructions,
        vec![Instruction::OpStore { pointer: 7, value: 9 }]
    );
}

#[test]
fn storing_a_no_value_operand_fails_without_emitting() {
    let mut fcx = fresh_fcx();
    let dest = LvalueRef::Value(
        ValueRef { spvid: 7, spvty: SpvType::Bool },
        Ty::Bool,
    );
    let op = OperandRef { val: OperandValue::Null, ty: Ty::Bool };
    let r = fcx.store_operand(&dest, &op);
    assert_eq!(r, Err(LowerError::Internal(InternalKind::NullStore)));
    assert_eq!(fcx.block.instructions.len(), 0);
}

#[test]
fn storing_into_inert_location_kinds_fails_loudly() {
    for dest in [LvalueRef::Ref, LvalueRef::SigStruct, LvalueRef::Ignore] {
        let mut fcx = fresh_fcx();
        let op = OperandRef {
            val: OperandValue::Immediate(ValueRef { spvid: 3, spvty: SpvType::Bool }),
            ty: Ty::Bool,
        };
        let r = fcx.store_operand(&dest, &op);
        assert_eq!(r, Err(LowerError::Unsupported(UnsupportedKind::StoreLocation)));
        assert_eq!(fcx.block.instructions.len(), 0);
    }
}

#[test]
fn store_then_load_round_trip_references_the_slot() {
    let mut fcx = fresh_fcx();
    let slot = ValueRef { spvid: fcx.ccx.builder.alloc_id(), spvty: SpvType::Float(32) };
    let dest = LvalueRef::Value(slot.clone(), Ty::Float(FloatTy::F32));
    let source = ValueRef { spvid: fcx.ccx.builder.alloc_id(), spvty: SpvType::Float(32) };
    let op = OperandRef {
        val: OperandValue::Immediate(source.clone()),
        ty: Ty::Float(FloatTy::F32),
    };
    fcx.store_operand(&dest, &op).unwrap();
    let loaded = fcx.trans_load(slot.clone(), Ty::Float(FloatTy::F32));
    assert_eq!(fcx.block.instructions.len(), 2);
    match fcx.block.instructions[0] {
        Instruction::OpStore { pointer, value } => {
            assert_eq!(pointer, slot.spvid);
            assert_eq!(value, source.spvid);
        }
        Instruction::OpLoad { .. } => panic!("expected a store first"),
    }
    match fcx.block.instructions[1] {
        Instruction::OpLoad { pointer, result_id, .. } => {
            assert_eq!(pointer, slot.spvid);
            match loaded.val {
                OperandValue::Immediate(v) => assert_eq!(v.spvid, result_id),
                OperandValue::Null => panic!("expected an immediate"),
            }
        }
        Instruction::OpStore { .. } => panic!("expected a load second"),
    }
}

#[test]
fn trans_operand_lowers_a_constant_to_an_immediate() {
    let mut fcx = fresh_fcx();
    let node = MirConstant {
        ty: Ty::Int(IntTy::I32),
        literal: Literal::Value { value: ConstVal::Integral(ConstInt::I32(5)) },
    };
    let op = fcx.trans_operand(&Operand::Constant(node)).unwrap().unwrap();
    assert_eq!(op.ty, Ty::Int(IntTy::I32));
    match op.val {
        OperandValue::Immediate(v) => assert_eq!(v.spvty, SpvType::Int(32, true)),
        OperandValue::Null => panic!("expected an immediate"),
    }
    assert_eq!(fcx.ccx.builder.constants.len(), 1);
    assert_eq!(fcx.block.instructions.len(), 0);
}

#[test]
fn trans_operand_item_reference_yields_a_no_value_operand() {
    let mut fcx = fresh_fcx();
    let node = MirConstant { ty: Ty::Bool, literal: Literal::Item { def_id: 1 } };
    let op = fcx.trans_operand(&Operand::Constant(node)).unwrap().unwrap();
    assert_eq!(op.val, OperandValue::Null);
    assert_eq!(op.ty, Ty::Bool);
}

#[test]
fn trans_operand_consume_loads_the_slot() {
    let mut fcx = fresh_fcx();
    let slot_id = fcx.ccx.builder.alloc_id();
    fcx.locals.push(LvalueRef::Value(
        ValueRef { spvid: slot_id, spvty: SpvType::Bool },
        Ty::Bool,
    ));
    let op = fcx.trans_operand(&Operand::Consume(Lvalue::Local(0))).unwrap().unwrap();
    assert_eq!(op.ty, Ty::Bool);
    assert_eq!(fcx.block.instructions.len(), 1);
}

#[test]
fn trans_operand_propagates_lowering_errors() {
    let mut fcx = fresh_fcx();
    let node = MirConstant {
        ty: Ty::Char,
        literal: Literal::Value { value: ConstVal::Char('x') },
    };
    let r = fcx.trans_operand(&Operand::Constant(node));
    assert_eq!(r, Err(LowerError::Unsupported(UnsupportedKind::Char)));
}
