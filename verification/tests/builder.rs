//! The module builder's tables: fresh identifiers, type interning, and the
//! monomorphization the translation context applies; plus the vertex entry
//! point of the example shader.

use spv_lower::const_math::IntWidth;
use spv_lower::context::{CrateContext, MirContext};
use spv_lower::mir::{FloatTy, IntTy, Ty};
use spv_lower::module::{ModuleBuilder, SpvType};
use spv_lower::shader::{float4, vertex, VertexInput, F32_ONE_BITS, F32_ZERO_BITS};

#[test]
fn alloc_id_never_repeats() {
    let mut b = ModuleBuilder::new();
    let a = b.alloc_id();
    let c = b.alloc_id();
    let d = b.alloc_id();
    assert_ne!(a, c);
    assert_ne!(a, d);
    assert_ne!(c, d);
}

#[test]
fn define_type_interns_equal_types() {
    let mut b = ModuleBuilder::new();
    let vec4 = SpvType::Vector(Box::new(SpvType::Float(32)), 4);
    let first = b.define_type(&vec4);
    let scalar = b.define_type(&SpvType::Float(32));
    let again = b.define_type(&SpvType::Vector(Box::new(SpvType::Float(32)), 4));
    assert_eq!(first, again);
    assert_ne!(first, scalar);
    assert_eq!(b.types.len(), 2);
}

#[test]
fn monomorphize_substitutes_parameters_in_range() {
    let ccx = CrateContext::new(IntWidth::W64, IntWidth::W64);
    let mut fcx = MirContext::new(ccx);
    fcx.substs.push(Ty::Float(FloatTy::F32));
    let ty = Ty::Vector(Box::new(Ty::Param(0)), 4);
    let mono = fcx.monomorphize(&ty);
    assert_eq!(mono, Ty::Vector(Box::new(Ty::Float(FloatTy::F32)), 4));
    let out_of_range = fcx.monomorphize(&Ty::Param(3));
    assert_eq!(out_of_range, Ty::Param(3));
    let plain = fcx.monomorphize(&Ty::Int(IntTy::I16));
    assert_eq!(plain, Ty::Int(IntTy::I16));
}

#[test]
fn vertex_produces_the_fixed_position() {
    let input = VertexInput { pos: float4::new(0, 0, 0, 0) };
    let out = vertex(input);
    assert_eq!(out.pos, float4::new(F32_ONE_BITS, F32_ONE_BITS, F32_ZERO_BITS, F32_ONE_BITS));
    assert_eq!(f32::from_bits(out.pos.x), 1.0f32);
    assert_eq!(f32::from_bits(out.pos.z), 0.0f32);
}
