//! Translation state: the crate-wide context owning the module builder and
//! the target configuration, and the per-function context owning the block
//! under construction, the translated local slots, and the substitution that
//! monomorphizes the function's generic parameters.

use vstd::prelude::*;
use crate::const_math::IntWidth;
use crate::lvalue::LvalueRef;
use crate::mir::Ty;
use crate::module::{Block, ModuleBuilder};

verus! {

/// Crate-wide translation state: the single owner of the module under
/// construction, plus the target's configured widths for platform-dependent
/// integers.
pub struct CrateContext {
    pub builder: ModuleBuilder,
    /// Width of the target's native signed integer.
    pub int_width: IntWidth,
    /// Width of the target's native unsigned integer.
    pub uint_width: IntWidth,
}

impl CrateContext {
    /// The module tables are well formed.
    pub open spec fn wf(self) -> bool {
        self.builder.wf()
    }

    /// A fresh crate context over an empty module.
    pub fn new(int_width: IntWidth, uint_width: IntWidth) -> (r: CrateContext)
        ensures
            r.wf(),
            r.builder.next_id == 1,
            r.builder.types@.len() == 0,
            r.builder.constants@.len() == 0,
            r.int_width == int_width,
            r.uint_width == uint_width,
    {
        CrateContext { builder: ModuleBuilder::new(), int_width, uint_width }
    }
}

/// Per-function translation state: the crate context, the basic block under
/// construction, the already-translated local slots, and the concrete types
/// substituted for the function's generic parameters.
pub struct MirContext {
    pub ccx: CrateContext,
    pub block: Block,
    pub locals: Vec<LvalueRef>,
    pub substs: Vec<Ty>,
}

impl MirContext {
    /// The module tables are well formed and the substitution carries only
    /// fully resolved types, so monomorphizing is idempotent.
    pub open spec fn wf(self) -> bool {
        &&& self.ccx.wf()
        &&& forall|i: int|
            0 <= i < self.substs@.len() ==> (#[trigger] self.substs@[i]).monomorphic()
    }

    /// A fresh per-function context over `ccx`, with no locals and no
    /// substitution, and an empty block.
    pub fn new(ccx: CrateContext) -> (r: MirContext)
        requires
            ccx.wf(),
        ensures
            r.wf(),
            r.ccx == ccx,
            r.block.instructions@.len() == 0,
            r.locals@.len() == 0,
            r.substs@.len() == 0,
    {
        MirContext { ccx, block: Block::new(), locals: Vec::new(), substs: Vec::new() }
    }

    /// The monomorphization of `ty` under the context's substitution: each
    /// parameter with an index in range is replaced by its concrete type; one
    /// out of range is left in place, to surface as an internal error.
    pub open spec fn spec_monomorphize(self, ty: Ty) -> Ty
        decreases ty,
    {
        match ty {
            Ty::Vector(base, n) => Ty::Vector(Box::new(self.spec_monomorphize(*base)), n),
            Ty::Ref(inner) => Ty::Ref(Box::new(self.spec_monomorphize(*inner))),
            Ty::Param(i) => if i < self.substs@.len() {
                self.substs@[i as int]
            } else {
                Ty::Param(i)
            },
            _ => ty,
        }
    }

    /// Replace the generic parameters of `ty` by the context's substitution.
    pub fn monomorphize(&self, ty: &Ty) -> (r: Ty)
        ensures
            r == self.spec_monomorphize(*ty),
        decreases ty,
    {
        match ty {
            Ty::Bool => Ty::Bool,
            Ty::Int(t) => Ty::Int(*t),
            Ty::Uint(t) => Ty::Uint(*t),
            Ty::Float(t) => Ty::Float(*t),
            Ty::Char => Ty::Char,
            Ty::Vector(base, n) => Ty::Vector(Box::new(self.monomorphize(&**base)), *n),
            Ty::Ref(inner) => Ty::Ref(Box::new(self.monomorphize(&**inner))),
            Ty::Param(i) => if *i < self.substs.len() {
                self.substs[*i].clone()
            } else {
                Ty::Param(*i)
            },
        }
    }
}

} // verus!
