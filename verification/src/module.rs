//! The binary shader module under construction: fresh identifiers, interned
//! types, the constant pool, and the instruction stream of a basic block.

use vstd::prelude::*;

verus! {

/// An identifier inside the binary module (one word of the output format).
pub type Id = u32;

/// A shader-level type as the binary module represents it.
#[derive(Debug, PartialEq, Eq)]
pub enum SpvType {
    Void,
    Bool,
    /// Integer with its width in bits and its signedness.
    Int(u32, bool),
    /// Floating-point number with its width in bits.
    Float(u32),
    /// Vector of a component type and a component count.
    Vector(Box<SpvType>, u32),
    /// A pointer-wrapped type. Constants and loaded values never carry one.
    Ref(Box<SpvType>),
}

impl SpvType {
    /// Whether the type is pointer-wrapped at its top level.
    pub open spec fn is_ref(self) -> bool {
        self matches SpvType::Ref(_)
    }
}

impl Clone for SpvType {
    fn clone(&self) -> (r: Self)
        ensures
            r == *self,
        decreases self,
    {
        match self {
            SpvType::Void => SpvType::Void,
            SpvType::Bool => SpvType::Bool,
            SpvType::Int(width, signed) => SpvType::Int(*width, *signed),
            SpvType::Float(width) => SpvType::Float(*width),
            SpvType::Vector(base, n) => SpvType::Vector(Box::new((**base).clone()), *n),
            SpvType::Ref(inner) => SpvType::Ref(Box::new((**inner).clone())),
        }
    }
}

/// Structural equality on shader types.
pub fn spv_type_eq(a: &SpvType, b: &SpvType) -> (r: bool)
    ensures
        r == (*a == *b),
    decreases a,
{
    match (a, b) {
        (SpvType::Void, SpvType::Void) => true,
        (SpvType::Bool, SpvType::Bool) => true,
        (SpvType::Int(w1, s1), SpvType::Int(w2, s2)) => w1 == w2 && s1 == s2,
        (SpvType::Float(w1), SpvType::Float(w2)) => w1 == w2,
        (SpvType::Vector(b1, n1), SpvType::Vector(b2, n2)) => n1 == n2 && spv_type_eq(&**b1, &**b2),
        (SpvType::Ref(t1), SpvType::Ref(t2)) => spv_type_eq(&**t1, &**t2),
        _ => false,
    }
}

/// A scalar constant as the module's constant pool holds it.
#[derive(Clone, Copy, Debug, PartialEq, Eq)]
pub enum ConstValue {
    Bool(bool),
    I16(i16),
    I32(i32),
    I64(i64),
    U16(u16),
    U32(u32),
    U64(u64),
}

/// A floating-point pool constant, held as its IEEE-754 bit pattern.
#[derive(Clone, Copy, Debug, PartialEq, Eq)]
pub enum ConstValueFloat {
    F32(u32),
    F64(u64),
}

/// One value of the module's constant pool.
#[derive(Clone, Copy, Debug, PartialEq, Eq)]
pub enum Constant {
    Scalar(ConstValue),
    Float(ConstValueFloat),
}

/// A pool value together with the identifier the module gave it.
#[derive(Clone, Copy, Debug, PartialEq, Eq)]
pub struct PoolEntry {
    pub id: Id,
    pub value: Constant,
}

/// An interned type together with the identifier the module gave it.
#[derive(Debug, PartialEq, Eq)]
pub struct TypeEntry {
    pub id: Id,
    pub ty: SpvType,
}

/// One instruction of a basic block: the load/store subset this layer emits.
#[derive(Clone, Copy, Debug, PartialEq, Eq)]
pub enum Instruction {
    OpLoad { result_type: Id, result_id: Id, pointer: Id },
    OpStore { pointer: Id, value: Id },
}

/// A basic block: the instructions emitted so far, in emission order.
pub struct Block {
    pub instructions: Vec<Instruction>,
}

impl Block {
    /// An empty block.
    pub fn new() -> (r: Block)
        ensures
            r.instructions@ == Seq::<Instruction>::empty(),
    {
        Block { instructions: Vec::new() }
    }

    /// Append one instruction to the block.
    pub fn emit_instruction(&mut self, instr: Instruction)
        ensures
            final(self).instructions@ == old(self).instructions@.push(instr),
    {
        self.instructions.push(instr);
    }
}

/// Owns the module-wide tables: the next fresh identifier, the interned
/// types, and the constant pool. All identifiers come from one counter, so
/// no identifier is ever handed out twice.
pub struct ModuleBuilder {
    pub next_id: Id,
    pub types: Vec<TypeEntry>,
    pub constants: Vec<PoolEntry>,
}

impl ModuleBuilder {
    /// Every identifier recorded so far is below `next_id` and never repeats,
    /// and type interning keeps exactly one entry per type.
    pub open spec fn wf(self) -> bool {
        &&& forall|i: int|
            0 <= i < self.constants@.len() ==> (#[trigger] self.constants@[i]).id < self.next_id
        &&& forall|i: int, j: int|
            0 <= i < j < self.constants@.len() ==> (#[trigger] self.constants@[i]).id != (
            #[trigger] self.constants@[j]).id
        &&& forall|i: int|
            0 <= i < self.types@.len() ==> (#[trigger] self.types@[i]).id < self.next_id
        &&& forall|i: int, j: int|
            0 <= i < j < self.types@.len() ==> (#[trigger] self.types@[i]).ty != (
            #[trigger] self.types@[j]).ty
    }

    /// Whether some entry of the type table holds `t`.
    pub open spec fn has_type(self, t: SpvType) -> bool {
        exists|i: int| 0 <= i < self.types@.len() && (#[trigger] self.types@[i]).ty == t
    }

    /// Whether the type table binds identifier `id` to type `t`.
    pub open spec fn maps_type(self, id: Id, t: SpvType) -> bool {
        exists|i: int|
            0 <= i < self.types@.len() && #[trigger] self.types@[i] == (TypeEntry { id, ty: t })
    }

    /// A fresh builder: no types, no constants, identifiers start at 1.
    pub fn new() -> (r: ModuleBuilder)
        ensures
            r.wf(),
            r.next_id == 1,
            r.types@ == Seq::<TypeEntry>::empty(),
            r.constants@ == Seq::<PoolEntry>::empty(),
    {
        ModuleBuilder { next_id: 1, types: Vec::new(), constants: Vec::new() }
    }

    /// Hand out one fresh identifier.
    pub fn alloc_id(&mut self) -> (id: Id)
        requires
            old(self).wf(),
            old(self).next_id < Id::MAX,
        ensures
            final(self).wf(),
            id == old(self).next_id,
            final(self).next_id == old(self).next_id + 1,
            final(self).types@ == old(self).types@,
            final(self).constants@ == old(self).constants@,
    {
        let id: Id = self.next_id;
        self.next_id = self.next_id + 1;
        id
    }

    /// Record one constant-pool value under a fresh identifier.
    pub fn define_constant(&mut self, c: Constant) -> (id: Id)
        requires
            old(self).wf(),
            old(self).next_id < Id::MAX,
        ensures
            final(self).wf(),
            id == old(self).next_id,
            final(self).next_id == old(self).next_id + 1,
            final(self).constants@ == old(self).constants@.push(PoolEntry { id, value: c }),
            final(self).types@ == old(self).types@,
    {
        let id: Id = self.alloc_id();
        self.constants.push(PoolEntry { id, value: c });
        id
    }

    /// Intern a type: return the identifier of the entry already holding an
    /// equal type, or record the type under a fresh identifier.
    pub fn define_type(&mut self, t: &SpvType) -> (id: Id)
        requires
            old(self).wf(),
            old(self).next_id < Id::MAX,
        ensures
            final(self).wf(),
            final(self).maps_type(id, *t),
            final(self).constants@ == old(self).constants@,
            old(self).has_type(*t) ==> *final(self) == *old(self),
            !old(self).has_type(*t) ==> {
                &&& id == old(self).next_id
                &&& final(self).next_id == old(self).next_id + 1
                &&& final(self).types@ == old(self).types@.push(
                    TypeEntry { id, ty: *t },
                )
            },
    {
        let n: usize = self.types.len();
        let mut i: usize = 0;
        while i < n
            invariant
                *self == *old(self),
                self.wf(),
                self.next_id < Id::MAX,
                n == self.types@.len(),
                i <= n,
                forall|j: int| 0 <= j < i ==> (#[trigger] self.types@[j]).ty != *t,
            decreases n - i,
        {
            if spv_type_eq(&self.types[i].ty, t) {
                let id: Id = self.types[i].id;
                proof {
                    assert(self.types@[i as int] == (TypeEntry { id, ty: *t }));
                }
                return id;
            }
            i = i + 1;
        }
        let id: Id = self.alloc_id();
        self.types.push(TypeEntry { id, ty: t.clone() });
        proof {
            let m = self.types@.len() - 1;
            assert(self.types@[m] == (TypeEntry { id, ty: *t }));
        }
        id
    }
}

} // verus!
