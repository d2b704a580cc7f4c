//! Lowering core of a shader compiler backend.
//!
//! The crate translates typed constants, operands and addressable storage
//! locations of a mid-level IR into the constant-pool entries and load/store
//! instructions of a binary shader module. Constant lowering maps source
//! literals onto the restricted numeric type system the target supports and
//! rejects everything else; the operand model distinguishes usable immediate
//! values from "no value"; the load/store protocol emits exactly one module
//! instruction per read or write of a direct value slot.

pub mod const_math;
pub mod constants;
pub mod context;
pub mod error;
pub mod lvalue;
pub mod mir;
pub mod module;
pub mod operand;
pub mod shader;
pub mod type_of;
