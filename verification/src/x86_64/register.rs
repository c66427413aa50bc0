//! The six segment registers, each of which holds a selector.

use vstd::prelude::*;

use super::gdt::Selector;
use super::instruction::Instruction;

verus! {

/// The code segment register.
pub struct CS;

/// The data segment register.
pub struct DS;

/// The extra segment register.
pub struct ES;

/// The `FS` segment register.
pub struct FS;

/// The `GS` segment register.
pub struct GS;

/// The stack segment register.
pub struct SS;

impl CS {
    /// The operation that reloads `CS`. No instruction moves a value into
    /// `CS` directly, so this one stands for the far return that does.
    pub fn set(selector: Selector) -> (instruction: Instruction)
        ensures
            instruction == Instruction::SetCs(selector),
    {
        Instruction::SetCs(selector)
    }
}

impl DS {
    /// The operation that moves `selector` into `DS`.
    pub fn set(selector: Selector) -> (instruction: Instruction)
        ensures
            instruction == Instruction::SetDs(selector),
    {
        Instruction::SetDs(selector)
    }
}

impl ES {
    /// The operation that moves `selector` into `ES`.
    pub fn set(selector: Selector) -> (instruction: Instruction)
        ensures
            instruction == Instruction::SetEs(selector),
    {
        Instruction::SetEs(selector)
    }
}

impl FS {
    /// The operation that moves `selector` into `FS`.
    pub fn set(selector: Selector) -> (instruction: Instruction)
        ensures
            instruction == Instruction::SetFs(selector),
    {
        Instruction::SetFs(selector)
    }
}

impl GS {
    /// The operation that moves `selector` into `GS`.
    pub fn set(selector: Selector) -> (instruction: Instruction)
        ensures
            instruction == Instruction::SetGs(selector),
    {
        Instruction::SetGs(selector)
    }
}

impl SS {
    /// The operation that moves `selector` into `SS`.
    pub fn set(selector: Selector) -> (instruction: Instruction)
        ensures
            instruction == Instruction::SetSs(selector),
    {
        Instruction::SetSs(selector)
    }
}

} // verus!
