use vstd::prelude::*;

verus! {

/// What the code generator is producing at the moment: a local, a call, a
/// mutation, or something else.
#[derive(Debug, Clone, Copy, PartialEq, Eq, Structural)]
pub enum LLVMCodeGenContextPosition {
    Local,
    Call,
    Mutation,
    NoRelevant,
}

impl Default for LLVMCodeGenContextPosition {
    fn default() -> (r: LLVMCodeGenContextPosition)
        ensures
            r == LLVMCodeGenContextPosition::NoRelevant,
    {
        LLVMCodeGenContextPosition::NoRelevant
    }
}

impl LLVMCodeGenContextPosition {
    pub fn in_local(&self) -> (r: bool)
        ensures
            r == (*self is Local),
    {
        matches!(self, LLVMCodeGenContextPosition::Local)
    }

    pub fn in_call(&self) -> (r: bool)
        ensures
            r == (*self is Call),
    {
        matches!(self, LLVMCodeGenContextPosition::Call)
    }

    pub fn in_mutation(&self) -> (r: bool)
        ensures
            r == (*self is Mutation),
    {
        matches!(self, LLVMCodeGenContextPosition::Mutation)
    }
}

} // verus!
