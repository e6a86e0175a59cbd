//! Debug support: the CPU exceptions a handler can be registered for.
use vstd::prelude::*;

verus! {

/// Represents supported CPU exceptions.
#[derive(Debug, Copy, Clone, PartialEq, Eq, Structural)]
pub struct ExceptionType(pub isize);

#[allow(non_snake_case)]
impl ExceptionType {
    /// Undefined Exception
    pub fn EXCEPT_EBC_UNDEFINED() -> (r: ExceptionType)
        ensures
            r.0 == 0,
    {
        ExceptionType(0)
    }

    /// Divide-by-zero Error
    pub fn EXCEPT_EBC_DIVIDE_ERROR() -> (r: ExceptionType)
        ensures
            r.0 == 1,
    {
        ExceptionType(1)
    }

    /// Debug Exception
    pub fn EXCEPT_EBC_DEBUG() -> (r: ExceptionType)
        ensures
            r.0 == 2,
    {
        ExceptionType(2)
    }

    /// Breakpoint
    pub fn EXCEPT_EBC_BREAKPOINT() -> (r: ExceptionType)
        ensures
            r.0 == 3,
    {
        ExceptionType(3)
    }

    /// Overflow
    pub fn EXCEPT_EBC_OVERFLOW() -> (r: ExceptionType)
        ensures
            r.0 == 4,
    {
        ExceptionType(4)
    }

    /// Invalid Opcode
    pub fn EXCEPT_EBC_INVALID_OPCODE() -> (r: ExceptionType)
        ensures
            r.0 == 5,
    {
        ExceptionType(5)
    }

    /// Stack-Segment Fault
    pub fn EXCEPT_EBC_STACK_FAULT() -> (r: ExceptionType)
        ensures
            r.0 == 6,
    {
        ExceptionType(6)
    }

    /// Alignment Check
    pub fn EXCEPT_EBC_ALIGNMENT_CHECK() -> (r: ExceptionType)
        ensures
            r.0 == 7,
    {
        ExceptionType(7)
    }

    /// Instruction Encoding Exception
    pub fn EXCEPT_EBC_INSTRUCTION_ENCODING() -> (r: ExceptionType)
        ensures
            r.0 == 8,
    {
        ExceptionType(8)
    }

    /// Bad Breakpoint Exception
    pub fn EXCEPT_EBC_BAD_BREAK() -> (r: ExceptionType)
        ensures
            r.0 == 9,
    {
        ExceptionType(9)
    }

    /// Single Step Exception
    pub fn EXCEPT_EBC_SINGLE_STEP() -> (r: ExceptionType)
        ensures
            r.0 == 10,
    {
        ExceptionType(10)
    }
}

} // verus!
