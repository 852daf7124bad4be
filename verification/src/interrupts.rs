//! Which exceptions the kernel handles, on which stack, and what becomes of
//! the interrupted code. Filling and loading the interrupt table is left to
//! the kernel.

use crate::gdt::DOUBLE_FAULT_IST_INDEX;
use vstd::prelude::*;

verus! {

/// Vector at which the first interrupt controller delivers its interrupts.
pub const PIC_1_OFFSET: u8 = 32;

/// Vector at which the second interrupt controller delivers its interrupts.
pub const PIC_2_OFFSET: u8 = PIC_1_OFFSET + 8;

/// The vector of the breakpoint exception.
pub const BREAKPOINT_VECTOR: u8 = 3;

/// The vector of the double fault exception.
pub const DOUBLE_FAULT_VECTOR: u8 = 8;

/// Number of slots of the interrupt stack table.
pub const IST_SLOTS: u16 = 7;

/// What becomes of the interrupted code once an exception is reported.
#[derive(Clone, Copy, PartialEq, Eq, Structural, Debug)]
pub enum Response {
    /// The handler returns and the code goes on.
    Resume,
    /// The processor is halted for good.
    Halt,
}

/// One handler of the interrupt table.
#[derive(Clone, Copy, PartialEq, Eq, Structural, Debug)]
pub struct HandlerEntry {
    /// The vector the handler is registered for.
    pub vector: u8,
    /// The slot of the interrupt stack table whose stack the handler runs
    /// on, or `None` where it runs on the stack in use.
    pub stack_index: Option<u16>,
    /// What the handler does once it has reported the exception.
    pub response: Response,
}

/// The handlers the kernel registers.
#[derive(Clone, Copy, PartialEq, Eq, Structural, Debug)]
pub struct InterruptTable {
    /// The handler of the breakpoint exception.
    pub breakpoint: HandlerEntry,
    /// The handler of the double fault exception.
    pub double_fault: HandlerEntry,
}

/// What follows an exception at `vector`: a breakpoint is reported and the
/// code goes on. Every other exception, a double fault as well as one that
/// has no handler of its own, is fatal.
pub open spec fn response_to(vector: u8) -> Response {
    if vector == BREAKPOINT_VECTOR {
        Response::Resume
    } else {
        Response::Halt
    }
}

/// The stack an exception at `vector` is handled on: the dedicated stack
/// for a double fault, so that it is handled even where the stack in use
/// is broken, and the stack in use for every other exception.
pub open spec fn stack_for(vector: u8) -> Option<u16> {
    if vector == DOUBLE_FAULT_VECTOR {
        Some(DOUBLE_FAULT_IST_INDEX)
    } else {
        None
    }
}

/// The handler for `vector` as the kernel's policy wants it.
pub open spec fn handler_for(vector: u8) -> HandlerEntry {
    HandlerEntry { vector, stack_index: stack_for(vector), response: response_to(vector) }
}

/// What follows an exception at `vector`.
pub fn exception_response(vector: u8) -> (response: Response)
    ensures
        response == response_to(vector),
{
    if vector == BREAKPOINT_VECTOR {
        Response::Resume
    } else {
        Response::Halt
    }
}

/// The handlers the kernel registers: one for breakpoints, which returns,
/// and one for double faults, which halts and runs on the dedicated stack.
pub fn init_idt() -> (table: InterruptTable)
    ensures
        table.breakpoint == handler_for(BREAKPOINT_VECTOR),
        table.double_fault == handler_for(DOUBLE_FAULT_VECTOR),
        table.breakpoint.response == Response::Resume,
        table.breakpoint.stack_index is None,
        table.double_fault.response == Response::Halt,
        table.double_fault.stack_index == Some(DOUBLE_FAULT_IST_INDEX),
        DOUBLE_FAULT_IST_INDEX < IST_SLOTS,
{
    InterruptTable {
        breakpoint: HandlerEntry {
            vector: BREAKPOINT_VECTOR,
            stack_index: None,
            response: exception_response(BREAKPOINT_VECTOR),
        },
        double_fault: HandlerEntry {
            vector: DOUBLE_FAULT_VECTOR,
            stack_index: Some(DOUBLE_FAULT_IST_INDEX),
            response: exception_response(DOUBLE_FAULT_VECTOR),
        },
    }
}

} // verus!
