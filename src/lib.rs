//! The core of a source-level debugger for x86-64 Linux tracees: software
//! breakpoints patched over single instruction bytes, a register file, a
//! reader of DWARF line and subprogram information, and a planner that
//! drives the tracee one operation at a time through `continue`, `stepi`,
//! `step`, `next` and `finish`.
//!
//! The planner never touches the tracee itself: `debugger::Debugger::begin`
//! and `debugger::Debugger::advance` say which operation comes next and take
//! the tracee's answer, so that the decisions, and the laws about the
//! breakpoint registry that they keep, are proved apart from the kernel calls.

pub mod breakpoint;
pub mod debugger;
pub mod dwarf;
pub mod error;
pub mod registers;
pub mod repl;
pub mod tracee;
pub mod util;
