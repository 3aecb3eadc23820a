use vstd::prelude::*;

verus! {

/// Every way a debugger operation can fail.
#[derive(Clone, Copy, Debug, PartialEq, Eq, Structural)]
pub enum DebugError {
    /// A trace, wait or signal-information call on the tracee failed.
    TraceeIO,
    /// A register name or DWARF register number that the register file does not know.
    UnknownRegister,
    /// A command word that the command surface does not know.
    UnknownCommand,
    /// A subcommand word that its command does not know.
    UnknownSubcommand,
    /// A numeric argument that is not `0x` followed by hexadecimal digits.
    BadHex,
    /// A command that lacks one of its arguments.
    MissingArgument,
    /// Debug sections that are present but violate the expected encoding.
    MalformedDebugInfo,
    /// `next` was asked for while the program counter lies in no known subprogram.
    OutsideKnownFunction,
    /// The line table has no row for an address that stepping needs.
    NoLineInfo,
    /// The first line of the tracee's memory map does not start with a hexadecimal bound.
    MalformedMemoryMap,
}

impl DebugError {
    /// A short human-readable description.
    pub fn message(&self) -> (s: &'static str) {
        match self {
            DebugError::TraceeIO => "tracee I/O failed",
            DebugError::UnknownRegister => "unknown register",
            DebugError::UnknownCommand => "unknown command",
            DebugError::UnknownSubcommand => "unknown subcommand",
            DebugError::BadHex => "pass hexadecimal values starting with 0x",
            DebugError::MissingArgument => "missing argument",
            DebugError::MalformedDebugInfo => "malformed debug information",
            DebugError::OutsideKnownFunction => "currently not in a function defined in the binary",
            DebugError::NoLineInfo => "no line information for this address",
            DebugError::MalformedMemoryMap => "malformed memory map",
        }
    }
}

} // verus!
