use vstd::prelude::*;
use crate::dwarf::{DebugInfo, LineEntry, LineEntryView};
use crate::error::DebugError;
use crate::registers::{Register, RegisterBank};
use crate::util::{parse_radix16, radix16_value};

verus! {

/// Signal number of a trace/breakpoint trap.
pub const SIGTRAP: i32 = 5;

/// Signal number of a segmentation fault.
pub const SIGSEGV: i32 = 11;

/// Trap code of a software breakpoint.
pub const TRAP_BRKPT: i32 = 1;

/// Trap code of a completed single step.
pub const TRAP_TRACE: i32 = 2;

/// Trap code of a trap sent by the kernel, which is how `INT3` is reported.
pub const SI_KERNEL: i32 = 0x80;

/// Why the tracee stopped, from its signal information.
#[derive(Clone, Copy, Debug, PartialEq, Eq, Structural)]
pub enum StopReason {
    /// An `INT3` was executed: the recorded pc lies one past the trap byte.
    Breakpoint,
    /// A single step completed.
    SingleStep,
    /// Some other trap, with its code.
    OtherTrap(i32),
    /// A segmentation fault, with its reason code.
    Segfault(i32),
    /// Any other signal.
    Signal(i32),
}

pub open spec fn stop_reason(signo: i32, code: i32) -> StopReason {
    if signo == SIGTRAP {
        if code == TRAP_BRKPT || code == SI_KERNEL {
            StopReason::Breakpoint
        } else if code == TRAP_TRACE {
            StopReason::SingleStep
        } else {
            StopReason::OtherTrap(code)
        }
    } else if signo == SIGSEGV {
        StopReason::Segfault(code)
    } else {
        StopReason::Signal(signo)
    }
}

/// Classifies a stop by its signal number and code.
pub fn classify_stop(signo: i32, code: i32) -> (r: StopReason)
    ensures
        r == stop_reason(signo, code),
{
    if signo == SIGTRAP {
        if code == TRAP_BRKPT || code == SI_KERNEL {
            StopReason::Breakpoint
        } else if code == TRAP_TRACE {
            StopReason::SingleStep
        } else {
            StopReason::OtherTrap(code)
        }
    } else if signo == SIGSEGV {
        StopReason::Segfault(code)
    } else {
        StopReason::Signal(signo)
    }
}

/// The registers after a breakpoint trap, with `rip` moved back onto the trap byte.
pub open spec fn rewound(bank: RegisterBank) -> RegisterBank {
    bank.with_value(Register::Rip, (if bank.rip == 0 { u64::MAX } else { (bank.rip - 1) as u64 }))
}

/// Moves `rip` back by one, onto the `INT3` byte that the tracee just executed.
pub fn rewind_pc(bank: &RegisterBank) -> (r: RegisterBank)
    ensures
        r == rewound(*bank),
{
    let mut r = *bank;
    r.set(Register::Rip, bank.rip.wrapping_sub(1));
    r
}

/// The text of a memory-map line up to its first `-`, or all of it.
pub open spec fn first_field(line: Seq<char>, i: int) -> int
    decreases line.len() - i,
{
    if i < 0 || i >= line.len() {
        line.len() as int
    } else if line[i] == '-' {
        i
    } else {
        first_field(line, i + 1)
    }
}

/// The load base that the first line of a memory map gives: its low bound,
/// written in hexadecimal before the first `-`.
pub open spec fn maps_load_base(line: Seq<char>) -> Option<u64> {
    radix16_value(line.subrange(0, first_field(line, 0)))
}

proof fn lemma_first_field_bounds(line: Seq<char>, i: int)
    requires
        0 <= i <= line.len(),
    ensures
        i <= first_field(line, i) <= line.len(),
    decreases line.len() - i,
{
    if i < line.len() && line[i] != '-' {
        lemma_first_field_bounds(line, i + 1);
    }
}

/// Reads the load base out of the first line of the tracee's memory map.
pub fn parse_load_base(line: &str) -> (r: Result<u64, DebugError>)
    ensures
        match maps_load_base(line@) {
            Some(v) => r == Ok::<u64, DebugError>(v),
            None => r == Err::<u64, DebugError>(DebugError::MalformedMemoryMap),
        },
{
    let n = line.unicode_len();
    let mut end: usize = 0;
    while end < n && line.get_char(end) != '-'
        invariant
            n == line@.len(),
            end <= n,
            first_field(line@, 0) == first_field(line@, end as int),
        decreases n - end,
    {
        end = end + 1;
    }
    match parse_radix16(line, 0, end) {
        Some(v) => Ok(v),
        None => Err(DebugError::MalformedMemoryMap),
    }
}

/// The traced process as the debugger knows it: its pid, where its image
/// is loaded, and the debug information of its executable.
pub struct Tracee {
    pub pid: i32,
    pub start_load_addr: u64,
    pub info: DebugInfo,
}

impl Tracee {
    /// A tracee whose executable is position independent (`dynamic`) is loaded
    /// at the low bound that the first line of its memory map gives; any other
    /// is loaded at zero.
    pub fn new(pid: i32, dynamic: bool, maps_first_line: &str, info: DebugInfo) -> (r: Result<Tracee, DebugError>)
        ensures
            !dynamic ==> (r matches Ok(t) && t.start_load_addr == 0),
            dynamic ==> match maps_load_base(maps_first_line@) {
                Some(base) => (r matches Ok(t) && t.start_load_addr == base),
                None => (r matches Err(e) && e == DebugError::MalformedMemoryMap),
            },
            r matches Ok(t) ==> t.pid == pid && t.info == info,
    {
        let start_load_addr = if dynamic {
            match parse_load_base(maps_first_line) {
                Ok(base) => base,
                Err(e) => {
                    return Err(e);
                },
            }
        } else {
            0
        };
        Ok(Tracee { pid, start_load_addr, info })
    }

    /// The file-relative address of a runtime address.
    pub open spec fn file_relative(&self, addr: u64) -> u64 {
        ((addr - self.start_load_addr) % 0x1_0000_0000_0000_0000) as u64
    }

    /// The runtime address of a file-relative address.
    pub open spec fn runtime(&self, addr: u64) -> u64 {
        ((addr + self.start_load_addr) % 0x1_0000_0000_0000_0000) as u64
    }

    pub fn offset_load_addr(&self, addr: u64) -> (r: u64)
        ensures
            r == self.file_relative(addr),
    {
        addr.wrapping_sub(self.start_load_addr)
    }

    pub fn add_load_addr(&self, addr: u64) -> (r: u64)
        ensures
            r == self.runtime(addr),
    {
        addr.wrapping_add(self.start_load_addr)
    }

    /// The line entry active where the tracee's `rip` points.
    pub fn get_line_entry(&self, rip: u64) -> (r: Result<Option<LineEntry>, DebugError>)
        ensures
            match self.info.line_entry_for_pc(self.file_relative(rip)) {
                Err(e) => r == Err::<Option<LineEntry>, DebugError>(e),
                Ok(None) => r matches Ok(None),
                Ok(Some(v)) => r matches Ok(Some(e)) && e@ == v,
            },
    {
        let pc = self.offset_load_addr(rip);
        self.info.get_line_entry_from_pc(pc)
    }

    /// The subprogram (unit index, entry index) that covers the tracee's `rip`.
    pub fn get_func(&self, rip: u64) -> (r: Result<Option<(usize, usize)>, DebugError>)
        ensures
            r == self.info.subprogram_for_pc(self.file_relative(rip)),
            r matches Ok(Some((u, k))) ==> u < self.info.units@.len() && k < self.info.units@[u as int].entries@.len(),
    {
        let pc = self.offset_load_addr(rip);
        self.info.get_function_from_pc(pc)
    }
}

} // verus!
