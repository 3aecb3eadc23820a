use vstd::prelude::*;
use crate::error::DebugError;
use crate::util::{ascii_lower_seq, eq_ignore_ascii_case};

verus! {

/// The x86-64 registers that the debugger can name: general-purpose,
/// segment and flag registers.
#[derive(Clone, Copy, Debug, PartialEq, Eq, Structural)]
pub enum Register {
    Rax,
    Rbx,
    Rcx,
    Rdx,
    Rdi,
    Rsi,
    Rbp,
    Rsp,
    R8,
    R9,
    R10,
    R11,
    R12,
    R13,
    R14,
    R15,
    Rip,
    Rflags,
    Cs,
    OrigRax,
    FsBase,
    GsBase,
    Fs,
    Gs,
    Ss,
    Ds,
    Es,
}

/// The canonical name of each register, as the command surface writes it.
pub open spec fn reg_name(reg: Register) -> Seq<char> {
    match reg {
        Register::Rax => "rax"@,
        Register::Rbx => "rbx"@,
        Register::Rcx => "rcx"@,
        Register::Rdx => "rdx"@,
        Register::Rdi => "rdi"@,
        Register::Rsi => "rsi"@,
        Register::Rbp => "rbp"@,
        Register::Rsp => "rsp"@,
        Register::R8 => "r8"@,
        Register::R9 => "r9"@,
        Register::R10 => "r10"@,
        Register::R11 => "r11"@,
        Register::R12 => "r12"@,
        Register::R13 => "r13"@,
        Register::R14 => "r14"@,
        Register::R15 => "r15"@,
        Register::Rip => "rip"@,
        Register::Rflags => "rflags"@,
        Register::Cs => "cs"@,
        Register::OrigRax => "orig_rax"@,
        Register::FsBase => "fs_base"@,
        Register::GsBase => "gs_base"@,
        Register::Fs => "fs"@,
        Register::Gs => "gs"@,
        Register::Ss => "ss"@,
        Register::Ds => "ds"@,
        Register::Es => "es"@,
    }
}

/// The DWARF register number of each register, where x86-64 defines one.
pub open spec fn dwarf_number(reg: Register) -> Option<u8> {
    match reg {
        Register::Rax => Some(0u8),
        Register::Rbx => Some(3u8),
        Register::Rcx => Some(2u8),
        Register::Rdx => Some(1u8),
        Register::Rdi => Some(5u8),
        Register::Rsi => Some(4u8),
        Register::Rbp => Some(6u8),
        Register::Rsp => Some(7u8),
        Register::R8 => Some(8u8),
        Register::R9 => Some(9u8),
        Register::R10 => Some(10u8),
        Register::R11 => Some(11u8),
        Register::R12 => Some(12u8),
        Register::R13 => Some(13u8),
        Register::R14 => Some(14u8),
        Register::R15 => Some(15u8),
        Register::Rip => None,
        Register::Rflags => Some(49u8),
        Register::Cs => Some(51u8),
        Register::OrigRax => None,
        Register::FsBase => Some(58u8),
        Register::GsBase => Some(59u8),
        Register::Fs => Some(54u8),
        Register::Gs => Some(55u8),
        Register::Ss => Some(52u8),
        Register::Ds => Some(53u8),
        Register::Es => Some(50u8),
    }
}

/// The register that a DWARF register number denotes, if any.
pub open spec fn reg_of_dwarf_number(n: u8) -> Option<Register> {
    match n {
        0 => Some(Register::Rax),
        1 => Some(Register::Rdx),
        2 => Some(Register::Rcx),
        3 => Some(Register::Rbx),
        4 => Some(Register::Rsi),
        5 => Some(Register::Rdi),
        6 => Some(Register::Rbp),
        7 => Some(Register::Rsp),
        8 => Some(Register::R8),
        9 => Some(Register::R9),
        10 => Some(Register::R10),
        11 => Some(Register::R11),
        12 => Some(Register::R12),
        13 => Some(Register::R13),
        14 => Some(Register::R14),
        15 => Some(Register::R15),
        49 => Some(Register::Rflags),
        50 => Some(Register::Es),
        51 => Some(Register::Cs),
        52 => Some(Register::Ss),
        53 => Some(Register::Ds),
        54 => Some(Register::Fs),
        55 => Some(Register::Gs),
        58 => Some(Register::FsBase),
        59 => Some(Register::GsBase),
        _ => None,
    }
}

/// The two DWARF tables are inverse: a register has number `n` exactly when
/// `n` denotes that register.
pub proof fn lemma_dwarf_numbers_round_trip(reg: Register, n: u8)
    ensures
        dwarf_number(reg) == Some(n) <==> reg_of_dwarf_number(n) == Some(reg),
{
}

/// The register whose canonical name is `t`, if any.
pub open spec fn reg_named(t: Seq<char>) -> Option<Register> {
    if t == "rax"@ {
        Some(Register::Rax)
    } else if t == "rbx"@ {
        Some(Register::Rbx)
    } else if t == "rcx"@ {
        Some(Register::Rcx)
    } else if t == "rdx"@ {
        Some(Register::Rdx)
    } else if t == "rdi"@ {
        Some(Register::Rdi)
    } else if t == "rsi"@ {
        Some(Register::Rsi)
    } else if t == "rbp"@ {
        Some(Register::Rbp)
    } else if t == "rsp"@ {
        Some(Register::Rsp)
    } else if t == "r8"@ {
        Some(Register::R8)
    } else if t == "r9"@ {
        Some(Register::R9)
    } else if t == "r10"@ {
        Some(Register::R10)
    } else if t == "r11"@ {
        Some(Register::R11)
    } else if t == "r12"@ {
        Some(Register::R12)
    } else if t == "r13"@ {
        Some(Register::R13)
    } else if t == "r14"@ {
        Some(Register::R14)
    } else if t == "r15"@ {
        Some(Register::R15)
    } else if t == "rip"@ {
        Some(Register::Rip)
    } else if t == "rflags"@ {
        Some(Register::Rflags)
    } else if t == "cs"@ {
        Some(Register::Cs)
    } else if t == "orig_rax"@ {
        Some(Register::OrigRax)
    } else if t == "fs_base"@ {
        Some(Register::FsBase)
    } else if t == "gs_base"@ {
        Some(Register::GsBase)
    } else if t == "fs"@ {
        Some(Register::Fs)
    } else if t == "gs"@ {
        Some(Register::Gs)
    } else if t == "ss"@ {
        Some(Register::Ss)
    } else if t == "ds"@ {
        Some(Register::Ds)
    } else if t == "es"@ {
        Some(Register::Es)
    } else {
        None
    }
}

/// Looks a register up by name, ignoring ASCII case.
pub fn get_reg_from_string(s: &str) -> (r: Result<Register, DebugError>)
    ensures
        r matches Ok(reg) ==> ascii_lower_seq(s@) == reg_name(reg),
        r is Err ==> forall|reg: Register| ascii_lower_seq(s@) != #[trigger] reg_name(reg),
        r is Err ==> r == Err::<Register, DebugError>(DebugError::UnknownRegister),
        r == match reg_named(ascii_lower_seq(s@)) {
            Some(reg) => Ok::<Register, DebugError>(reg),
            None => Err(DebugError::UnknownRegister),
        },
{
    if eq_ignore_ascii_case(s, "rax") {
        return Ok(Register::Rax);
    }
    if eq_ignore_ascii_case(s, "rbx") {
        return Ok(Register::Rbx);
    }
    if eq_ignore_ascii_case(s, "rcx") {
        return Ok(Register::Rcx);
    }
    if eq_ignore_ascii_case(s, "rdx") {
        return Ok(Register::Rdx);
    }
    if eq_ignore_ascii_case(s, "rdi") {
        return Ok(Register::Rdi);
    }
    if eq_ignore_ascii_case(s, "rsi") {
        return Ok(Register::Rsi);
    }
    if eq_ignore_ascii_case(s, "rbp") {
        return Ok(Register::Rbp);
    }
    if eq_ignore_ascii_case(s, "rsp") {
        return Ok(Register::Rsp);
    }
    if eq_ignore_ascii_case(s, "r8") {
        return Ok(Register::R8);
    }
    if eq_ignore_ascii_case(s, "r9") {
        return Ok(Register::R9);
    }
    if eq_ignore_ascii_case(s, "r10") {
        return Ok(Register::R10);
    }
    if eq_ignore_ascii_case(s, "r11") {
        return Ok(Register::R11);
    }
    if eq_ignore_ascii_case(s, "r12") {
        return Ok(Register::R12);
    }
    if eq_ignore_ascii_case(s, "r13") {
        return Ok(Register::R13);
    }
    if eq_ignore_ascii_case(s, "r14") {
        return Ok(Register::R14);
    }
    if eq_ignore_ascii_case(s, "r15") {
        return Ok(Register::R15);
    }
    if eq_ignore_ascii_case(s, "rip") {
        return Ok(Register::Rip);
    }
    if eq_ignore_ascii_case(s, "rflags") {
        return Ok(Register::Rflags);
    }
    if eq_ignore_ascii_case(s, "cs") {
        return Ok(Register::Cs);
    }
    if eq_ignore_ascii_case(s, "orig_rax") {
        return Ok(Register::OrigRax);
    }
    if eq_ignore_ascii_case(s, "fs_base") {
        return Ok(Register::FsBase);
    }
    if eq_ignore_ascii_case(s, "gs_base") {
        return Ok(Register::GsBase);
    }
    if eq_ignore_ascii_case(s, "fs") {
        return Ok(Register::Fs);
    }
    if eq_ignore_ascii_case(s, "gs") {
        return Ok(Register::Gs);
    }
    if eq_ignore_ascii_case(s, "ss") {
        return Ok(Register::Ss);
    }
    if eq_ignore_ascii_case(s, "ds") {
        return Ok(Register::Ds);
    }
    if eq_ignore_ascii_case(s, "es") {
        return Ok(Register::Es);
    }
    assert forall|reg: Register| ascii_lower_seq(s@) != #[trigger] reg_name(reg) by {
        match reg {
            Register::Rax => {},
            Register::Rbx => {},
            Register::Rcx => {},
            Register::Rdx => {},
            Register::Rdi => {},
            Register::Rsi => {},
            Register::Rbp => {},
            Register::Rsp => {},
            Register::R8 => {},
            Register::R9 => {},
            Register::R10 => {},
            Register::R11 => {},
            Register::R12 => {},
            Register::R13 => {},
            Register::R14 => {},
            Register::R15 => {},
            Register::Rip => {},
            Register::Rflags => {},
            Register::Cs => {},
            Register::OrigRax => {},
            Register::FsBase => {},
            Register::GsBase => {},
            Register::Fs => {},
            Register::Gs => {},
            Register::Ss => {},
            Register::Ds => {},
            Register::Es => {},
        }
    }
    Err(DebugError::UnknownRegister)
}

/// The DWARF register number of `reg`; `rip` and `orig_rax` have none.
pub fn get_dwarf_number_from_reg(reg: Register) -> (r: Option<u8>)
    ensures
        r == dwarf_number(reg),
{
    match reg {
        Register::Rax => Some(0),
        Register::Rbx => Some(3),
        Register::Rcx => Some(2),
        Register::Rdx => Some(1),
        Register::Rdi => Some(5),
        Register::Rsi => Some(4),
        Register::Rbp => Some(6),
        Register::Rsp => Some(7),
        Register::R8 => Some(8),
        Register::R9 => Some(9),
        Register::R10 => Some(10),
        Register::R11 => Some(11),
        Register::R12 => Some(12),
        Register::R13 => Some(13),
        Register::R14 => Some(14),
        Register::R15 => Some(15),
        Register::Rflags => Some(49),
        Register::Cs => Some(51),
        Register::FsBase => Some(58),
        Register::GsBase => Some(59),
        Register::Fs => Some(54),
        Register::Gs => Some(55),
        Register::Ss => Some(52),
        Register::Ds => Some(53),
        Register::Es => Some(50),
        Register::Rip | Register::OrigRax => None,
    }
}

/// The register that a DWARF register number denotes.
pub fn get_reg_from_dwarf_number(dwarf: u8) -> (r: Result<Register, DebugError>)
    ensures
        r matches Ok(reg) ==> dwarf_number(reg) == Some(dwarf),
        r is Err ==> forall|reg: Register| #[trigger] dwarf_number(reg) != Some(dwarf),
        r == match reg_of_dwarf_number(dwarf) {
            Some(reg) => Ok::<Register, DebugError>(reg),
            None => Err(DebugError::UnknownRegister),
        },
{
    match dwarf {
        0 => Ok(Register::Rax),
        1 => Ok(Register::Rdx),
        2 => Ok(Register::Rcx),
        3 => Ok(Register::Rbx),
        4 => Ok(Register::Rsi),
        5 => Ok(Register::Rdi),
        6 => Ok(Register::Rbp),
        7 => Ok(Register::Rsp),
        8 => Ok(Register::R8),
        9 => Ok(Register::R9),
        10 => Ok(Register::R10),
        11 => Ok(Register::R11),
        12 => Ok(Register::R12),
        13 => Ok(Register::R13),
        14 => Ok(Register::R14),
        15 => Ok(Register::R15),
        49 => Ok(Register::Rflags),
        50 => Ok(Register::Es),
        51 => Ok(Register::Cs),
        52 => Ok(Register::Ss),
        53 => Ok(Register::Ds),
        54 => Ok(Register::Fs),
        55 => Ok(Register::Gs),
        58 => Ok(Register::FsBase),
        59 => Ok(Register::GsBase),
        _ => {
            assert forall|reg: Register| #[trigger] dwarf_number(reg) != Some(dwarf) by {
                match reg {
                    Register::Rax => {},
                    Register::Rbx => {},
                    Register::Rcx => {},
                    Register::Rdx => {},
                    Register::Rdi => {},
                    Register::Rsi => {},
                    Register::Rbp => {},
                    Register::Rsp => {},
                    Register::R8 => {},
                    Register::R9 => {},
                    Register::R10 => {},
                    Register::R11 => {},
                    Register::R12 => {},
                    Register::R13 => {},
                    Register::R14 => {},
                    Register::R15 => {},
                    Register::Rip => {},
                    Register::Rflags => {},
                    Register::Cs => {},
                    Register::OrigRax => {},
                    Register::FsBase => {},
                    Register::GsBase => {},
                    Register::Fs => {},
                    Register::Gs => {},
                    Register::Ss => {},
                    Register::Ds => {},
                    Register::Es => {},
                }
            }
            Err(DebugError::UnknownRegister)
        },
    }
}

/// The whole register bank of a stopped tracee, as plain values laid out
/// like the kernel's user register area.
#[derive(Clone, Copy, Debug, PartialEq, Eq, Structural)]
pub struct RegisterBank {
    pub rax: u64,
    pub rbx: u64,
    pub rcx: u64,
    pub rdx: u64,
    pub rdi: u64,
    pub rsi: u64,
    pub rbp: u64,
    pub rsp: u64,
    pub r8: u64,
    pub r9: u64,
    pub r10: u64,
    pub r11: u64,
    pub r12: u64,
    pub r13: u64,
    pub r14: u64,
    pub r15: u64,
    pub rip: u64,
    pub eflags: u64,
    pub cs: u64,
    pub orig_rax: u64,
    pub fs_base: u64,
    pub gs_base: u64,
    pub fs: u64,
    pub gs: u64,
    pub ss: u64,
    pub ds: u64,
    pub es: u64,
}

impl RegisterBank {
    /// The value that the bank holds for `reg`.
    pub open spec fn value(self, reg: Register) -> u64 {
        match reg {
            Register::Rax => self.rax,
            Register::Rbx => self.rbx,
            Register::Rcx => self.rcx,
            Register::Rdx => self.rdx,
            Register::Rdi => self.rdi,
            Register::Rsi => self.rsi,
            Register::Rbp => self.rbp,
            Register::Rsp => self.rsp,
            Register::R8 => self.r8,
            Register::R9 => self.r9,
            Register::R10 => self.r10,
            Register::R11 => self.r11,
            Register::R12 => self.r12,
            Register::R13 => self.r13,
            Register::R14 => self.r14,
            Register::R15 => self.r15,
            Register::Rip => self.rip,
            Register::Rflags => self.eflags,
            Register::Cs => self.cs,
            Register::OrigRax => self.orig_rax,
            Register::FsBase => self.fs_base,
            Register::GsBase => self.gs_base,
            Register::Fs => self.fs,
            Register::Gs => self.gs,
            Register::Ss => self.ss,
            Register::Ds => self.ds,
            Register::Es => self.es,
        }
    }

    /// The bank with `reg` set to `v` and every other register kept.
    pub open spec fn with_value(self, reg: Register, v: u64) -> RegisterBank {
        match reg {
            Register::Rax => RegisterBank { rax: v, ..self },
            Register::Rbx => RegisterBank { rbx: v, ..self },
            Register::Rcx => RegisterBank { rcx: v, ..self },
            Register::Rdx => RegisterBank { rdx: v, ..self },
            Register::Rdi => RegisterBank { rdi: v, ..self },
            Register::Rsi => RegisterBank { rsi: v, ..self },
            Register::Rbp => RegisterBank { rbp: v, ..self },
            Register::Rsp => RegisterBank { rsp: v, ..self },
            Register::R8 => RegisterBank { r8: v, ..self },
            Register::R9 => RegisterBank { r9: v, ..self },
            Register::R10 => RegisterBank { r10: v, ..self },
            Register::R11 => RegisterBank { r11: v, ..self },
            Register::R12 => RegisterBank { r12: v, ..self },
            Register::R13 => RegisterBank { r13: v, ..self },
            Register::R14 => RegisterBank { r14: v, ..self },
            Register::R15 => RegisterBank { r15: v, ..self },
            Register::Rip => RegisterBank { rip: v, ..self },
            Register::Rflags => RegisterBank { eflags: v, ..self },
            Register::Cs => RegisterBank { cs: v, ..self },
            Register::OrigRax => RegisterBank { orig_rax: v, ..self },
            Register::FsBase => RegisterBank { fs_base: v, ..self },
            Register::GsBase => RegisterBank { gs_base: v, ..self },
            Register::Fs => RegisterBank { fs: v, ..self },
            Register::Gs => RegisterBank { gs: v, ..self },
            Register::Ss => RegisterBank { ss: v, ..self },
            Register::Ds => RegisterBank { ds: v, ..self },
            Register::Es => RegisterBank { es: v, ..self },
        }
    }

    /// Reads one register out of the bank.
    pub fn get(&self, reg: Register) -> (r: u64)
        ensures
            r == self.value(reg),
    {
        match reg {
            Register::Rax => self.rax,
            Register::Rbx => self.rbx,
            Register::Rcx => self.rcx,
            Register::Rdx => self.rdx,
            Register::Rdi => self.rdi,
            Register::Rsi => self.rsi,
            Register::Rbp => self.rbp,
            Register::Rsp => self.rsp,
            Register::R8 => self.r8,
            Register::R9 => self.r9,
            Register::R10 => self.r10,
            Register::R11 => self.r11,
            Register::R12 => self.r12,
            Register::R13 => self.r13,
            Register::R14 => self.r14,
            Register::R15 => self.r15,
            Register::Rip => self.rip,
            Register::Rflags => self.eflags,
            Register::Cs => self.cs,
            Register::OrigRax => self.orig_rax,
            Register::FsBase => self.fs_base,
            Register::GsBase => self.gs_base,
            Register::Fs => self.fs,
            Register::Gs => self.gs,
            Register::Ss => self.ss,
            Register::Ds => self.ds,
            Register::Es => self.es,
        }
    }

    /// Stores `value` into one register of the bank.
    pub fn set(&mut self, reg: Register, value: u64)
        ensures
            *final(self) == old(self).with_value(reg, value),
    {
        match reg {
            Register::Rax => self.rax = value,
            Register::Rbx => self.rbx = value,
            Register::Rcx => self.rcx = value,
            Register::Rdx => self.rdx = value,
            Register::Rdi => self.rdi = value,
            Register::Rsi => self.rsi = value,
            Register::Rbp => self.rbp = value,
            Register::Rsp => self.rsp = value,
            Register::R8 => self.r8 = value,
            Register::R9 => self.r9 = value,
            Register::R10 => self.r10 = value,
            Register::R11 => self.r11 = value,
            Register::R12 => self.r12 = value,
            Register::R13 => self.r13 = value,
            Register::R14 => self.r14 = value,
            Register::R15 => self.r15 = value,
            Register::Rip => self.rip = value,
            Register::Rflags => self.eflags = value,
            Register::Cs => self.cs = value,
            Register::OrigRax => self.orig_rax = value,
            Register::FsBase => self.fs_base = value,
            Register::GsBase => self.gs_base = value,
            Register::Fs => self.fs = value,
            Register::Gs => self.gs = value,
            Register::Ss => self.ss = value,
            Register::Ds => self.ds = value,
            Register::Es => self.es = value,
        }
    }
}

/// Writing a register and reading it back yields the value written, and
/// leaves every other register as it was.
pub proof fn lemma_write_then_read(bank: RegisterBank, reg: Register, v: u64)
    ensures
        bank.with_value(reg, v).value(reg) == v,
        forall|other: Register| other != reg ==> #[trigger] bank.with_value(reg, v).value(other)
            == bank.value(other),
{
    assert forall|other: Register| other != reg implies #[trigger] bank.with_value(reg, v).value(
        other,
    ) == bank.value(other) by {
        match reg {
            Register::Rax => {},
            Register::Rbx => {},
            Register::Rcx => {},
            Register::Rdx => {},
            Register::Rdi => {},
            Register::Rsi => {},
            Register::Rbp => {},
            Register::Rsp => {},
            Register::R8 => {},
            Register::R9 => {},
            Register::R10 => {},
            Register::R11 => {},
            Register::R12 => {},
            Register::R13 => {},
            Register::R14 => {},
            Register::R15 => {},
            Register::Rip => {},
            Register::Rflags => {},
            Register::Cs => {},
            Register::OrigRax => {},
            Register::FsBase => {},
            Register::GsBase => {},
            Register::Fs => {},
            Register::Gs => {},
            Register::Ss => {},
            Register::Ds => {},
            Register::Es => {},
        }
    }
}

} // verus!
