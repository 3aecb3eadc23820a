use debugger::error::DebugError;
use debugger::registers::{
    get_dwarf_number_from_reg, get_reg_from_dwarf_number, get_reg_from_string, Register,
    RegisterBank,
};

fn zero_bank() -> RegisterBank {
    RegisterBank {
        rax: 0, rbx: 0, rcx: 0, rdx: 0, rdi: 0, rsi: 0, rbp: 0, rsp: 0,
        r8: 0, r9: 0, r10: 0, r11: 0, r12: 0, r13: 0, r14: 0, r15: 0,
        rip: 0, eflags: 0, cs: 0, orig_rax: 0, fs_base: 0, gs_base: 0,
        fs: 0, gs: 0, ss: 0, ds: 0, es: 0,
    }
}

#[test]
fn register_names_resolve() {
    assert_eq!(get_reg_from_string("rax"), Ok(Register::Rax));
    assert_eq!(get_reg_from_string("r15"), Ok(Register::R15));
    assert_eq!(get_reg_from_string("orig_rax"), Ok(Register::OrigRax));
    assert_eq!(get_reg_from_string("fs_base"), Ok(Register::FsBase));
    assert_eq!(get_reg_from_string("rflags"), Ok(Register::Rflags));
    assert_eq!(get_reg_from_string("es"), Ok(Register::Es));
}

#[test]
fn register_names_ignore_case() {
    assert_eq!(get_reg_from_string("RAX"), Ok(Register::Rax));
    assert_eq!(get_reg_from_string("Rip"), Ok(Register::Rip));
    assert_eq!(get_reg_from_string("GS_BASE"), Ok(Register::GsBase));
}

#[test]
fn unknown_register_name_is_rejected() {
    assert_eq!(get_reg_from_string("eax"), Err(DebugError::UnknownRegister));
    assert_eq!(get_reg_from_string(""), Err(DebugError::UnknownRegister));
    assert_eq!(get_reg_from_string("rax "), Err(DebugError::UnknownRegister));
    assert_eq!(get_reg_from_string("r16"), Err(DebugError::UnknownRegister));
}

#[test]
fn dwarf_numbers_follow_the_abi() {
    assert_eq!(get_dwarf_number_from_reg(Register::Rax), Some(0));
    assert_eq!(get_dwarf_number_from_reg(Register::Rdx), Some(1));
    assert_eq!(get_dwarf_number_from_reg(Register::Rcx), Some(2));
    assert_eq!(get_dwarf_number_from_reg(Register::Rbx), Some(3));
    assert_eq!(get_dwarf_number_from_reg(Register::Rsi), Some(4));
    assert_eq!(get_dwarf_number_from_reg(Register::Rdi), Some(5));
    assert_eq!(get_dwarf_number_from_reg(Register::Rbp), Some(6));
    assert_eq!(get_dwarf_number_from_reg(Register::Rsp), Some(7));
    assert_eq!(get_dwarf_number_from_reg(Register::R12), Some(12));
    assert_eq!(get_dwarf_number_from_reg(Register::Rflags), Some(49));
    assert_eq!(get_dwarf_number_from_reg(Register::Es), Some(50));
    assert_eq!(get_dwarf_number_from_reg(Register::Cs), Some(51));
    assert_eq!(get_dwarf_number_from_reg(Register::Ss), Some(52));
    assert_eq!(get_dwarf_number_from_reg(Register::Ds), Some(53));
    assert_eq!(get_dwarf_number_from_reg(Register::Fs), Some(54));
    assert_eq!(get_dwarf_number_from_reg(Register::Gs), Some(55));
    assert_eq!(get_dwarf_number_from_reg(Register::FsBase), Some(58));
    assert_eq!(get_dwarf_number_from_reg(Register::GsBase), Some(59));
}

#[test]
fn rip_and_orig_rax_have_no_dwarf_number() {
    assert_eq!(get_dwarf_number_from_reg(Register::Rip), None);
    assert_eq!(get_dwarf_number_from_reg(Register::OrigRax), None);
}

#[test]
fn dwarf_numbers_map_back_to_registers() {
    assert_eq!(get_reg_from_dwarf_number(0), Ok(Register::Rax));
    assert_eq!(get_reg_from_dwarf_number(3), Ok(Register::Rbx));
    assert_eq!(get_reg_from_dwarf_number(7), Ok(Register::Rsp));
    assert_eq!(get_reg_from_dwarf_number(15), Ok(Register::R15));
    assert_eq!(get_reg_from_dwarf_number(49), Ok(Register::Rflags));
    assert_eq!(get_reg_from_dwarf_number(59), Ok(Register::GsBase));
    let all = [
        Register::Rax, Register::Rbx, Register::Rcx, Register::Rdx, Register::Rdi,
        Register::Rsi, Register::Rbp, Register::Rsp, Register::R8, Register::R9,
        Register::R10, Register::R11, Register::R12, Register::R13, Register::R14,
        Register::R15, Register::Rflags, Register::Cs, Register::FsBase, Register::GsBase,
        Register::Fs, Register::Gs, Register::Ss, Register::Ds, Register::Es,
    ];
    for reg in all {
        let n = get_dwarf_number_from_reg(reg).unwrap();
        assert_eq!(get_reg_from_dwarf_number(n), Ok(reg));
    }
}

#[test]
fn unsupported_dwarf_numbers_are_rejected() {
    assert_eq!(get_reg_from_dwarf_number(16), Err(DebugError::UnknownRegister));
    assert_eq!(get_reg_from_dwarf_number(48), Err(DebugError::UnknownRegister));
    assert_eq!(get_reg_from_dwarf_number(56), Err(DebugError::UnknownRegister));
    assert_eq!(get_reg_from_dwarf_number(255), Err(DebugError::UnknownRegister));
}

#[test]
fn register_write_then_read() {
    let mut bank = zero_bank();
    bank.rbx = 7;
    bank.set(Register::Rax, 0x41);
    assert_eq!(bank.get(Register::Rax), 0x41);
    assert_eq!(bank.get(Register::Rbx), 7);
    bank.set(Register::Rflags, 0x246);
    assert_eq!(bank.eflags, 0x246);
    assert_eq!(bank.get(Register::Rflags), 0x246);
    bank.set(Register::GsBase, u64::MAX);
    assert_eq!(bank.get(Register::GsBase), u64::MAX);
    assert_eq!(bank.get(Register::Rax), 0x41);
}
