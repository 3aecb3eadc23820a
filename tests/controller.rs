use debugger::dwarf::DebugInfo;
use debugger::error::DebugError;
use debugger::registers::{Register, RegisterBank};
use debugger::tracee::{classify_stop, parse_load_base, rewind_pc, StopReason, Tracee};

fn bank_at(rip: u64) -> RegisterBank {
    RegisterBank {
        rax: 1, rbx: 2, rcx: 3, rdx: 4, rdi: 5, rsi: 6, rbp: 7, rsp: 8,
        r8: 0, r9: 0, r10: 0, r11: 0, r12: 0, r13: 0, r14: 0, r15: 0,
        rip, eflags: 0x246, cs: 0x33, orig_rax: 0, fs_base: 0, gs_base: 0,
        fs: 0, gs: 0, ss: 0x2b, ds: 0, es: 0,
    }
}

#[test]
fn stops_are_classified_by_signal_and_code() {
    assert_eq!(classify_stop(5, 1), StopReason::Breakpoint);
    assert_eq!(classify_stop(5, 0x80), StopReason::Breakpoint);
    assert_eq!(classify_stop(5, 2), StopReason::SingleStep);
    assert_eq!(classify_stop(5, 4), StopReason::OtherTrap(4));
    assert_eq!(classify_stop(11, 1), StopReason::Segfault(1));
    assert_eq!(classify_stop(2, 0), StopReason::Signal(2));
}

#[test]
fn rewind_moves_rip_back_one_byte() {
    let bank = bank_at(0x5577_aaa0_1151);
    let r = rewind_pc(&bank);
    assert_eq!(r.get(Register::Rip), 0x5577_aaa0_1150);
    assert_eq!(r.rax, 1);
    assert_eq!(r.eflags, 0x246);
    let twice = rewind_pc(&r);
    assert_eq!(twice.rip, 0x5577_aaa0_114f);
}

#[test]
fn pie_load_base_is_read_from_the_memory_map() {
    let line = "5577aaa00000-5577aaa01000 r--p 00000000 08:01 1234 /tmp/test";
    assert_eq!(parse_load_base(line), Ok(0x5577_aaa0_0000));
    let t = Tracee::new(42, true, line, DebugInfo { units: Vec::new() }).unwrap();
    assert_eq!(t.start_load_addr, 0x5577_aaa0_0000);
    assert_eq!(t.add_load_addr(0x1150), 0x5577_aaa0_1150);
    assert_eq!(t.offset_load_addr(0x5577_aaa0_1150), 0x1150);
    assert_eq!(t.pid, 42);
}

#[test]
fn fixed_executables_load_at_zero() {
    let t = Tracee::new(7, false, "", DebugInfo { units: Vec::new() }).unwrap();
    assert_eq!(t.start_load_addr, 0);
    assert_eq!(t.add_load_addr(0x401000), 0x401000);
}

#[test]
fn malformed_memory_map_is_rejected() {
    assert_eq!(parse_load_base("-5577"), Err(DebugError::MalformedMemoryMap));
    assert_eq!(parse_load_base("zz-10"), Err(DebugError::MalformedMemoryMap));
    assert_eq!(parse_load_base(""), Err(DebugError::MalformedMemoryMap));
    assert!(Tracee::new(1, true, "garbage", DebugInfo { units: Vec::new() }).is_err());
    assert_eq!(parse_load_base("400000"), Ok(0x400000));
}
