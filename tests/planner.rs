use std::collections::HashMap;

use debugger::breakpoint::{low_byte_of, replace_low_byte, Breakpoint, INT3};
use debugger::debugger::{step_over_targets, Action, Command, Debugger, Event, Outcome, ResumeMode};
use debugger::dwarf::{AttrValue, DebugInfo, DieRecord, FileRecord, LineRow, UnitRecord, DW_TAG_COMPILE_UNIT, DW_TAG_SUBPROGRAM};
use debugger::error::DebugError;
use debugger::registers::{Register, RegisterBank};
use debugger::tracee::Tracee;

const BASE: u64 = 0x5577_aaa0_0000;
const MAPS: &str = "5577aaa00000-5577aaa01000 r--p 00000000 08:01 1234 /tmp/test";

/// A stopped tracee in memory: words by address, a register bank, and the
/// addresses at which successive `continue`s stop.
struct Sim {
    mem: HashMap<u64, u64>,
    regs: RegisterBank,
    hits: Vec<u64>,
    log: Vec<Action>,
    fail_at: Option<usize>,
}

fn initial_word(addr: u64) -> u64 {
    0x4889_e548_83ec_1000 | (addr & 0x7f)
}

fn bank(rip: u64, rbp: u64) -> RegisterBank {
    RegisterBank {
        rax: 0, rbx: 0, rcx: 0, rdx: 0, rdi: 0, rsi: 0, rbp, rsp: rbp - 0x20,
        r8: 0, r9: 0, r10: 0, r11: 0, r12: 0, r13: 0, r14: 0, r15: 0,
        rip, eflags: 0x246, cs: 0x33, orig_rax: 0, fs_base: 0, gs_base: 0,
        fs: 0, gs: 0, ss: 0x2b, ds: 0, es: 0,
    }
}

impl Sim {
    fn new(rip: u64, rbp: u64) -> Sim {
        Sim { mem: HashMap::new(), regs: bank(rip, rbp), hits: Vec::new(), log: Vec::new(), fail_at: None }
    }

    fn word(&self, addr: u64) -> u64 {
        *self.mem.get(&addr).unwrap_or(&initial_word(addr))
    }

    fn perform(&mut self, action: Action) -> Event {
        self.log.push(action);
        if self.fail_at == Some(self.log.len()) {
            return Event::Failed;
        }
        match action {
            Action::ReadRegisters => Event::Registers(self.regs),
            Action::WriteRegisters(b) => {
                self.regs = b;
                Event::RegistersWritten
            }
            Action::ReadWord(addr) => Event::Word(self.word(addr)),
            Action::Patch { addr, byte } => {
                let before = self.word(addr);
                self.mem.insert(addr, replace_low_byte(before, byte));
                Event::Patched(before)
            }
            Action::Resume(ResumeMode::Step) => {
                if low_byte_of(self.word(self.regs.rip)) == INT3 {
                    self.regs.rip += 1;
                    Event::Stopped { signo: 5, code: 0x80 }
                } else {
                    self.regs.rip += 4;
                    Event::Stopped { signo: 5, code: 2 }
                }
            }
            Action::Resume(ResumeMode::Continue) => {
                if self.hits.is_empty() {
                    return Event::Exited;
                }
                let at = self.hits.remove(0);
                assert_eq!(low_byte_of(self.word(at)), INT3, "no breakpoint armed where the tracee stops");
                self.regs.rip = at + 1;
                Event::Stopped { signo: 5, code: 0x80 }
            }
            Action::Finished(_) => panic!("a finished command asks nothing"),
        }
    }

    fn run(&mut self, dbg: &mut Debugger, cmd: Command) -> Outcome {
        let mut action = dbg.begin(cmd);
        for _ in 0..10_000 {
            if let Action::Finished(outcome) = action {
                return outcome;
            }
            let event = self.perform(action);
            action = dbg.advance(event);
        }
        panic!("command did not finish");
    }

    fn restored(&self) -> bool {
        self.mem.iter().all(|(a, w)| *w == initial_word(*a))
    }
}

fn row(address: u64, line: u64) -> LineRow {
    LineRow {
        address,
        file: Some(FileRecord { dir_index: 0, dir: None, name: "test.c".to_string() }),
        line,
        column: 1,
        decoded: true,
    }
}

fn sample_info() -> DebugInfo {
    let unit = UnitRecord {
        entries: vec![
            DieRecord { offset: 0xb, tag: DW_TAG_COMPILE_UNIT, low_pc: AttrValue::Addr(0x1000), high_pc: AttrValue::Udata(0x400) },
            DieRecord { offset: 0x2a, tag: DW_TAG_SUBPROGRAM, low_pc: AttrValue::Addr(0x1150), high_pc: AttrValue::Udata(0x80) },
            DieRecord { offset: 0x50, tag: DW_TAG_SUBPROGRAM, low_pc: AttrValue::Addr(0x1200), high_pc: AttrValue::Udata(0x40) },
        ],
        comp_dir: Some("/src".to_string()),
        rows: vec![
            row(0x1140, 10),
            row(0x1150, 10),
            row(0x11a0, 11),
            row(0x11b8, 12),
            row(0x11c8, 20),
            row(0x11d0, 20),
            row(0x1200, 30),
            row(0x1220, 31),
        ],
    };
    DebugInfo { units: vec![unit] }
}

fn pie_debugger() -> Debugger {
    Debugger::new(Tracee::new(4242, true, MAPS, sample_info()).unwrap())
}

fn snapshot(dbg: &Debugger) -> Vec<(u64, Breakpoint)> {
    let mut v: Vec<(u64, Breakpoint)> = dbg.breakpoints.iter().map(|(a, b)| (*a, *b)).collect();
    v.sort_by_key(|(a, _)| *a);
    v
}

#[test]
fn trivial_breakpoint_then_exit() {
    let mut dbg = pie_debugger();
    let mut sim = Sim::new(BASE + 0x1000, 0x7ffe_0000_1000);
    assert_eq!(sim.run(&mut dbg, Command::Break(0x1150)), Outcome::Stopped);
    let at = BASE + 0x1150;
    assert_eq!(at, 0x5577_aaa0_1150);
    assert_eq!(low_byte_of(sim.word(at)), INT3);
    assert_eq!(dbg.breakpoint_at(at), Some(Breakpoint { addr: at, saved: Some(low_byte_of(initial_word(at))), enabled: true }));
    sim.hits.push(at);
    assert_eq!(sim.run(&mut dbg, Command::Continue), Outcome::Stopped);
    assert_eq!(sim.regs.rip, at);
    assert_eq!(sim.run(&mut dbg, Command::Continue), Outcome::Exited);
}

#[test]
fn register_poke_after_stop() {
    let mut dbg = pie_debugger();
    let mut sim = Sim::new(BASE + 0x1000, 0x7ffe_0000_1000);
    sim.run(&mut dbg, Command::Break(0x1150));
    sim.hits.push(BASE + 0x1150);
    sim.run(&mut dbg, Command::Continue);
    let mut regs = sim.regs;
    regs.set(Register::Rax, 0x41);
    sim.regs = regs;
    assert_eq!(sim.regs.get(Register::Rax), 0x41);
    assert_eq!(format!("{:#x}", sim.regs.get(Register::Rax)), "0x41");
}

#[test]
fn consecutive_hits_rewind_once_each() {
    let mut dbg = pie_debugger();
    let at = BASE + 0x1150;
    let mut sim = Sim::new(BASE + 0x1000, 0x7ffe_0000_1000);
    sim.run(&mut dbg, Command::Break(0x1150));
    sim.hits.push(at);
    sim.hits.push(at);
    assert_eq!(sim.run(&mut dbg, Command::Continue), Outcome::Stopped);
    assert_eq!(sim.regs.rip, at);
    sim.log.clear();
    assert_eq!(sim.run(&mut dbg, Command::Continue), Outcome::Stopped);
    assert_eq!(sim.regs.rip, at);
    let writes = sim.log.iter().filter(|a| matches!(a, Action::WriteRegisters(_))).count();
    assert_eq!(writes, 1);
    assert_eq!(low_byte_of(sim.word(at)), INT3);
    assert!(dbg.breakpoint_at(at).unwrap().enabled);
}

#[test]
fn breakpoint_set_twice_stops_once() {
    let mut dbg = pie_debugger();
    let at = BASE + 0x1150;
    let mut sim = Sim::new(BASE + 0x1000, 0x7ffe_0000_1000);
    assert_eq!(sim.run(&mut dbg, Command::Break(0x1150)), Outcome::Stopped);
    assert_eq!(sim.run(&mut dbg, Command::Break(0x1150)), Outcome::Stopped);
    assert_eq!(dbg.breakpoints.len(), 1);
    assert_eq!(dbg.breakpoint_at(at).unwrap().saved, Some(low_byte_of(initial_word(at))));
    sim.hits.push(at);
    assert_eq!(sim.run(&mut dbg, Command::Continue), Outcome::Stopped);
    assert_eq!(sim.regs.rip, at);
    assert_eq!(sim.run(&mut dbg, Command::Continue), Outcome::Exited);
}

#[test]
fn step_instruction_over_a_breakpoint() {
    let mut dbg = pie_debugger();
    let at = BASE + 0x1150;
    let mut sim = Sim::new(BASE + 0x1000, 0x7ffe_0000_1000);
    sim.run(&mut dbg, Command::Break(0x1150));
    sim.regs.rip = at;
    assert_eq!(sim.run(&mut dbg, Command::StepInstruction), Outcome::Stopped);
    assert_eq!(sim.regs.rip, at + 4);
    assert_eq!(low_byte_of(sim.word(at)), INT3);
    assert_eq!(sim.run(&mut dbg, Command::StepInstruction), Outcome::Stopped);
    assert_eq!(sim.regs.rip, at + 8);
}

#[test]
fn step_out_stops_at_the_return_address() {
    let mut dbg = pie_debugger();
    let frame = 0x7ffe_0000_1000;
    let ret = BASE + 0x11a7;
    let mut sim = Sim::new(BASE + 0x1204, frame);
    sim.mem.insert(frame + 8, ret);
    sim.hits.push(ret);
    assert_eq!(sim.run(&mut dbg, Command::StepOut), Outcome::Stopped);
    assert_eq!(sim.regs.rip, 0x5577_aaa0_11a7);
    assert!(dbg.breakpoints.is_empty());
    sim.mem.remove(&(frame + 8));
    assert!(sim.restored());
}

#[test]
fn step_over_skips_the_call() {
    let mut dbg = pie_debugger();
    let mut sim = Sim::new(BASE + 0x11a4, 0x7ffe_0000_1000);
    sim.mem.insert(0x7ffe_0000_1008, BASE + 0x1300);
    sim.hits.push(BASE + 0x11b8);
    assert_eq!(sim.run(&mut dbg, Command::StepOver), Outcome::Stopped);
    assert_eq!(sim.regs.rip, BASE + 0x11b8);
    assert!(dbg.breakpoints.is_empty());
    sim.mem.remove(&0x7ffe_0000_1008);
    assert!(sim.restored());
    assert!(sim.log.contains(&Action::Patch { addr: BASE + 0x11b8, byte: INT3 }));
    assert!(!sim.log.contains(&Action::Patch { addr: BASE + 0x11a0, byte: INT3 }));
}

#[test]
fn step_over_targets_skip_the_current_line() {
    let t = Tracee::new(1, true, MAPS, sample_info()).unwrap();
    let v = step_over_targets(&t, BASE + 0x11a4).unwrap();
    assert_eq!(v, vec![BASE + 0x1140, BASE + 0x11b8, BASE + 0x11c8]);
    let v = step_over_targets(&t, BASE + 0x1160).unwrap();
    assert_eq!(v, vec![BASE + 0x11a0, BASE + 0x11b8, BASE + 0x11c8]);
    assert_eq!(step_over_targets(&t, BASE + 0x1300), Err(DebugError::OutsideKnownFunction));
}

#[test]
fn step_over_outside_a_function_fails() {
    let mut dbg = pie_debugger();
    let mut sim = Sim::new(BASE + 0x1300, 0x7ffe_0000_1000);
    assert_eq!(sim.run(&mut dbg, Command::StepOver), Outcome::Failed(DebugError::OutsideKnownFunction));
    assert_eq!(sim.log, vec![Action::ReadRegisters]);
    assert!(dbg.breakpoints.is_empty());
    assert!(dbg.is_idle());
}

#[test]
fn step_in_stops_at_a_new_line() {
    let mut dbg = pie_debugger();
    let mut sim = Sim::new(BASE + 0x1161, 0x7ffe_0000_1000);
    let start = dbg.tracee.get_line_entry(sim.regs.rip).unwrap().unwrap();
    assert_eq!(sim.run(&mut dbg, Command::StepIn), Outcome::Stopped);
    let now = dbg.tracee.get_line_entry(sim.regs.rip).unwrap().unwrap();
    assert!(!now.same_as(&start));
    assert_eq!(start.line, 10);
    assert_eq!(now.line, 11);
    assert_eq!(sim.regs.rip, BASE + 0x11a1);
}

#[test]
fn step_in_ends_where_no_line_is_known() {
    let mut dbg = pie_debugger();
    let mut sim = Sim::new(BASE + 0x13f0, 0x7ffe_0000_1000);
    assert_eq!(sim.run(&mut dbg, Command::StepIn), Outcome::Stopped);
    assert_eq!(sim.regs.rip, BASE + 0x1400);
    assert!(matches!(dbg.tracee.get_line_entry(sim.regs.rip), Ok(None)));
    assert_eq!(sim.run(&mut dbg, Command::StepIn), Outcome::Stopped);
    assert_eq!(sim.regs.rip, BASE + 0x1404);
}

#[test]
fn transient_breakpoints_keep_existing_ones() {
    let mut dbg = pie_debugger();
    let frame = 0x7ffe_0000_1000;
    let ret = BASE + 0x11a7;
    let mut sim = Sim::new(BASE + 0x1204, frame);
    sim.mem.insert(frame + 8, ret);
    assert_eq!(sim.run(&mut dbg, Command::Break(0x11a7)), Outcome::Stopped);
    let disabled = BASE + 0x11b8;
    dbg.breakpoints.insert(disabled, Breakpoint::new(disabled));
    let before = snapshot(&dbg);
    sim.hits.push(ret);
    assert_eq!(sim.run(&mut dbg, Command::StepOut), Outcome::Stopped);
    assert_eq!(snapshot(&dbg), before);
    assert_eq!(low_byte_of(sim.word(ret)), INT3);
    sim.mem.insert(frame + 8, disabled);
    sim.regs.rip = BASE + 0x1204;
    sim.hits.push(disabled);
    assert_eq!(sim.run(&mut dbg, Command::StepOut), Outcome::Stopped);
    assert_eq!(sim.regs.rip, disabled);
    assert_eq!(snapshot(&dbg), before);
    assert_eq!(sim.word(disabled), initial_word(disabled));
}

#[test]
fn tracee_exit_ends_a_continue() {
    let mut dbg = pie_debugger();
    let mut sim = Sim::new(BASE + 0x1000, 0x7ffe_0000_1000);
    assert_eq!(sim.run(&mut dbg, Command::Continue), Outcome::Exited);
    assert!(dbg.is_idle());
}

#[test]
fn failure_still_reverses_transients() {
    let mut dbg = pie_debugger();
    let frame = 0x7ffe_0000_1000;
    let mut sim = Sim::new(BASE + 0x11a4, frame);
    sim.mem.insert(frame + 8, BASE + 0x1300);
    // ReadRegisters, ReadWord, three arming patches, then the fourth fails.
    sim.fail_at = Some(6);
    assert_eq!(sim.run(&mut dbg, Command::StepOver), Outcome::Failed(DebugError::TraceeIO));
    assert!(dbg.breakpoints.is_empty());
    sim.mem.remove(&(frame + 8));
    assert!(sim.restored());
    assert!(dbg.is_idle());
}

#[test]
fn failed_read_fails_a_continue() {
    let mut dbg = pie_debugger();
    let mut sim = Sim::new(BASE + 0x1000, 0x7ffe_0000_1000);
    sim.fail_at = Some(1);
    assert_eq!(sim.run(&mut dbg, Command::Continue), Outcome::Failed(DebugError::TraceeIO));
    assert!(dbg.is_idle());
}

#[test]
fn failed_single_step_leaves_registry_matching_memory() {
    let mut dbg = pie_debugger();
    let at = BASE + 0x1150;
    let mut sim = Sim::new(BASE + 0x1000, 0x7ffe_0000_1000);
    sim.run(&mut dbg, Command::Break(0x1150));
    sim.regs.rip = at;
    sim.log.clear();
    // ReadRegisters, the patch that restores the byte, then the step fails.
    sim.fail_at = Some(3);
    assert_eq!(sim.run(&mut dbg, Command::Continue), Outcome::Failed(DebugError::TraceeIO));
    assert!(dbg.is_idle());
    assert!(!dbg.breakpoint_at(at).unwrap().enabled);
    assert_eq!(sim.word(at), initial_word(at));
}
