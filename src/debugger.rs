use vstd::prelude::*;
use std::collections::HashMap;
use crate::breakpoint::{
    armed_at, lemma_transient_round_trip, low_byte, low_byte_of, registry_wf,
    transient_reverse, transient_reverse_all, transient_set, Breakpoint, PostAction, INT3,
};
use crate::dwarf::{
    die_range, first_row_for_line, get_die_addr_range, same_entry, LineEntry, LineEntryView,
    LineRow,
};
use crate::error::DebugError;
use crate::registers::RegisterBank;
use crate::tracee::{classify_stop, rewind_pc, rewound, stop_reason, StopReason, Tracee};

verus! {

broadcast use vstd::std_specs::hash::group_hash_axioms;

/// The runtime addresses of the lines `from..=to` other than `cur` that the
/// unit's line table knows, lowest line first: for each, the address of the
/// first row that names it, moved by the load base.
pub open spec fn line_targets(t: Tracee, rows: Seq<LineRow>, from: int, to: int, cur: u64) -> Seq<u64>
    decreases to - from + 1,
{
    if to < from {
        Seq::empty()
    } else {
        let before = line_targets(t, rows, from, to - 1, cur);
        match first_row_for_line(rows, to as u64, 0) {
            Some(j) if to != cur => before.push(t.runtime(rows[j].address)),
            _ => before,
        }
    }
}

/// Where `next` plants transient breakpoints (the return address aside):
/// at each line of the current subprogram, from the line active at its start
/// to the line active at its end, except the current line.
pub open spec fn step_over_plan(t: Tracee, rip: u64) -> Result<Seq<u64>, DebugError> {
    let pc = t.file_relative(rip);
    match t.info.subprogram_for_pc(pc) {
        Err(e) => Err(e),
        Ok(None) => Err(DebugError::OutsideKnownFunction),
        Ok(Some((u, k))) => match die_range(t.info.units@[u as int].entries@[k as int]) {
            None => Err(DebugError::MalformedDebugInfo),
            Some((lo, hi)) => match t.info.line_entry_for_pc(lo) {
                Err(e) => Err(e),
                Ok(None) => Err(DebugError::NoLineInfo),
                Ok(Some(first)) => match t.info.line_entry_for_pc(hi) {
                    Err(e) => Err(e),
                    Ok(None) => Err(DebugError::NoLineInfo),
                    Ok(Some(last)) => match t.info.line_entry_for_pc(pc) {
                        Err(e) => Err(e),
                        Ok(None) => Err(DebugError::NoLineInfo),
                        Ok(Some(current)) => Ok(
                            line_targets(
                                t,
                                t.info.units@[u as int].rows@,
                                first.line as int,
                                last.line as int,
                                current.line,
                            ),
                        ),
                    },
                },
            },
        },
    }
}

fn push_line_target(t: &Tracee, lines: &HashMap<u64, u64>, rows: Ghost<Seq<LineRow>>, line: u64, cur: u64, v: &mut Vec<u64>)
    requires
        forall|l: u64| #[trigger] lines@.contains_key(l) <==> first_row_for_line(rows@, l, 0) is Some,
        forall|l: u64| #[trigger]
            lines@.contains_key(l) ==> lines@[l] == rows@[first_row_for_line(rows@, l, 0).unwrap()].address,
    ensures
        final(v)@ == match first_row_for_line(rows@, line, 0) {
            Some(j) if line != cur => old(v)@.push(t.runtime(rows@[j].address)),
            _ => old(v)@,
        },
{
    if line != cur {
        match lines.get(&line) {
            Some(a) => v.push(t.add_load_addr(*a)),
            None => {},
        }
    }
}

/// The runtime addresses at which `next` sets transient breakpoints, before
/// the return address, when the tracee stands at `rip`.
pub fn step_over_targets(t: &Tracee, rip: u64) -> (r: Result<Vec<u64>, DebugError>)
    ensures
        match step_over_plan(*t, rip) {
            Ok(s) => (r matches Ok(v) && v@ == s),
            Err(e) => r == Err::<Vec<u64>, DebugError>(e),
        },
{
    let pc = t.offset_load_addr(rip);
    let (u, k) = match t.get_func(rip) {
        Err(e) => {
            return Err(e);
        },
        Ok(None) => {
            return Err(DebugError::OutsideKnownFunction);
        },
        Ok(Some(found)) => found,
    };
    let (lo, hi) = match get_die_addr_range(&t.info.units[u].entries[k]) {
        Err(e) => {
            return Err(e);
        },
        Ok(range) => range,
    };
    let first = match t.info.get_line_entry_from_pc(lo) {
        Err(e) => {
            return Err(e);
        },
        Ok(None) => {
            return Err(DebugError::NoLineInfo);
        },
        Ok(Some(e)) => e,
    };
    let last = match t.info.get_line_entry_from_pc(hi) {
        Err(e) => {
            return Err(e);
        },
        Ok(None) => {
            return Err(DebugError::NoLineInfo);
        },
        Ok(Some(e)) => e,
    };
    let current = match t.get_line_entry(rip) {
        Err(e) => {
            return Err(e);
        },
        Ok(None) => {
            return Err(DebugError::NoLineInfo);
        },
        Ok(Some(e)) => e,
    };
    let lines = t.info.get_lines_for_unit(u);
    let ghost rows = t.info.units@[u as int].rows@;
    let mut v: Vec<u64> = Vec::new();
    let from = first.line;
    let to = last.line;
    if from <= to {
        let mut line = from;
        while line < to
            invariant
                from <= line <= to,
                rows == t.info.units@[u as int].rows@,
                forall|l: u64| #[trigger] lines@.contains_key(l) <==> first_row_for_line(rows, l, 0) is Some,
                forall|l: u64| #[trigger]
                    lines@.contains_key(l) ==> lines@[l] == rows[first_row_for_line(rows, l, 0).unwrap()].address,
                v@ == line_targets(*t, rows, from as int, line - 1, current.line),
            decreases to - line,
        {
            push_line_target(t, &lines, Ghost(rows), line, current.line, &mut v);
            line = line + 1;
        }
        push_line_target(t, &lines, Ghost(rows), to, current.line, &mut v);
    }
    Ok(v)
}

/// How the tracee is to be resumed.
#[derive(Clone, Copy, Debug, PartialEq, Eq, Structural)]
pub enum ResumeMode {
    /// Execute one instruction.
    Step,
    /// Run until the next stop.
    Continue,
}

/// How a command ended.
#[derive(Clone, Copy, Debug, PartialEq, Eq, Structural)]
pub enum Outcome {
    /// The command is done and the tracee is stopped.
    Stopped,
    /// The tracee exited.
    Exited,
    /// The command failed.
    Failed(DebugError),
}

/// What the debugger asks of the tracee next.
#[derive(Clone, Copy, Debug, PartialEq, Eq, Structural)]
pub enum Action {
    /// Fetch the register bank; answered by `Event::Registers`.
    ReadRegisters,
    /// Store the register bank; answered by `Event::RegistersWritten`.
    WriteRegisters(RegisterBank),
    /// Peek the word at an address; answered by `Event::Word`.
    ReadWord(u64),
    /// Read the word at `addr`, replace its low byte by `byte` and write it
    /// back; answered by `Event::Patched` with the word read.
    Patch { addr: u64, byte: u8 },
    /// Resume the tracee and wait until it stops or exits; answered by
    /// `Event::Stopped` or `Event::Exited`.
    Resume(ResumeMode),
    /// The command is over.
    Finished(Outcome),
}

/// What the tracee answered.
#[derive(Clone, Copy, Debug, PartialEq, Eq, Structural)]
pub enum Event {
    Registers(RegisterBank),
    Word(u64),
    /// The word that was at the patched address before the patch.
    Patched(u64),
    RegistersWritten,
    /// The tracee stopped, with its signal number and signal code.
    Stopped { signo: i32, code: i32 },
    Exited,
    /// The trace call failed.
    Failed,
}

/// A command of the planner.
#[derive(Clone, Copy, Debug, PartialEq, Eq, Structural)]
pub enum Command {
    /// Set a persistent breakpoint at a file-relative address.
    Break(u64),
    Continue,
    /// Execute one instruction, stepping over a breakpoint at the pc.
    StepInstruction,
    /// Step until the source line changes.
    StepIn,
    /// Step to the next line of the current subprogram, over calls.
    StepOver,
    /// Run until the current subprogram returns.
    StepOut,
}

/// Whose resume a wait belongs to.
#[derive(Clone, Copy, Debug, PartialEq, Eq, Structural)]
pub enum AfterResume {
    /// The single step over the breakpoint at `pc`, which displaced `saved`.
    Rearm { pc: u64, saved: u8 },
    /// The command's own resume.
    Command,
}

/// Where the debugger stands within a command.
#[derive(Clone, Copy, Debug, PartialEq, Eq, Structural)]
pub enum Stage {
    Idle,
    /// Stepping over a breakpoint: waiting for the registers to learn the pc.
    SobRegs,
    /// Stepping over a breakpoint: waiting for its byte to be restored.
    SobDisarm { pc: u64, saved: u8 },
    /// Stepping over a breakpoint: waiting for `INT3` to be written back.
    SobRearm { pc: u64, saved: u8 },
    /// Waiting for the tracee to stop after a resume.
    Resumed { after: AfterResume },
    /// After a breakpoint trap: waiting for the registers to rewind the pc.
    RewindRegs { after: AfterResume },
    /// After a breakpoint trap: waiting for the rewound registers to be stored.
    Rewound { after: AfterResume },
    /// `break`: waiting for the armed breakpoint at `addr`, which displaced
    /// `saved`, to be disarmed.
    BreakDisarm { addr: u64, saved: u8 },
    /// `break`: waiting for `INT3` to be written at `addr`; `keep` is the
    /// byte just restored there when the address was armed before.
    BreakArm { addr: u64, keep: Option<u8> },
    /// `step`: waiting for the registers to look up the line.
    StepInRegs,
    /// `next` / `finish`: waiting for the registers of the current frame.
    FrameRegs,
    /// `next` / `finish`: waiting for the return address.
    ReturnWord,
    /// Waiting for a transient breakpoint to be armed at `addr`.
    Arming { addr: u64 },
    /// Waiting for a transient breakpoint at `addr` to be reversed.
    Reversing { addr: u64, action: PostAction },
}

/// The command under way.
#[derive(Clone, Copy, Debug, PartialEq, Eq, Structural)]
pub enum Goal {
    Idle,
    Break,
    Continue,
    StepInstruction,
    StepIn,
    StepOver,
    StepOut,
}

/// Whether a line entry reached while stepping ends `step`: no entry, or
/// one that differs from the starting entry.
pub open spec fn entry_differs(now: Option<LineEntryView>, start: Option<LineEntryView>) -> bool {
    match (now, start) {
        (None, _) => true,
        (Some(_), None) => true,
        (Some(a), Some(b)) => !same_entry(a, b),
    }
}

pub open spec fn view_of(e: Option<LineEntry>) -> Option<LineEntryView> {
    match e {
        Some(x) => Some(x@),
        None => None,
    }
}

pub open spec fn is_breakpoint_trap(signo: i32, code: i32) -> bool {
    stop_reason(signo, code) == StopReason::Breakpoint
}

/// The addresses of the transient breakpoints placed so far.
pub open spec fn placed_addrs(p: Seq<(u64, PostAction)>) -> Seq<u64> {
    p.map_values(|x: (u64, PostAction)| x.0)
}

/// The post-actions of the transient breakpoints placed so far.
pub open spec fn placed_actions(p: Seq<(u64, PostAction)>) -> Seq<PostAction> {
    p.map_values(|x: (u64, PostAction)| x.1)
}

/// The registry once every placed transient breakpoint is reversed, the last one first.
pub open spec fn unwound(reg: Map<u64, Breakpoint>, p: Seq<(u64, PostAction)>) -> Map<u64, Breakpoint> {
    transient_reverse_all(reg, placed_addrs(p), placed_actions(p))
}

proof fn lemma_unwound_last(reg: Map<u64, Breakpoint>, p: Seq<(u64, PostAction)>)
    requires
        p.len() > 0,
    ensures
        unwound(reg, p) == unwound(transient_reverse(reg, p.last().0, p.last().1, 0), p.drop_last()),
{
    assert(placed_addrs(p).drop_last() =~= placed_addrs(p.drop_last()));
    assert(placed_actions(p).drop_last() =~= placed_actions(p.drop_last()));
}

proof fn lemma_unwound_push(reg: Map<u64, Breakpoint>, p: Seq<(u64, PostAction)>, x: (u64, PostAction))
    ensures
        unwound(reg, p.push(x)) == unwound(transient_reverse(reg, x.0, x.1, 0), p),
{
    lemma_unwound_last(reg, p.push(x));
    assert(p.push(x).drop_last() =~= p);
}

pub open spec fn armed_in(reg: Map<u64, Breakpoint>, a: u64) -> bool {
    reg.contains_key(a) && reg[a].enabled
}

/// The registry agrees with the bytes the debugger wrote: `INT3` at every
/// armed breakpoint, which holds the byte it displaced, and that byte back
/// at every other address the debugger has patched.
pub open spec fn memory_agrees(reg: Map<u64, Breakpoint>, written: Map<u64, u8>, displaced: Map<u64, u8>) -> bool {
    &&& forall|a: u64| #[trigger] reg.contains_key(a) && reg[a].enabled ==> written.contains_key(a)
        && written[a] == INT3 && reg[a].saved == Some(displaced[a])
    &&& forall|a: u64| #[trigger] written.contains_key(a) ==> displaced.contains_key(a) && (!armed_in(reg, a)
        ==> written[a] == displaced[a])
}

/// The commands that resume the tracee, and so must leave the registry as they found it.
pub open spec fn resumes_tracee(goal: Goal) -> bool {
    goal == Goal::Continue || goal == Goal::StepInstruction || goal == Goal::StepIn || goal == Goal::StepOver
        || goal == Goal::StepOut
}

/// The stages of stepping over a breakpoint at the pc and of waiting on a resume.
pub open spec fn running_stage(s: Stage) -> bool {
    s is SobRegs || s is SobDisarm || s is SobRearm || s is Resumed || s is RewindRegs || s is Rewound
}

/// The stages in which the breakpoint at the pc is disarmed for a single step,
/// or a reversal patch is awaited: a failure there leaves the registry changed.
pub open spec fn fragile_stage(s: Stage) -> bool {
    match s {
        Stage::Resumed { after: AfterResume::Rearm { .. } } => true,
        Stage::RewindRegs { after: AfterResume::Rearm { .. } } => true,
        Stage::Rewound { after: AfterResume::Rearm { .. } } => true,
        Stage::SobRearm { .. } => true,
        Stage::Reversing { .. } => true,
        _ => false,
    }
}

/// What a command does once the breakpoint at the pc has been stepped over
/// (`stepped`), or found absent: `stepi` is done or steps once, `step` looks
/// at the line or steps once, and the others run on.
pub open spec fn after_stepping_over(goal: Goal, stepped: bool) -> Action {
    match goal {
        Goal::StepInstruction => if stepped {
            Action::Finished(Outcome::Stopped)
        } else {
            Action::Resume(ResumeMode::Step)
        },
        Goal::StepIn => if stepped {
            Action::ReadRegisters
        } else {
            Action::Resume(ResumeMode::Step)
        },
        _ => Action::Resume(ResumeMode::Continue),
    }
}

/// The resume whose wait an event ends: a stop that is no breakpoint trap,
/// or the storing of the rewound registers after one.
pub open spec fn wait_ends(stage: Stage, event: Event) -> Option<AfterResume> {
    match (stage, event) {
        (Stage::Resumed { after }, Event::Stopped { signo, code }) => if is_breakpoint_trap(signo, code) {
            None
        } else {
            Some(after)
        },
        (Stage::Rewound { after }, Event::RegistersWritten) => Some(after),
        _ => None,
    }
}

/// Where the return address of the current frame is saved: `rbp + 8`.
pub open spec fn return_slot(rbp: u64) -> u64 {
    ((rbp + 8) % 0x1_0000_0000_0000_0000) as u64
}

/// The debugger: the tracee, the breakpoint registry, and the command under
/// way as a state machine that asks for one tracee operation at a time.
pub struct Debugger {
    pub tracee: Tracee,
    /// Breakpoints by runtime address.
    pub breakpoints: HashMap<u64, Breakpoint>,
    pub goal: Goal,
    pub stage: Stage,
    /// `step`: whether the starting line entry has been recorded.
    pub started: bool,
    /// `step`: the starting line entry.
    pub start_entry: Option<LineEntry>,
    /// `next` / `finish`: where transient breakpoints go.
    pub targets: Vec<u64>,
    /// `next` / `finish`: how many targets have been handled.
    pub next_target: usize,
    /// `next` / `finish`: the transient breakpoints set so far and their post-actions.
    pub placed: Vec<(u64, PostAction)>,
    /// `next` / `finish`: whether the transient breakpoints are being reversed.
    pub reversing: bool,
    /// `next` / `finish`: the first failure, reported once every transient breakpoint is reversed.
    pub error: Option<DebugError>,
    /// The registry as the command under way found it.
    pub entry_registry: Ghost<Map<u64, Breakpoint>>,
    /// Whether a failure struck while a breakpoint was disarmed for a single
    /// step or a reversal patch was awaited.
    pub damaged: Ghost<bool>,
    /// The low byte the debugger last wrote at each address it has patched.
    pub written: Ghost<Map<u64, u8>>,
    /// The instruction byte that the last arming at each address displaced.
    pub displaced: Ghost<Map<u64, u8>>,
}

impl Debugger {
    /// The invariant that every command keeps, in every state between two calls.
    pub open spec fn wf(&self) -> bool {
        &&& registry_wf(self.breakpoints@)
        &&& self.next_target <= self.targets@.len()
        &&& (self.stage is Arming ==> self.next_target < self.targets@.len())
        &&& (self.stage is BreakDisarm || self.stage is BreakArm ==> self.goal == Goal::Break)
        &&& (self.stage is StepInRegs ==> self.goal == Goal::StepIn)
        &&& (running_stage(self.stage) ==> resumes_tracee(self.goal))
        &&& (self.stage is FrameRegs || self.stage is ReturnWord || self.stage is Arming
            || self.stage is Reversing ==> self.transient())
        &&& (self.stage is FrameRegs || self.stage is ReturnWord ==> self.placed@.len() == 0)
        &&& (self.goal == Goal::Continue || self.goal == Goal::StepInstruction || self.goal == Goal::StepIn
            ==> self.placed@.len() == 0)
        &&& (forall|i: int| 0 <= i < self.placed@.len() ==> (#[trigger] self.placed@[i]).1 != PostAction::Enable)
        &&& (self.stage is Reversing ==> self.reversing)
        &&& (resumes_tracee(self.goal) && !self.transient() ==> !self.reversing)
        &&& (self.reversing ==> !running_stage(self.stage))
        &&& (self.stage is FrameRegs || self.stage is ReturnWord || self.stage is Arming ==> !self.reversing)
        &&& (self.transient() && !self.reversing ==> forall|i: int|
            0 <= i < self.next_target ==> armed_in(self.effective_registry(), #[trigger] self.targets@[i]))
        &&& (self.transient() && !self.reversing && running_stage(self.stage) ==> self.next_target
            == self.targets@.len())
        &&& self.restorable()
        &&& self.memory_consistent()
        &&& self.stage_consistent()
    }

    /// The registry has an armed breakpoint at `a`.
    pub open spec fn armed(&self, a: u64) -> bool {
        armed_in(self.breakpoints@, a)
    }

    /// The registry agrees with the bytes the debugger has written into the tracee.
    pub open spec fn memory_consistent(&self) -> bool {
        memory_agrees(self.breakpoints@, self.written@, self.displaced@)
    }

    /// What each stage that waits on a patch knows of the breakpoint it patches.
    pub open spec fn stage_consistent(&self) -> bool {
        match self.stage {
            Stage::SobDisarm { pc, saved } => self.breakpoints@.contains_key(pc) && self.breakpoints@[pc]
                == armed_at(pc, saved),
            Stage::Resumed { after: AfterResume::Rearm { pc, saved } } => self.displaced@.contains_key(pc)
                && self.displaced@[pc] == saved,
            Stage::RewindRegs { after: AfterResume::Rearm { pc, saved } } => self.displaced@.contains_key(pc)
                && self.displaced@[pc] == saved,
            Stage::Rewound { after: AfterResume::Rearm { pc, saved } } => self.displaced@.contains_key(pc)
                && self.displaced@[pc] == saved,
            Stage::SobRearm { pc, saved } => self.displaced@.contains_key(pc) && self.displaced@[pc] == saved,
            Stage::BreakDisarm { addr, saved } => self.breakpoints@.contains_key(addr)
                && self.breakpoints@[addr] == armed_at(addr, saved),
            Stage::BreakArm { addr, keep } => !self.armed(addr) && (keep matches Some(b)
                ==> self.displaced@.contains_key(addr) && self.displaced@[addr] == b),
            Stage::Arming { addr } => !self.armed(addr) && self.next_target < self.targets@.len()
                && self.targets@[self.next_target as int] == addr,
            Stage::Reversing { addr, action } => (action == PostAction::Delete || action
                == PostAction::Disable) && self.armed(addr),
            _ => true,
        }
    }

    /// The command under way sets transient breakpoints.
    pub open spec fn transient(&self) -> bool {
        self.goal == Goal::StepOver || self.goal == Goal::StepOut
    }

    /// The command under way must leave the registry as it found it.
    pub open spec fn tracking(&self) -> bool {
        resumes_tracee(self.goal)
    }

    /// The registry as it stands once the patch awaited is done: a breakpoint
    /// stepped over is armed again, and a reversal under way is applied.
    pub open spec fn effective_registry(&self) -> Map<u64, Breakpoint> {
        match self.stage {
            Stage::Resumed { after: AfterResume::Rearm { pc, saved } } => self.breakpoints@.insert(pc, armed_at(pc, saved)),
            Stage::RewindRegs { after: AfterResume::Rearm { pc, saved } } => self.breakpoints@.insert(pc, armed_at(pc, saved)),
            Stage::Rewound { after: AfterResume::Rearm { pc, saved } } => self.breakpoints@.insert(pc, armed_at(pc, saved)),
            Stage::SobRearm { pc, saved } => self.breakpoints@.insert(pc, armed_at(pc, saved)),
            Stage::Reversing { addr, action } => transient_reverse(self.breakpoints@, addr, action, 0),
            _ => self.breakpoints@,
        }
    }

    /// Unless a re-arm or a reversal failed, reversing the transient
    /// breakpoints placed so far gives back the registry the command found.
    pub open spec fn restorable(&self) -> bool {
        self.tracking() && !self.damaged@ ==> unwound(self.effective_registry(), self.placed@)
            == self.entry_registry@
    }

    /// The same, from the registry as it stands.
    pub open spec fn settled(&self) -> bool {
        self.tracking() && !self.damaged@ ==> unwound(self.breakpoints@, self.placed@) == self.entry_registry@
    }

    pub open spec fn idle(&self) -> bool {
        self.goal == Goal::Idle && self.stage == Stage::Idle
    }

    /// A debugger of a freshly stopped tracee, with no breakpoints.
    pub fn new(tracee: Tracee) -> (d: Debugger)
        ensures
            d.wf(),
            d.idle(),
            d.breakpoints@ == Map::<u64, Breakpoint>::empty(),
            d.written@ == Map::<u64, u8>::empty(),
            d.tracee == tracee,
    {
        Debugger {
            tracee,
            breakpoints: HashMap::new(),
            goal: Goal::Idle,
            stage: Stage::Idle,
            started: false,
            start_entry: None,
            targets: Vec::new(),
            next_target: 0,
            placed: Vec::new(),
            reversing: false,
            error: None,
            entry_registry: Ghost(Map::empty()),
            damaged: Ghost(false),
            written: Ghost(Map::empty()),
            displaced: Ghost(Map::empty()),
        }
    }

    pub fn is_idle(&self) -> (r: bool)
        ensures
            r == self.idle(),
    {
        self.goal == Goal::Idle && self.stage == Stage::Idle
    }

    /// The breakpoint registered at a runtime address.
    pub fn breakpoint_at(&self, addr: u64) -> (r: Option<Breakpoint>)
        ensures
            r == (if self.breakpoints@.contains_key(addr) {
                Some(self.breakpoints@[addr])
            } else {
                None
            }),
    {
        match self.breakpoints.get(&addr) {
            Some(bp) => Some(*bp),
            None => None,
        }
    }

    fn finish(&mut self, outcome: Outcome) -> (a: Action)
        requires
            old(self).wf(),
        ensures
            final(self).wf(),
            final(self).tracee == old(self).tracee,
            final(self).idle(),
            final(self).breakpoints@ == old(self).breakpoints@,
            final(self).entry_registry@ == old(self).entry_registry@,
            final(self).damaged@ == old(self).damaged@,
            final(self).targets@ == old(self).targets@,
            final(self).placed@ == old(self).placed@,
            final(self).reversing == old(self).reversing,
            final(self).error == old(self).error,
            a == Action::Finished(outcome),
    {
        self.goal = Goal::Idle;
        self.stage = Stage::Idle;
        Action::Finished(outcome)
    }

    fn resume(&mut self, mode: ResumeMode) -> (a: Action)
        requires
            old(self).wf(),
            old(self).settled(),
            resumes_tracee(old(self).goal),
            !old(self).reversing,
            old(self).transient() ==> old(self).next_target == old(self).targets@.len(),
            !(old(self).stage is Reversing) && !(old(self).stage is Arming),
            old(self).transient() ==> forall|i: int|
                0 <= i < old(self).next_target ==> armed_in(old(self).breakpoints@, #[trigger] old(self).targets@[i]),
        ensures
            final(self).wf(),
            final(self).tracee == old(self).tracee,
            final(self).goal == old(self).goal,
            final(self).breakpoints@ == old(self).breakpoints@,
            final(self).entry_registry@ == old(self).entry_registry@,
            final(self).damaged@ == old(self).damaged@,
            final(self).targets@ == old(self).targets@,
            final(self).stage == (Stage::Resumed { after: AfterResume::Command }),
            a == Action::Resume(mode),
            old(self).transient() ==> forall|i: int|
                0 <= i < final(self).targets@.len() ==> armed_in(final(self).breakpoints@, #[trigger] final(self).targets@[i]),
    {
        self.stage = Stage::Resumed { after: AfterResume::Command };
        Action::Resume(mode)
    }

    fn start_step_over_breakpoint(&mut self) -> (a: Action)
        requires
            old(self).wf(),
            old(self).settled(),
            resumes_tracee(old(self).goal),
            !old(self).reversing,
            old(self).transient() ==> old(self).next_target == old(self).targets@.len(),
            !(old(self).stage is Reversing) && !(old(self).stage is Arming),
            old(self).transient() ==> forall|i: int|
                0 <= i < old(self).next_target ==> armed_in(old(self).breakpoints@, #[trigger] old(self).targets@[i]),
        ensures
            final(self).wf(),
            final(self).tracee == old(self).tracee,
            final(self).goal == old(self).goal,
            final(self).breakpoints@ == old(self).breakpoints@,
            final(self).entry_registry@ == old(self).entry_registry@,
            final(self).damaged@ == old(self).damaged@,
            final(self).targets@ == old(self).targets@,
            final(self).stage == Stage::SobRegs,
            a == Action::ReadRegisters,
    {
        self.stage = Stage::SobRegs;
        Action::ReadRegisters
    }

    /// What follows the step over a breakpoint at the pc (`stepped`) or the
    /// finding that there was none to step over.
    fn after_step_over_breakpoint(&mut self, stepped: bool) -> (a: Action)
        requires
            old(self).wf(),
            old(self).settled(),
            resumes_tracee(old(self).goal),
            !old(self).reversing,
            old(self).transient() ==> old(self).next_target == old(self).targets@.len(),
            !(old(self).stage is Reversing) && !(old(self).stage is Arming),
            old(self).transient() ==> forall|i: int|
                0 <= i < old(self).next_target ==> armed_in(old(self).breakpoints@, #[trigger] old(self).targets@[i]),
        ensures
            final(self).wf(),
            final(self).tracee == old(self).tracee,
            old(self).transient() && a == Action::Resume(ResumeMode::Continue) ==> forall|i: int|
                0 <= i < final(self).targets@.len() ==> final(self).armed(#[trigger] final(self).targets@[i]),
            !(final(self).stage is RewindRegs),
            a == after_stepping_over(old(self).goal, stepped),
            final(self).breakpoints@ == old(self).breakpoints@,
            final(self).entry_registry@ == old(self).entry_registry@,
            final(self).damaged@ == old(self).damaged@,
            final(self).targets@ == old(self).targets@,
            !(a is Finished) ==> final(self).goal == old(self).goal,
            a is Finished ==> final(self).idle(),
            a == Action::ReadRegisters ==> final(self).stage == Stage::StepInRegs,
            a is Resume ==> final(self).stage == (Stage::Resumed { after: AfterResume::Command }),
            old(self).transient() ==> forall|i: int|
                0 <= i < final(self).targets@.len() ==> armed_in(final(self).breakpoints@, #[trigger] final(self).targets@[i]),
            a is Finished && !final(self).damaged@ ==> final(self).breakpoints@ == old(self).entry_registry@,
    {
        match self.goal {
            Goal::StepInstruction => if stepped {
                self.finish(Outcome::Stopped)
            } else {
                self.resume(ResumeMode::Step)
            },
            Goal::StepIn => if stepped {
                self.stage = Stage::StepInRegs;
                Action::ReadRegisters
            } else {
                self.resume(ResumeMode::Step)
            },
            _ => self.resume(ResumeMode::Continue),
        }
    }

    /// What follows a resume once the tracee has stopped.
    fn after_wait(&mut self, after: AfterResume) -> (a: Action)
        requires
            old(self).wf(),
            old(self).stage == (Stage::Resumed { after }) || old(self).stage == (Stage::Rewound { after }),
        ensures
            final(self).wf(),
            final(self).tracee == old(self).tracee,
            !(a is Resume),
            after is Command && old(self).transient() ==> a is Finished || final(self).stage is Reversing,
            final(self).stage matches Stage::Reversing { addr, action } ==> a == (Action::Patch {
                addr,
                byte: final(self).displaced@[addr],
            }),
            !(final(self).stage is RewindRegs),
            !(a is WriteRegisters),
            a != Action::Finished(Outcome::Exited),
            final(self).entry_registry@ == old(self).entry_registry@,
            final(self).damaged@ == old(self).damaged@,
            final(self).targets@ == old(self).targets@,
            !(a is Finished) ==> final(self).goal == old(self).goal,
            a is Finished ==> final(self).idle(),
            after matches AfterResume::Rearm { pc, saved } ==> a == (Action::Patch { addr: pc, byte: INT3 })
                && final(self).stage == (Stage::SobRearm { pc, saved }) && final(self).breakpoints@
                == old(self).breakpoints@,
            after is Command && (old(self).goal == Goal::Continue || old(self).goal == Goal::StepInstruction)
                ==> a == Action::Finished(Outcome::Stopped) && final(self).breakpoints@ == old(self).breakpoints@,
            after is Command && old(self).goal == Goal::StepIn ==> a == Action::ReadRegisters
                && final(self).stage == Stage::StepInRegs && final(self).breakpoints@ == old(self).breakpoints@,
            after is Command && old(self).transient() ==> final(self).reversing && unwound(
                final(self).effective_registry(),
                final(self).placed@,
            ) == unwound(old(self).breakpoints@, old(self).placed@),
            a is Finished && !final(self).damaged@ && resumes_tracee(old(self).goal) ==> final(self).breakpoints@
                == old(self).entry_registry@,
    {
        match after {
            AfterResume::Rearm { pc, saved } => {
                self.stage = Stage::SobRearm { pc, saved };
                Action::Patch { addr: pc, byte: INT3 }
            },
            AfterResume::Command => match self.goal {
                Goal::StepIn => {
                    self.stage = Stage::StepInRegs;
                    Action::ReadRegisters
                },
                Goal::StepOver | Goal::StepOut => self.reverse_next(),
                _ => self.finish(Outcome::Stopped),
            },
        }
    }

    /// Sets the next transient breakpoint that needs a write, recording a
    /// `Nothing` post-action for each target already armed; once every
    /// target is handled, starts stepping over a breakpoint at the pc.
    fn arm_next(&mut self) -> (a: Action)
        requires
            old(self).wf(),
            old(self).settled(),
            old(self).transient(),
            !old(self).reversing,
            !(old(self).stage is Reversing) && !(old(self).stage is Arming) && !running_stage(old(self).stage),
            forall|i: int|
                0 <= i < old(self).next_target ==> armed_in(old(self).breakpoints@, #[trigger] old(self).targets@[i]),
        ensures
            final(self).wf(),
            final(self).tracee == old(self).tracee,
            !(final(self).stage is RewindRegs),
            final(self).goal == old(self).goal,
            final(self).entry_registry@ == old(self).entry_registry@,
            final(self).damaged@ == old(self).damaged@,
            final(self).breakpoints@ == old(self).breakpoints@,
            final(self).targets@ == old(self).targets@,
            final(self).stage matches Stage::Arming { addr } ==> a == (Action::Patch { addr, byte: INT3 }),
            !(final(self).stage is Arming) ==> a == Action::ReadRegisters && final(self).stage == Stage::SobRegs,
    {
        self.stage = Stage::Idle;
        let ghost goal = self.goal;
        let ghost entry = self.entry_registry@;
        let ghost damaged = self.damaged@;
        let ghost reg = self.breakpoints@;
        let ghost targets = self.targets@;
        while self.next_target < self.targets.len()
            invariant
                self.wf(),
                self.settled(),
                self.stage == Stage::Idle,
                self.goal == goal,
                goal == old(self).goal,
                self.entry_registry@ == entry,
                entry == old(self).entry_registry@,
                self.damaged@ == damaged,
                damaged == old(self).damaged@,
                self.breakpoints@ == reg,
                reg == old(self).breakpoints@,
                self.targets@ == targets,
                targets == old(self).targets@,
                self.tracee == old(self).tracee,
                self.transient(),
                !self.reversing,
            decreases self.targets@.len() - self.next_target,
        {
            let addr = self.targets[self.next_target];
            match self.breakpoint_at(addr) {
                Some(bp) if bp.enabled => {
                    proof {
                        lemma_unwound_push(self.breakpoints@, self.placed@, (addr, PostAction::Nothing));
                    }
                    self.placed.push((addr, PostAction::Nothing));
                    self.next_target = self.next_target + 1;
                },
                _ => {
                    self.stage = Stage::Arming { addr };
                    return Action::Patch { addr, byte: INT3 };
                },
            }
        }
        self.start_step_over_breakpoint()
    }

    /// Reverses the transient breakpoints, the last one set first; once none
    /// is left, ends the command.
    fn reverse_next(&mut self) -> (a: Action)
        requires
            old(self).wf(),
            old(self).settled(),
            old(self).transient(),
        ensures
            final(self).wf(),
            final(self).tracee == old(self).tracee,
            !(a is Resume),
            a is Finished || a is Patch,
            !(final(self).stage is RewindRegs),
            !(a is WriteRegisters),
            a != Action::Finished(Outcome::Exited),
            final(self).entry_registry@ == old(self).entry_registry@,
            final(self).damaged@ == old(self).damaged@,
            final(self).targets@ == old(self).targets@,
            !(a is Finished) ==> final(self).goal == old(self).goal,
            final(self).reversing,
            final(self).error == old(self).error,
            a is Finished ==> final(self).idle(),
            unwound(final(self).effective_registry(), final(self).placed@) == unwound(
                old(self).breakpoints@,
                old(self).placed@,
            ),
            !(a is Finished) ==> final(self).stage is Reversing,
            final(self).stage matches Stage::Reversing { addr, action } ==> a == (Action::Patch {
                addr,
                byte: final(self).displaced@[addr],
            }),
            a is Finished ==> final(self).placed@.len() == 0 && a == Action::Finished(
                match old(self).error {
                    Some(e) => Outcome::Failed(e),
                    None => Outcome::Stopped,
                },
            ),
            a is Finished && !final(self).damaged@ ==> final(self).breakpoints@ == old(self).entry_registry@,
    {
        self.stage = Stage::Idle;
        self.reversing = true;
        let ghost goal = self.goal;
        let ghost entry = self.entry_registry@;
        let ghost damaged = self.damaged@;
        let ghost error = self.error;
        let ghost targets = self.targets@;
        let ghost start = unwound(self.breakpoints@, self.placed@);
        while self.placed.len() > 0
            invariant
                self.wf(),
                self.settled(),
                self.stage == Stage::Idle,
                self.reversing,
                self.goal == goal,
                goal == old(self).goal,
                self.entry_registry@ == entry,
                entry == old(self).entry_registry@,
                self.damaged@ == damaged,
                damaged == old(self).damaged@,
                self.error == error,
                error == old(self).error,
                self.targets@ == targets,
                targets == old(self).targets@,
                self.tracee == old(self).tracee,
                unwound(self.breakpoints@, self.placed@) == start,
                start == unwound(old(self).breakpoints@, old(self).placed@),
                self.transient(),
            decreases self.placed@.len(),
        {
            proof {
                lemma_unwound_last(self.breakpoints@, self.placed@);
            }
            let ghost before = self.placed@;
            let (addr, action) = self.placed.pop().unwrap();
            assert(self.placed@ =~= before.drop_last());
            assert(action != PostAction::Enable);
            let entry_bp = self.breakpoint_at(addr);
            match action {
                PostAction::Nothing => {},
                _ => match entry_bp {
                    Some(bp) if bp.enabled => {
                        self.stage = Stage::Reversing { addr, action };
                        return Action::Patch { addr, byte: bp.saved.unwrap() };
                    },
                    _ => {
                        if action == PostAction::Delete {
                            self.breakpoints.remove(&addr);
                        } else {
                            self.breakpoints.insert(addr, Breakpoint { addr, saved: None, enabled: false });
                        }
                    },
                },
            }
        }
        assert(placed_addrs(self.placed@).len() == 0);
        let outcome = match self.error {
            Some(e) => Outcome::Failed(e),
            None => Outcome::Stopped,
        };
        self.finish(outcome)
    }

    /// A trace call failed, or the tracee answered out of turn. Transient
    /// breakpoints are still reversed before the failure is reported.
    fn fail(&mut self) -> (a: Action)
        requires
            old(self).wf(),
        ensures
            final(self).wf(),
            final(self).tracee == old(self).tracee,
            !(a is Resume),
            a is Finished || a is Patch,
            final(self).stage matches Stage::Reversing { addr, action } ==> a == (Action::Patch {
                addr,
                byte: final(self).displaced@[addr],
            }),
            !(final(self).stage is RewindRegs),
            !(a is WriteRegisters),
            a != Action::Finished(Outcome::Exited),
            a != Action::Finished(Outcome::Stopped),
            final(self).entry_registry@ == old(self).entry_registry@,
            final(self).damaged@ == (old(self).damaged@ || fragile_stage(old(self).stage)),
            final(self).targets@ == old(self).targets@,
            !(a is Finished) ==> final(self).goal == old(self).goal,
            a is Finished ==> final(self).idle(),
            !old(self).transient() || old(self).stage is FrameRegs || old(self).stage is ReturnWord ==> a
                == Action::Finished(Outcome::Failed(DebugError::TraceeIO)) && final(self).breakpoints@
                == old(self).breakpoints@,
            old(self).transient() && !(old(self).stage is FrameRegs) && !(old(self).stage is ReturnWord)
                ==> final(self).reversing && final(self).error is Some && unwound(
                final(self).effective_registry(),
                final(self).placed@,
            ) == unwound(old(self).breakpoints@, old(self).placed@),
            a is Finished && !final(self).damaged@ && resumes_tracee(old(self).goal) ==> final(self).breakpoints@
                == old(self).entry_registry@,
    {
        let ghost now_damaged = self.damaged@ || fragile_stage(self.stage);
        self.damaged = Ghost(now_damaged);
        match self.goal {
            Goal::StepOver | Goal::StepOut => match self.stage {
                Stage::FrameRegs | Stage::ReturnWord => self.finish(Outcome::Failed(DebugError::TraceeIO)),
                _ => {
                    if self.error.is_none() {
                        self.error = Some(DebugError::TraceeIO);
                    }
                    self.reverse_next()
                },
            },
            _ => self.finish(Outcome::Failed(DebugError::TraceeIO)),
        }
    }

    /// Starts a command; the tracee must be stopped and no command under way.
    pub fn begin(&mut self, cmd: Command) -> (a: Action)
        requires
            old(self).wf(),
            old(self).idle(),
        ensures
            final(self).wf(),
            final(self).tracee == old(self).tracee,
            final(self).breakpoints@ == old(self).breakpoints@,
            cmd matches Command::Break(file_addr) ==> ({
                let addr = old(self).tracee.runtime(file_addr);
                &&& final(self).goal == Goal::Break
                &&& if old(self).armed(addr) {
                    let saved = old(self).breakpoints@[addr].saved.unwrap();
                    final(self).stage == (Stage::BreakDisarm { addr, saved }) && a == (Action::Patch {
                        addr,
                        byte: saved,
                    })
                } else {
                    final(self).stage == (Stage::BreakArm { addr, keep: None }) && a == (Action::Patch {
                        addr,
                        byte: INT3,
                    })
                }
            }),
            cmd == Command::Continue ==> final(self).goal == Goal::Continue && final(self).stage == Stage::SobRegs,
            cmd == Command::StepInstruction ==> final(self).goal == Goal::StepInstruction && final(self).stage
                == Stage::SobRegs,
            cmd == Command::StepIn ==> final(self).goal == Goal::StepIn && final(self).stage == Stage::StepInRegs
                && !final(self).started,
            cmd == Command::StepOver ==> final(self).goal == Goal::StepOver,
            cmd == Command::StepOut ==> final(self).goal == Goal::StepOut,
            cmd == Command::StepOver || cmd == Command::StepOut ==> final(self).stage == Stage::FrameRegs
                && final(self).targets@.len() == 0 && final(self).placed@.len() == 0,
            !(cmd is Break) ==> a == Action::ReadRegisters && final(self).entry_registry@ == old(self).breakpoints@
                && !final(self).damaged@,
    {
        match cmd {
            Command::Break(file_addr) => {
                let addr = self.tracee.add_load_addr(file_addr);
                self.goal = Goal::Break;
                match self.breakpoint_at(addr) {
                    Some(bp) if bp.enabled => {
                        let saved = bp.saved.unwrap();
                        self.stage = Stage::BreakDisarm { addr, saved };
                        Action::Patch { addr, byte: saved }
                    },
                    _ => {
                        self.stage = Stage::BreakArm { addr, keep: None };
                        Action::Patch { addr, byte: INT3 }
                    },
                }
            },
            _ => {
                self.targets = Vec::new();
                self.next_target = 0;
                self.placed = Vec::new();
                self.reversing = false;
                self.error = None;
                self.entry_registry = Ghost(self.breakpoints@);
                self.damaged = Ghost(false);
                match cmd {
                    Command::Continue => {
                        self.goal = Goal::Continue;
                        self.stage = Stage::SobRegs;
                    },
                    Command::StepInstruction => {
                        self.goal = Goal::StepInstruction;
                        self.stage = Stage::SobRegs;
                    },
                    Command::StepIn => {
                        self.goal = Goal::StepIn;
                        self.started = false;
                        self.start_entry = None;
                        self.stage = Stage::StepInRegs;
                    },
                    Command::StepOver => {
                        self.goal = Goal::StepOver;
                        self.stage = Stage::FrameRegs;
                    },
                    _ => {
                        self.goal = Goal::StepOut;
                        self.stage = Stage::FrameRegs;
                    },
                }
                Action::ReadRegisters
            },
        }
    }

    /// Takes the tracee's answer to the last action and says what to do next.
    pub fn advance(&mut self, event: Event) -> (a: Action)
        requires
            old(self).wf(),
        ensures
            final(self).wf(),
            final(self).tracee == old(self).tracee,
            final(self).entry_registry@ == old(self).entry_registry@,
            !(a is Finished) ==> final(self).goal == old(self).goal,
            a is Finished ==> final(self).idle(),
            // An exit, and only an exit, ends the command as exited.
            a == Action::Finished(Outcome::Exited) <==> (old(self).stage is Resumed && event is Exited),
            old(self).stage is Resumed && event is Exited ==> final(self).breakpoints@ == old(self).breakpoints@,
            // A breakpoint trap is answered by reading the registers, to rewind the pc.
            old(self).stage matches Stage::Resumed { after } ==> ((event matches Event::Stopped { signo, code }
                && is_breakpoint_trap(signo, code)) ==> (a == Action::ReadRegisters
                && final(self).stage == (Stage::RewindRegs { after }))),
            // The pc is rewound only right after a breakpoint trap ...
            final(self).stage is RewindRegs ==> (old(self).stage is Resumed
                && (event matches Event::Stopped { signo, code } && is_breakpoint_trap(signo, code))),
            // ... and the registers are written back only as the rewind of those just read.
            a matches Action::WriteRegisters(bank) ==> (old(self).stage is RewindRegs
                && (event matches Event::Registers(read) && bank == rewound(read))),
            (old(self).stage is RewindRegs && event is Registers) ==> a is WriteRegisters,
            // A command that resumed the tracee ends, unless the tracee exited or a re-arm or
            // reversal failed, with the registry it began with.
            (resumes_tracee(old(self).goal) && a is Finished && a != Action::Finished(Outcome::Exited)
                && !final(self).damaged@) ==> final(self).breakpoints@ == old(self).entry_registry@,
            answers(old(self).stage, event) ==> final(self).damaged@ == old(self).damaged@,
            // A failed trace call, or an answer out of turn, fails the command; `next` and
            // `finish` first reverse their transient breakpoints.
            !answers(old(self).stage, event) ==> final(self).damaged@ == (old(self).damaged@ || fragile_stage(
                old(self).stage,
            )) && a != Action::Finished(Outcome::Stopped),
            !answers(old(self).stage, event) && (!old(self).transient() || old(self).stage is FrameRegs
                || old(self).stage is ReturnWord) ==> a == Action::Finished(Outcome::Failed(DebugError::TraceeIO))
                && final(self).breakpoints@ == old(self).breakpoints@,
            !answers(old(self).stage, event) && old(self).transient() && !(old(self).stage is FrameRegs)
                && !(old(self).stage is ReturnWord) ==> final(self).error is Some && unwound(
                final(self).effective_registry(),
                final(self).placed@,
            ) == unwound(old(self).breakpoints@, old(self).placed@),
            // Stepping over a breakpoint at the pc: restore its byte, step once, write `INT3`
            // back, and go on; with none there, go on at once.
            old(self).stage is SobRegs ==> (event matches Event::Registers(b) ==> if old(self).armed(b.rip) {
                a == (Action::Patch { addr: b.rip, byte: old(self).breakpoints@[b.rip].saved.unwrap() })
                    && final(self).stage == (Stage::SobDisarm {
                    pc: b.rip,
                    saved: old(self).breakpoints@[b.rip].saved.unwrap(),
                }) && final(self).breakpoints@ == old(self).breakpoints@
            } else {
                a == after_stepping_over(old(self).goal, false) && final(self).breakpoints@
                    == old(self).breakpoints@
            }),
            old(self).stage matches Stage::SobDisarm { pc, saved } ==> (event is Patched ==> a == Action::Resume(
                ResumeMode::Step,
            ) && final(self).stage == (Stage::Resumed { after: AfterResume::Rearm { pc, saved } })
                && final(self).breakpoints@ == old(self).breakpoints@.insert(
                pc,
                Breakpoint { addr: pc, saved: None, enabled: false },
            )),
            wait_ends(old(self).stage, event) matches Some(AfterResume::Rearm { pc, saved }) ==> a == (Action::Patch {
                addr: pc,
                byte: INT3,
            }) && final(self).stage == (Stage::SobRearm { pc, saved }) && final(self).breakpoints@
                == old(self).breakpoints@,
            old(self).stage matches Stage::SobRearm { pc, saved } ==> (event is Patched ==> final(self).breakpoints@
                == old(self).breakpoints@.insert(pc, armed_at(pc, saved)) && a == after_stepping_over(
                old(self).goal,
                true,
            )),
            // The end of a command's own wait.
            wait_ends(old(self).stage, event) == Some(AfterResume::Command) ==> (
            (old(self).goal == Goal::Continue || old(self).goal == Goal::StepInstruction ==> a == Action::Finished(
                Outcome::Stopped,
            ) && final(self).breakpoints@ == old(self).breakpoints@) && (old(self).goal == Goal::StepIn ==> a
                == Action::ReadRegisters && final(self).stage == Stage::StepInRegs) && (old(self).transient()
                ==> final(self).reversing && (a is Finished || final(self).stage is Reversing) && unwound(
                final(self).effective_registry(),
                final(self).placed@,
            ) == unwound(old(self).breakpoints@, old(self).placed@))),
            // `break` disarms an armed breakpoint first, then arms its address over the
            // byte it displaced, which is the byte just restored when it was armed before.
            old(self).stage matches Stage::BreakDisarm { addr, saved } ==> (event is Patched ==> a == (Action::Patch {
                addr,
                byte: INT3,
            }) && final(self).stage == (Stage::BreakArm { addr, keep: Some(saved) }) && final(self).breakpoints@
                == old(self).breakpoints@.insert(addr, Breakpoint { addr, saved: None, enabled: false })),
            old(self).stage matches Stage::BreakArm { addr, keep } ==> (event matches Event::Patched(before)
                ==> a == Action::Finished(Outcome::Stopped) && final(self).breakpoints@
                == old(self).breakpoints@.insert(
                addr,
                armed_at(
                    addr,
                    match keep {
                        Some(b) => b,
                        None => low_byte(before),
                    },
                ),
            )),
            // `step` records the line it starts on, then steps until the line entry differs.
            old(self).stage is StepInRegs ==> (event matches Event::Registers(b) ==> match old(
                self,
            ).tracee.info.line_entry_for_pc(old(self).tracee.file_relative(b.rip)) {
                Err(e) => a == Action::Finished(Outcome::Failed(e)),
                Ok(now) => if !old(self).started {
                    final(self).started && view_of(final(self).start_entry) == now && a == Action::ReadRegisters
                        && final(self).stage == Stage::SobRegs
                } else if entry_differs(now, view_of(old(self).start_entry)) {
                    a == Action::Finished(Outcome::Stopped)
                } else {
                    a == Action::ReadRegisters && final(self).stage == Stage::SobRegs
                },
            }),
            // `next` plants its breakpoints where `step_over_targets` says, `finish` none
            // there; both then read the return address at `rbp + 8` and plant one there.
            old(self).stage is FrameRegs ==> (event matches Event::Registers(b) ==> (old(self).goal
                == Goal::StepOver ==> match step_over_plan(old(self).tracee, b.rip) {
                Ok(s) => final(self).targets@ == s && a == Action::ReadWord(return_slot(b.rbp))
                    && final(self).stage == Stage::ReturnWord && final(self).breakpoints@ == old(self).breakpoints@,
                Err(e) => a == Action::Finished(Outcome::Failed(e)) && final(self).breakpoints@
                    == old(self).breakpoints@,
            }) && (old(self).goal == Goal::StepOut ==> final(self).targets@ == old(self).targets@ && a
                == Action::ReadWord(return_slot(b.rbp)) && final(self).stage == Stage::ReturnWord
                && final(self).breakpoints@ == old(self).breakpoints@)),
            old(self).stage is ReturnWord ==> (event matches Event::Word(ret) ==> final(self).targets@ == old(
                self,
            ).targets@.push(ret) && final(self).breakpoints@ == old(self).breakpoints@),
            !(old(self).stage is FrameRegs) && !(old(self).stage is ReturnWord) ==> final(self).targets@ == old(
                self,
            ).targets@,
            final(self).stage matches Stage::Arming { addr } ==> a == (Action::Patch { addr, byte: INT3 }),
            // Once the return address is read, and after each arming, the next target that
            // is not armed yet is armed; when none is left, the breakpoint at the pc is stepped over.
            (old(self).stage is ReturnWord && event is Word) || (old(self).stage is Arming && event is Patched)
                ==> final(self).stage is Arming || (a == Action::ReadRegisters && final(self).stage
                == Stage::SobRegs),
            // Every resume but the single step over a breakpoint is the command's own.
            a is Resume && !(old(self).stage is SobDisarm) ==> final(self).stage == (Stage::Resumed {
                after: AfterResume::Command,
            }),
            old(self).stage is SobRearm && a == Action::ReadRegisters ==> final(self).stage == Stage::StepInRegs,
            // Arming a transient breakpoint is `transient_set` on the byte it displaced.
            old(self).stage matches Stage::Arming { addr } ==> (event matches Event::Patched(before)
                ==> final(self).breakpoints@ == transient_set(old(self).breakpoints@, addr, low_byte(before)).0),
            // `next` and `finish` resume the tracee only once every target is armed.
            old(self).transient() && a == Action::Resume(ResumeMode::Continue) ==> forall|i: int|
                0 <= i < final(self).targets@.len() ==> final(self).armed(#[trigger] final(self).targets@[i]),
            // A reversal writes back the byte that arming displaced, and is `transient_reverse`.
            final(self).stage matches Stage::Reversing { addr, action } ==> a == (Action::Patch {
                addr,
                byte: final(self).displaced@[addr],
            }),
            old(self).stage matches Stage::Reversing { addr, action } ==> (event matches Event::Patched(before)
                ==> unwound(final(self).effective_registry(), final(self).placed@) == unwound(
                transient_reverse(old(self).breakpoints@, addr, action, low_byte(before)),
                old(self).placed@,
            )),
    {
        match (self.stage, event) {
            (Stage::SobRegs, Event::Registers(bank)) => {
                let pc = bank.rip;
                match self.breakpoint_at(pc) {
                    Some(bp) if bp.enabled => {
                        let saved = bp.saved.unwrap();
                        self.stage = Stage::SobDisarm { pc, saved };
                        Action::Patch { addr: pc, byte: saved }
                    },
                    _ => self.after_step_over_breakpoint(false),
                }
            },
            (Stage::SobDisarm { pc, saved }, Event::Patched(_)) => {
                let ghost reg = self.breakpoints@;
                self.stage = Stage::Resumed { after: AfterResume::Rearm { pc, saved } };
                self.breakpoints.insert(pc, Breakpoint { addr: pc, saved: None, enabled: false });
                self.written = Ghost(self.written@.insert(pc, saved));
                assert(self.effective_registry() =~= reg);
                Action::Resume(ResumeMode::Step)
            },
            (Stage::SobRearm { pc, saved }, Event::Patched(_)) => {
                self.stage = Stage::Idle;
                self.breakpoints.insert(pc, Breakpoint { addr: pc, saved: Some(saved), enabled: true });
                self.written = Ghost(self.written@.insert(pc, INT3));
                self.after_step_over_breakpoint(true)
            },
            (Stage::Resumed { after }, Event::Exited) => self.finish(Outcome::Exited),
            (Stage::Resumed { after }, Event::Stopped { signo, code }) => {
                if classify_stop(signo, code) == StopReason::Breakpoint {
                    self.stage = Stage::RewindRegs { after };
                    Action::ReadRegisters
                } else {
                    self.after_wait(after)
                }
            },
            (Stage::RewindRegs { after }, Event::Registers(bank)) => {
                self.stage = Stage::Rewound { after };
                Action::WriteRegisters(rewind_pc(&bank))
            },
            (Stage::Rewound { after }, Event::RegistersWritten) => self.after_wait(after),
            (Stage::BreakDisarm { addr, saved }, Event::Patched(_)) => {
                self.written = Ghost(self.written@.insert(addr, saved));
                self.breakpoints.insert(addr, Breakpoint { addr, saved: None, enabled: false });
                self.stage = Stage::BreakArm { addr, keep: Some(saved) };
                Action::Patch { addr, byte: INT3 }
            },
            (Stage::BreakArm { addr, keep }, Event::Patched(before)) => {
                self.stage = Stage::Idle;
                let prev = match keep {
                    Some(b) => b,
                    None => low_byte_of(before),
                };
                self.breakpoints.insert(addr, Breakpoint { addr, saved: Some(prev), enabled: true });
                self.written = Ghost(self.written@.insert(addr, INT3));
                self.displaced = Ghost(self.displaced@.insert(addr, prev));
                self.finish(Outcome::Stopped)
            },
            (Stage::StepInRegs, Event::Registers(bank)) => {
                let now = match self.tracee.get_line_entry(bank.rip) {
                    Ok(e) => e,
                    Err(e) => {
                        return self.finish(Outcome::Failed(e));
                    },
                };
                assert(self.tracee.info.line_entry_for_pc(self.tracee.file_relative(bank.rip))
                    == Ok::<Option<LineEntryView>, DebugError>(view_of(now)));
                if !self.started {
                    self.started = true;
                    self.start_entry = now;
                    self.stage = Stage::SobRegs;
                    Action::ReadRegisters
                } else {
                    let differs = match (&now, &self.start_entry) {
                        (None, _) => true,
                        (Some(_), None) => true,
                        (Some(x), Some(y)) => !x.same_as(y),
                    };
                    assert(differs == entry_differs(view_of(now), view_of(self.start_entry)));
                    if differs {
                        self.finish(Outcome::Stopped)
                    } else {
                        self.stage = Stage::SobRegs;
                        Action::ReadRegisters
                    }
                }
            },
            (Stage::FrameRegs, Event::Registers(bank)) => {
                if self.goal == Goal::StepOver {
                    match step_over_targets(&self.tracee, bank.rip) {
                        Ok(v) => {
                            self.targets = v;
                        },
                        Err(e) => {
                            return self.finish(Outcome::Failed(e));
                        },
                    }
                }
                self.next_target = 0;
                self.stage = Stage::ReturnWord;
                Action::ReadWord(bank.rbp.wrapping_add(8))
            },
            (Stage::ReturnWord, Event::Word(ret)) => {
                self.targets.push(ret);
                self.arm_next()
            },
            (Stage::Arming { addr }, Event::Patched(before)) => {
                assert(self.stage == (Stage::Arming { addr }));
                let n = self.next_target;
                let len = self.targets.len();
                assert(n < len);
                let ghost reg = self.breakpoints@;
                self.stage = Stage::Idle;
                let action = match self.breakpoint_at(addr) {
                    Some(_) => PostAction::Disable,
                    None => PostAction::Delete,
                };
                let prev = low_byte_of(before);
                self.breakpoints.insert(addr, Breakpoint { addr, saved: Some(prev), enabled: true });
                self.written = Ghost(self.written@.insert(addr, INT3));
                self.displaced = Ghost(self.displaced@.insert(addr, prev));
                proof {
                    assert(transient_set(reg, addr, prev) == (self.breakpoints@, action));
                    lemma_transient_round_trip(reg, addr, prev, 0);
                    lemma_unwound_push(self.breakpoints@, self.placed@, (addr, action));
                }
                self.placed.push((addr, action));
                self.next_target = n + 1;
                self.arm_next()
            },
            (Stage::Reversing { addr, action }, Event::Patched(before)) => {
                self.stage = Stage::Idle;
                self.written = Ghost(self.written@.insert(addr, self.displaced@[addr]));
                if action == PostAction::Delete {
                    self.breakpoints.remove(&addr);
                } else {
                    self.breakpoints.insert(addr, Breakpoint { addr, saved: None, enabled: false });
                }
                self.reverse_next()
            },
            _ => self.fail(),
        }
    }
}

/// Whether an event is the answer that a stage waits for.
pub open spec fn answers(stage: Stage, event: Event) -> bool {
    match (stage, event) {
        (Stage::SobRegs, Event::Registers(_)) => true,
        (Stage::SobDisarm { .. }, Event::Patched(_)) => true,
        (Stage::SobRearm { .. }, Event::Patched(_)) => true,
        (Stage::Resumed { .. }, Event::Exited) => true,
        (Stage::Resumed { .. }, Event::Stopped { .. }) => true,
        (Stage::RewindRegs { .. }, Event::Registers(_)) => true,
        (Stage::Rewound { .. }, Event::RegistersWritten) => true,
        (Stage::BreakDisarm { .. }, Event::Patched(_)) => true,
        (Stage::BreakArm { .. }, Event::Patched(_)) => true,
        (Stage::StepInRegs, Event::Registers(_)) => true,
        (Stage::FrameRegs, Event::Registers(_)) => true,
        (Stage::ReturnWord, Event::Word(_)) => true,
        (Stage::Arming { .. }, Event::Patched(_)) => true,
        (Stage::Reversing { .. }, Event::Patched(_)) => true,
        _ => false,
    }
}

/// In every well-formed state, and so whenever the tracee runs, a breakpoint
/// of the registry is armed exactly when `INT3` is the last byte that the
/// debugger wrote at its address, unless the instruction byte that arming
/// displaced there was itself `INT3`.
pub proof fn lemma_registry_matches_memory(d: &Debugger, a: u64)
    requires
        d.wf(),
    ensures
        d.armed(a) ==> d.written@.contains_key(a) && d.written@[a] == INT3,
        d.written@.contains_key(a) && d.written@[a] == INT3 && d.displaced@[a] != INT3 ==> d.armed(a),
{
    if d.breakpoints@.contains_key(a) && d.breakpoints@[a].enabled {
        assert(d.written@.contains_key(a));
    }
    if d.written@.contains_key(a) {
        assert(d.displaced@.contains_key(a));
    }
}

} // verus!
