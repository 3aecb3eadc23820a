use debugger::debugger::Command;
use debugger::error::DebugError;
use debugger::registers::Register;
use debugger::repl::{parse_command, Request};
use debugger::util::source_window;

#[test]
fn break_commands_parse() {
    assert_eq!(parse_command("b 0x1150"), Ok(Request::Run(Command::Break(0x1150))));
    assert_eq!(parse_command("break 0x1150"), Ok(Request::Run(Command::Break(0x1150))));
    assert_eq!(parse_command("b"), Err(DebugError::MissingArgument));
    assert_eq!(parse_command("b 1150"), Err(DebugError::BadHex));
}

#[test]
fn run_commands_parse() {
    assert_eq!(parse_command("c"), Ok(Request::Run(Command::Continue)));
    assert_eq!(parse_command("cont"), Ok(Request::Run(Command::Continue)));
    assert_eq!(parse_command("continue"), Ok(Request::Run(Command::Continue)));
    assert_eq!(parse_command("si"), Ok(Request::Run(Command::StepInstruction)));
    assert_eq!(parse_command("stepi"), Ok(Request::Run(Command::StepInstruction)));
    assert_eq!(parse_command("step"), Ok(Request::Run(Command::StepIn)));
    assert_eq!(parse_command("next"), Ok(Request::Run(Command::StepOver)));
    assert_eq!(parse_command("finish"), Ok(Request::Run(Command::StepOut)));
    assert_eq!(parse_command("l"), Ok(Request::Lines));
    assert_eq!(parse_command("lines"), Ok(Request::Lines));
}

#[test]
fn register_commands_parse() {
    assert_eq!(parse_command("r d"), Ok(Request::RegistersDump));
    assert_eq!(parse_command("reg dump"), Ok(Request::RegistersDump));
    assert_eq!(parse_command("r r rax"), Ok(Request::RegistersRead(Register::Rax)));
    assert_eq!(parse_command("registers read RIP"), Ok(Request::RegistersRead(Register::Rip)));
    assert_eq!(parse_command("r w rax 0x41"), Ok(Request::RegistersWrite(Register::Rax, 0x41)));
    assert_eq!(parse_command("r"), Err(DebugError::MissingArgument));
    assert_eq!(parse_command("r r"), Err(DebugError::MissingArgument));
    assert_eq!(parse_command("r w rax"), Err(DebugError::MissingArgument));
    assert_eq!(parse_command("r r xyz"), Err(DebugError::UnknownRegister));
    assert_eq!(parse_command("r w rax 41"), Err(DebugError::BadHex));
    assert_eq!(parse_command("r x"), Err(DebugError::UnknownSubcommand));
}

#[test]
fn memory_commands_parse() {
    assert_eq!(parse_command("m r 0x7ffe0010"), Ok(Request::MemoryRead(0x7ffe_0010)));
    assert_eq!(parse_command("mem w 0x10 0xff"), Ok(Request::MemoryWrite(0x10, 0xff)));
    assert_eq!(parse_command("memory read 0x10"), Ok(Request::MemoryRead(0x10)));
    assert_eq!(parse_command("m r"), Err(DebugError::MissingArgument));
    assert_eq!(parse_command("m"), Err(DebugError::MissingArgument));
    assert_eq!(parse_command("m x 0x10"), Err(DebugError::UnknownSubcommand));
    assert_eq!(parse_command("m x zz"), Err(DebugError::BadHex));
    assert_eq!(parse_command("m w 0x10"), Err(DebugError::MissingArgument));
}

#[test]
fn unknown_or_empty_commands_fail() {
    assert_eq!(parse_command(""), Err(DebugError::UnknownCommand));
    assert_eq!(parse_command("run"), Err(DebugError::UnknownCommand));
    assert_eq!(parse_command("B 0x10"), Err(DebugError::UnknownCommand));
    assert_eq!(parse_command(" c"), Err(DebugError::UnknownCommand));
    assert_eq!(parse_command("b  0x10"), Err(DebugError::BadHex));
}

#[test]
fn source_window_keeps_context() {
    assert_eq!(source_window(10, 2), (8, 13));
    assert_eq!(source_window(2, 2), (1, 5));
    assert_eq!(source_window(1, 2), (1, 5));
    assert_eq!(source_window(0, 2), (1, 5));
}
