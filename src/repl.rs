use vstd::prelude::*;
use crate::debugger::Command;
use crate::error::DebugError;
use crate::registers::{get_reg_from_string, reg_named, Register};
use crate::util::{ascii_lower_seq, hex_argument_value, parse_hex};

verus! {

/// A request typed at the prompt.
#[derive(Clone, Copy, Debug, PartialEq, Eq, Structural)]
pub enum Request {
    /// A planner command.
    Run(Command),
    RegistersDump,
    RegistersRead(Register),
    RegistersWrite(Register, u64),
    MemoryRead(u64),
    MemoryWrite(u64, u64),
    Lines,
}

/// The bounds `[start, end)` of the tokens of `s.take(n)`, split at every
/// single space; a line always has at least one (possibly empty) token.
pub open spec fn token_bounds(s: Seq<char>, n: int) -> Seq<(int, int)>
    decreases n,
{
    if n <= 0 {
        seq![(0, 0)]
    } else {
        let b = token_bounds(s, n - 1);
        if s[n - 1] == ' ' {
            b.push((n, n))
        } else {
            b.update(b.len() - 1, (b.last().0, n))
        }
    }
}

pub open spec fn token_count(s: Seq<char>) -> int {
    token_bounds(s, s.len() as int).len() as int
}

/// Token `i` of a line, if the line has that many.
pub open spec fn token(s: Seq<char>, i: int) -> Option<Seq<char>> {
    if 0 <= i < token_count(s) {
        let b = token_bounds(s, s.len() as int)[i];
        Some(s.subrange(b.0, b.1))
    } else {
        None
    }
}

/// A hexadecimal argument, which must be present.
pub open spec fn hex_arg(t: Option<Seq<char>>) -> Result<u64, DebugError> {
    match t {
        None => Err(DebugError::MissingArgument),
        Some(t) => match hex_argument_value(t) {
            Some(v) => Ok(v),
            None => Err(DebugError::BadHex),
        },
    }
}

/// A register argument, which must be present.
pub open spec fn reg_arg(t: Option<Seq<char>>) -> Result<Register, DebugError> {
    match t {
        None => Err(DebugError::MissingArgument),
        Some(t) => match reg_named(ascii_lower_seq(t)) {
            Some(r) => Ok(r),
            None => Err(DebugError::UnknownRegister),
        },
    }
}

pub open spec fn is_any(t: Seq<char>, a: Seq<char>, b: Seq<char>, c: Seq<char>) -> bool {
    t == a || t == b || t == c
}

/// The `registers` command, given its subcommand and arguments.
pub open spec fn registers_request(sc: Seq<char>, reg: Option<Seq<char>>, value: Option<Seq<char>>) -> Result<Request, DebugError> {
    if is_any(sc, "d"@, "dump"@, "dump"@) {
        Ok(Request::RegistersDump)
    } else if is_any(sc, "r"@, "read"@, "read"@) {
        match reg_arg(reg) {
            Ok(r) => Ok(Request::RegistersRead(r)),
            Err(e) => Err(e),
        }
    } else if is_any(sc, "w"@, "write"@, "write"@) {
        match reg_arg(reg) {
            Err(e) => Err(e),
            Ok(r) => match hex_arg(value) {
                Ok(v) => Ok(Request::RegistersWrite(r, v)),
                Err(e) => Err(e),
            },
        }
    } else {
        Err(DebugError::UnknownSubcommand)
    }
}

/// The `memory` command, given its subcommand and arguments; the address is
/// read before the subcommand is looked at.
pub open spec fn memory_request(sc: Seq<char>, addr: Option<Seq<char>>, value: Option<Seq<char>>) -> Result<Request, DebugError> {
    match hex_arg(addr) {
        Err(e) => Err(e),
        Ok(a) => if is_any(sc, "r"@, "read"@, "read"@) {
            Ok(Request::MemoryRead(a))
        } else if is_any(sc, "w"@, "write"@, "write"@) {
            match hex_arg(value) {
                Ok(v) => Ok(Request::MemoryWrite(a, v)),
                Err(e) => Err(e),
            }
        } else {
            Err(DebugError::UnknownSubcommand)
        },
    }
}

/// What a line typed at the prompt asks for.
pub open spec fn request_of(s: Seq<char>) -> Result<Request, DebugError> {
    let cmd = token(s, 0).unwrap();
    if is_any(cmd, "b"@, "break"@, "break"@) {
        match hex_arg(token(s, 1)) {
            Ok(a) => Ok(Request::Run(Command::Break(a))),
            Err(e) => Err(e),
        }
    } else if is_any(cmd, "c"@, "cont"@, "continue"@) {
        Ok(Request::Run(Command::Continue))
    } else if is_any(cmd, "si"@, "stepi"@, "stepi"@) {
        Ok(Request::Run(Command::StepInstruction))
    } else if cmd == "step"@ {
        Ok(Request::Run(Command::StepIn))
    } else if cmd == "next"@ {
        Ok(Request::Run(Command::StepOver))
    } else if cmd == "finish"@ {
        Ok(Request::Run(Command::StepOut))
    } else if is_any(cmd, "r"@, "reg"@, "registers"@) {
        match token(s, 1) {
            None => Err(DebugError::MissingArgument),
            Some(sc) => registers_request(sc, token(s, 2), token(s, 3)),
        }
    } else if is_any(cmd, "m"@, "mem"@, "memory"@) {
        match token(s, 1) {
            None => Err(DebugError::MissingArgument),
            Some(sc) => memory_request(sc, token(s, 2), token(s, 3)),
        }
    } else if is_any(cmd, "l"@, "lines"@, "lines"@) {
        Ok(Request::Lines)
    } else {
        Err(DebugError::UnknownCommand)
    }
}

proof fn lemma_token_bounds_shape(s: Seq<char>, n: int)
    requires
        0 <= n <= s.len(),
    ensures
        token_bounds(s, n).len() >= 1,
        token_bounds(s, n).len() <= n + 1,
        forall|i: int| 0 <= i < token_bounds(s, n).len() ==> 0 <= (#[trigger] token_bounds(s, n)[i]).0 <= token_bounds(s, n)[i].1 <= n,
    decreases n,
{
    if n > 0 {
        lemma_token_bounds_shape(s, n - 1);
    }
}

/// Splits a line at every single space into token bounds.
fn split_tokens(s: &str) -> (b: Vec<(usize, usize)>)
    ensures
        b@.len() == token_count(s@),
        forall|i: int| 0 <= i < b@.len() ==> (#[trigger] b@[i]).0 as int == token_bounds(s@, s@.len() as int)[i].0
            && b@[i].1 as int == token_bounds(s@, s@.len() as int)[i].1,
{
    let n = s.unicode_len();
    let mut b: Vec<(usize, usize)> = vec![(0, 0)];
    let mut i: usize = 0;
    while i < n
        invariant
            n == s@.len(),
            i <= n,
            b@.len() == token_bounds(s@, i as int).len(),
            b@.len() >= 1,
            forall|k: int| 0 <= k < b@.len() ==> (#[trigger] b@[k]).0 as int == token_bounds(s@, i as int)[k].0
                && b@[k].1 as int == token_bounds(s@, i as int)[k].1,
        decreases n - i,
    {
        let c = s.get_char(i);
        if c == ' ' {
            b.push((i + 1, i + 1));
        } else {
            let last = b.len() - 1;
            let start = b[last].0;
            b.set(last, (start, i + 1));
        }
        i = i + 1;
    }
    proof {
        lemma_token_bounds_shape(s@, n as int);
    }
    b
}

/// Whether the characters of `t` are exactly those of `lit`.
fn is_word(t: &str, lit: &str) -> (r: bool)
    ensures
        r == (t@ == lit@),
{
    let n = t.unicode_len();
    if n != lit.unicode_len() {
        return false;
    }
    let mut i: usize = 0;
    while i < n
        invariant
            n == t@.len(),
            n == lit@.len(),
            i <= n,
            forall|j: int| 0 <= j < i ==> t@[j] == lit@[j],
        decreases n - i,
    {
        if t.get_char(i) != lit.get_char(i) {
            return false;
        }
        i = i + 1;
    }
    assert(t@ =~= lit@);
    true
}

fn is_any_word(t: &str, a: &str, b: &str, c: &str) -> (r: bool)
    ensures
        r == is_any(t@, a@, b@, c@),
{
    is_word(t, a) || is_word(t, b) || is_word(t, c)
}

/// Token `i` of the line, if it has that many.
fn token_at<'a>(s: &'a str, b: &Vec<(usize, usize)>, i: usize) -> (r: Option<&'a str>)
    requires
        b@.len() == token_count(s@),
        forall|k: int| 0 <= k < b@.len() ==> (#[trigger] b@[k]).0 as int == token_bounds(s@, s@.len() as int)[k].0
            && b@[k].1 as int == token_bounds(s@, s@.len() as int)[k].1,
    ensures
        match token(s@, i as int) {
            Some(t) => (r matches Some(x) && x@ == t),
            None => r is None,
        },
{
    if i < b.len() {
        proof {
            lemma_token_bounds_shape(s@, s@.len() as int);
        }
        let (from, to) = b[i];
        Some(s.substring_char(from, to))
    } else {
        None
    }
}

fn hex_token(t: Option<&str>) -> (r: Result<u64, DebugError>)
    ensures
        r == hex_arg(match t {
            Some(x) => Some(x@),
            None => None,
        }),
{
    match t {
        None => Err(DebugError::MissingArgument),
        Some(x) => parse_hex(x),
    }
}

fn reg_token(t: Option<&str>) -> (r: Result<Register, DebugError>)
    ensures
        r == reg_arg(match t {
            Some(x) => Some(x@),
            None => None,
        }),
{
    match t {
        None => Err(DebugError::MissingArgument),
        Some(x) => get_reg_from_string(x),
    }
}

/// Reads a line typed at the prompt (without its line ending) as a request.
pub fn parse_command(line: &str) -> (r: Result<Request, DebugError>)
    ensures
        r == request_of(line@),
{
    let b = split_tokens(line);
    proof {
        lemma_token_bounds_shape(line@, line@.len() as int);
    }
    let cmd = match token_at(line, &b, 0) {
        Some(c) => c,
        None => {
            return Err(DebugError::UnknownCommand);
        },
    };
    let arg1 = token_at(line, &b, 1);
    let arg2 = token_at(line, &b, 2);
    let arg3 = token_at(line, &b, 3);
    if is_any_word(cmd, "b", "break", "break") {
        match hex_token(arg1) {
            Ok(a) => Ok(Request::Run(Command::Break(a))),
            Err(e) => Err(e),
        }
    } else if is_any_word(cmd, "c", "cont", "continue") {
        Ok(Request::Run(Command::Continue))
    } else if is_any_word(cmd, "si", "stepi", "stepi") {
        Ok(Request::Run(Command::StepInstruction))
    } else if is_word(cmd, "step") {
        Ok(Request::Run(Command::StepIn))
    } else if is_word(cmd, "next") {
        Ok(Request::Run(Command::StepOver))
    } else if is_word(cmd, "finish") {
        Ok(Request::Run(Command::StepOut))
    } else if is_any_word(cmd, "r", "reg", "registers") {
        let sc = match arg1 {
            None => {
                return Err(DebugError::MissingArgument);
            },
            Some(sc) => sc,
        };
        if is_any_word(sc, "d", "dump", "dump") {
            Ok(Request::RegistersDump)
        } else if is_any_word(sc, "r", "read", "read") {
            match reg_token(arg2) {
                Ok(r) => Ok(Request::RegistersRead(r)),
                Err(e) => Err(e),
            }
        } else if is_any_word(sc, "w", "write", "write") {
            match reg_token(arg2) {
                Err(e) => Err(e),
                Ok(r) => match hex_token(arg3) {
                    Ok(v) => Ok(Request::RegistersWrite(r, v)),
                    Err(e) => Err(e),
                },
            }
        } else {
            Err(DebugError::UnknownSubcommand)
        }
    } else if is_any_word(cmd, "m", "mem", "memory") {
        let sc = match arg1 {
            None => {
                return Err(DebugError::MissingArgument);
            },
            Some(sc) => sc,
        };
        match hex_token(arg2) {
            Err(e) => Err(e),
            Ok(a) => if is_any_word(sc, "r", "read", "read") {
                Ok(Request::MemoryRead(a))
            } else if is_any_word(sc, "w", "write", "write") {
                match hex_token(arg3) {
                    Ok(v) => Ok(Request::MemoryWrite(a, v)),
                    Err(e) => Err(e),
                }
            } else {
                Err(DebugError::UnknownSubcommand)
            },
        }
    } else if is_any_word(cmd, "l", "lines", "lines") {
        Ok(Request::Lines)
    } else {
        Err(DebugError::UnknownCommand)
    }
}

} // verus!
