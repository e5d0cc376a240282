//! The interactive debugger's commands: what each one asks for, given the hart's state.
use vstd::prelude::*;
use vstd::string::{StrSliceExecFns, StringExecFns};

use crate::cpu::{CSRRegister, Core, CYCLES_PER_INSTRUCTION};
use crate::numerals::{parse_radix, parse_u64_radix};

verus! {

/// The debugger.
pub struct Debugger {}

/// How the emulator goes on when the debugger is left.
pub enum DebuggerResult {
    /// Run this many cycles, then stop again.
    Step(usize),
    /// Run on.
    Continue,
    /// Run until the pc reaches the address.
    ContinueUntil(u64),
    /// Stop the emulator, for the reason given.
    Quit(String),
}

/// What a command line asks of the debugger.
pub enum DebuggerCommand {
    /// Leave the debugger, going on as the result says.
    Leave(DebuggerResult),
    /// Show the trace of symbols the hart went through.
    Backtrace,
    /// Show the ten instructions from the address on.
    Disassemble(u64),
    /// Show the memory at the address.
    DumpMemory(u64),
    /// The address given was not understood.
    BadAddress,
    /// Nothing to do (an empty line, or a command the debugger does not know).
    Nothing,
}

/// `s` without the `0x` prefixes it starts with.
pub open spec fn without_0x(s: Seq<char>) -> Seq<char>
    decreases s.len(),
{
    if s.len() >= 2 && s[0] == '0' && s[1] == 'x' {
        without_0x(s.skip(2))
    } else {
        s
    }
}

/// The address an argument names: the pc, `mepc`, `sepc`, the stack pointer, or a hexadecimal
/// number (with any number of `0x` prefixes).
pub open spec fn named_address(core: &Core, s: Seq<char>) -> Option<u64> {
    if s == "pc"@ {
        Some(core.pc)
    } else if s == "mepc"@ {
        Some(core.csr(CSRRegister::mepc))
    } else if s == "sepc"@ {
        Some(core.csr(CSRRegister::sepc))
    } else if s == "sp"@ {
        Some(core.reg(2))
    } else {
        parse_radix(without_0x(s), 16)
    }
}

/// Whether the command line can be carried out: the commands that take an argument have one,
/// and a step count does not overflow when counted in cycles.
pub open spec fn command_defined(words: Seq<String>) -> bool {
    words.len() > 0 ==> {
        let w = words[0]@;
        &&& (w == "d"@ || w == "b"@ || w == "m"@ || w == "s"@) ==> words.len() >= 2
        &&& w == "s"@ ==> steps_of(words[1]@) * CYCLES_PER_INSTRUCTION <= usize::MAX
    }
}

/// The instructions a step command asks for: the decimal number given, or 1.
pub open spec fn steps_of(arg: Seq<char>) -> nat {
    match parse_radix(arg, 10) {
        Some(v) => v as nat,
        None => 1,
    }
}

/// Whether `c` is what a command line asks for: `quit`, `bt` (backtrace), `d <addr>`
/// (disassemble), `b <addr>` (continue until), `m <addr>` (dump memory), `s <count>` (step that
/// many instructions) and `c` (continue).
pub open spec fn answers(core: &Core, words: Seq<String>, c: DebuggerCommand) -> bool {
    if words.len() == 0 {
        c is Nothing
    } else {
        let w = words[0]@;
        if w == "quit"@ {
            c matches DebuggerCommand::Leave(DebuggerResult::Quit(why)) && why@ == "Bye"@
        } else if w == "bt"@ {
            c is Backtrace
        } else if w == "d"@ {
            match named_address(core, words[1]@) {
                Some(a) => c == DebuggerCommand::Disassemble(a),
                None => c is BadAddress,
            }
        } else if w == "b"@ {
            match named_address(core, words[1]@) {
                Some(a) => c == DebuggerCommand::Leave(DebuggerResult::ContinueUntil(a)),
                None => c is BadAddress,
            }
        } else if w == "m"@ {
            match named_address(core, words[1]@) {
                Some(a) => c == DebuggerCommand::DumpMemory(a),
                None => c is BadAddress,
            }
        } else if w == "s"@ {
            c == DebuggerCommand::Leave(
                DebuggerResult::Step((steps_of(words[1]@) * CYCLES_PER_INSTRUCTION) as usize),
            )
        } else if w == "c"@ {
            c == DebuggerCommand::Leave(DebuggerResult::Continue)
        } else {
            c is Nothing
        }
    }
}

/// Whether `s` is the word `w`.
fn is_word(s: &String, w: &str) -> (b: bool)
    ensures
        b == (s@ == w@),
{
    s.eq(&String::from_str(w))
}

/// `s` without the `0x` prefixes it starts with.
fn strip_0x(s: &str) -> (r: &str)
    ensures
        r@ == without_0x(s@),
    decreases s@.len(),
{
    let len = s.unicode_len();
    if len >= 2 && s.get_char(0) == '0' && s.get_char(1) == 'x' {
        let rest = s.substring_char(2, len);
        assert(rest@ =~= s@.skip(2));
        strip_0x(rest)
    } else {
        s
    }
}

impl Debugger {
    /// A debugger.
    pub fn create() -> (d: Debugger)
        ensures
            d == (Debugger {}),
    {
        Debugger {}
    }

    /// The address an argument names.
    pub fn parse_addr(core: &Core, s: &String) -> (r: Option<u64>)
        ensures
            r == named_address(core, s@),
    {
        if is_word(s, "pc") {
            Some(core.pc())
        } else if is_word(s, "mepc") {
            Some(core.read_csr(CSRRegister::mepc))
        } else if is_word(s, "sepc") {
            Some(core.read_csr(CSRRegister::sepc))
        } else if is_word(s, "sp") {
            Some(core.read_register(2))
        } else {
            parse_u64_radix(strip_0x(s.as_str()), 16)
        }
    }

    /// What the command line, split into words, asks for.
    pub fn command(core: &Core, words: &Vec<String>) -> (c: DebuggerCommand)
        requires
            command_defined(words@),
        ensures
            answers(core, words@, c),
    {
        if words.len() == 0 {
            return DebuggerCommand::Nothing;
        }
        let w = &words[0];
        if is_word(w, "quit") {
            DebuggerCommand::Leave(DebuggerResult::Quit(String::from_str("Bye")))
        } else if is_word(w, "bt") {
            DebuggerCommand::Backtrace
        } else if is_word(w, "d") {
            match Debugger::parse_addr(core, &words[1]) {
                Some(a) => DebuggerCommand::Disassemble(a),
                None => DebuggerCommand::BadAddress,
            }
        } else if is_word(w, "b") {
            match Debugger::parse_addr(core, &words[1]) {
                Some(a) => DebuggerCommand::Leave(DebuggerResult::ContinueUntil(a)),
                None => DebuggerCommand::BadAddress,
            }
        } else if is_word(w, "m") {
            match Debugger::parse_addr(core, &words[1]) {
                Some(a) => DebuggerCommand::DumpMemory(a),
                None => DebuggerCommand::BadAddress,
            }
        } else if is_word(w, "s") {
            let steps: u64 = match parse_u64_radix(words[1].as_str(), 10) {
                Some(value) => value,
                None => 1,
            };
            DebuggerCommand::Leave(DebuggerResult::Step(steps as usize * CYCLES_PER_INSTRUCTION))
        } else if is_word(w, "c") {
            DebuggerCommand::Leave(DebuggerResult::Continue)
        } else {
            DebuggerCommand::Nothing
        }
    }
}

} // verus!
