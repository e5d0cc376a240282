use rriscv::cpu::{CSRRegister, Core};
use rriscv::debugger::{Debugger, DebuggerCommand, DebuggerResult};

fn words(line: &str) -> Vec<String> {
    line.split_whitespace().map(|w| w.to_string()).collect()
}

fn hart() -> Core {
    let mut core = Core::create(0);
    core.reset(0x8000_0040);
    core.write_csr(CSRRegister::mepc, 0x8000_1000);
    core.write_register(2, 0x8000_3ff0);
    core
}

#[test]
fn addresses_by_name_or_number() {
    let core = hart();
    assert_eq!(Debugger::parse_addr(&core, &"pc".to_string()), Some(0x8000_0040));
    assert_eq!(Debugger::parse_addr(&core, &"mepc".to_string()), Some(0x8000_1000));
    assert_eq!(Debugger::parse_addr(&core, &"sepc".to_string()), Some(0));
    assert_eq!(Debugger::parse_addr(&core, &"sp".to_string()), Some(0x8000_3ff0));
    assert_eq!(Debugger::parse_addr(&core, &"0x80000000".to_string()), Some(0x8000_0000));
    assert_eq!(Debugger::parse_addr(&core, &"0x0x1f".to_string()), Some(0x1f));
    assert_eq!(Debugger::parse_addr(&core, &"ab".to_string()), Some(0xab));
    assert_eq!(Debugger::parse_addr(&core, &"zz".to_string()), None);
}

#[test]
fn commands() {
    let _debugger = Debugger::create();
    let core = hart();
    assert!(matches!(Debugger::command(&core, &words("")), DebuggerCommand::Nothing));
    match Debugger::command(&core, &words("quit")) {
        DebuggerCommand::Leave(DebuggerResult::Quit(why)) => assert_eq!(why, "Bye"),
        _ => panic!("quit"),
    }
    assert!(matches!(Debugger::command(&core, &words("bt")), DebuggerCommand::Backtrace));
    assert!(matches!(Debugger::command(&core, &words("d pc")), DebuggerCommand::Disassemble(0x8000_0040)));
    assert!(matches!(
        Debugger::command(&core, &words("b 80000100")),
        DebuggerCommand::Leave(DebuggerResult::ContinueUntil(0x8000_0100))
    ));
    assert!(matches!(Debugger::command(&core, &words("m sp")), DebuggerCommand::DumpMemory(0x8000_3ff0)));
    assert!(matches!(Debugger::command(&core, &words("b nowhere")), DebuggerCommand::BadAddress));
    assert!(matches!(Debugger::command(&core, &words("s 3")), DebuggerCommand::Leave(DebuggerResult::Step(15))));
    assert!(matches!(Debugger::command(&core, &words("s x")), DebuggerCommand::Leave(DebuggerResult::Step(5))));
    assert!(matches!(Debugger::command(&core, &words("c")), DebuggerCommand::Leave(DebuggerResult::Continue)));
    assert!(matches!(Debugger::command(&core, &words("help")), DebuggerCommand::Nothing));
}
