use gb_rs::debug::{Actions, Command};
use gb_rs::gb::Gameboy;
use gb_rs::op::Opcode;

fn machine_with(program: Vec<u8>) -> Gameboy {
    Gameboy::new(program)
}

#[test]
fn breakpoint_add_then_remove_by_index() {
    let mut d = gb_rs::debug::Debug::new();
    assert!(!d.check_breakpoints(0x0150));
    d.set_breakpoint(0x0150);
    assert!(d.check_breakpoints(0x0150));
    let gb = machine_with(Vec::new());
    let a = d.parse_input("bc 0", &gb);
    assert_eq!(a, Actions::NOOP);
    assert!(!d.check_breakpoints(0x0150));
}

#[test]
fn breakpoint_added_through_hex_command() {
    let mut d = gb_rs::debug::Debug::new();
    let gb = machine_with(Vec::new());
    d.parse_input("b 150", &gb);
    assert!(d.check_breakpoints(0x0150));
    assert!(!d.check_breakpoints(150));
    d.parse_input("b FFfe", &gb);
    assert!(d.check_breakpoints(0xFFFE));
}

#[test]
fn command_grammar_dispatches_on_first_token() {
    assert_eq!(gb_rs::debug::parse_command(":q"), Command::Quit);
    assert_eq!(gb_rs::debug::parse_command("quit"), Command::Quit);
    assert_eq!(gb_rs::debug::parse_command("s"), Command::Step);
    assert_eq!(gb_rs::debug::parse_command("step"), Command::Step);
    assert_eq!(gb_rs::debug::parse_command("p"), Command::PrintStatus);
    assert_eq!(gb_rs::debug::parse_command("c"), Command::Resume);
    assert_eq!(gb_rs::debug::parse_command("continue"), Command::Resume);
    assert_eq!(gb_rs::debug::parse_command("bs"), Command::ListBreakpoints);
    assert_eq!(gb_rs::debug::parse_command("l"), Command::Disassemble);
    assert_eq!(gb_rs::debug::parse_command("b 1f"), Command::AddBreakpoint(0x1F));
    assert_eq!(gb_rs::debug::parse_command("bc 12"), Command::ClearBreakpoint(12));
}

#[test]
fn malformed_input_degrades_to_noop() {
    assert_eq!(gb_rs::debug::parse_command(""), Command::Noop);
    assert_eq!(gb_rs::debug::parse_command("frobnicate"), Command::Noop);
    assert_eq!(gb_rs::debug::parse_command("b"), Command::Noop);
    assert_eq!(gb_rs::debug::parse_command("b xyz"), Command::Noop);
    assert_eq!(gb_rs::debug::parse_command("b 10000"), Command::Noop);
    assert_eq!(gb_rs::debug::parse_command("bc"), Command::Noop);
    assert_eq!(gb_rs::debug::parse_command("bc 99999"), Command::Noop);
    assert_eq!(gb_rs::debug::parse_command("bc ff"), Command::Noop);
    assert_eq!(gb_rs::debug::parse_command("stepp"), Command::Noop);
    assert_eq!(gb_rs::debug::parse_command("b  12"), Command::Noop);
}

#[test]
fn clearing_out_of_range_index_changes_nothing() {
    let mut d = gb_rs::debug::Debug::new();
    let gb = machine_with(Vec::new());
    d.set_breakpoint(0x10);
    let a = d.parse_input("bc 5", &gb);
    assert_eq!(a, Actions::NOOP);
    assert!(d.check_breakpoints(0x10));
    assert_eq!(d.breakpoints.len(), 1);
}

#[test]
fn parse_input_maps_commands_to_actions() {
    let mut d = gb_rs::debug::Debug::new();
    let gb = machine_with(Vec::new());
    assert_eq!(d.parse_input(":q", &gb), Actions::EXIT);
    assert_eq!(d.parse_input("quit", &gb), Actions::EXIT);
    assert_eq!(d.parse_input("s", &gb), Actions::STEP);
    assert_eq!(d.parse_input("step", &gb), Actions::STEP);
    assert_eq!(d.parse_input("c", &gb), Actions::BREAK);
    assert_eq!(d.parse_input("continue", &gb), Actions::BREAK);
    assert_eq!(d.parse_input("p", &gb), Actions::NOOP);
    assert_eq!(d.parse_input("l", &gb), Actions::NOOP);
    assert_eq!(d.parse_input("nonsense", &gb), Actions::NOOP);
}

#[test]
fn disassembly_matches_execution_decode() {
    // INC B; LD B,d8 0x05; NOP; JR d8 0x00; XOR A.
    let program = vec![0x04, 0x06, 0x05, 0x00, 0x18, 0x00, 0xAF];
    let d = gb_rs::debug::Debug::new();
    let gb = machine_with(program.clone());
    let lines = d.disassemble(&gb);
    assert_eq!(lines.len(), 40);
    assert_eq!(lines[0].address, 0x0000);
    assert_eq!(lines[0].op, Some(Opcode::IncB));
    assert_eq!(lines[0].size, 1);
    assert_eq!(lines[1].address, 0x0001);
    assert_eq!(lines[1].op, Some(Opcode::LdB));
    assert_eq!(lines[1].size, 2);
    assert_eq!(lines[2].op, Some(Opcode::NoOp));
    assert_eq!(lines[3].address, 0x0004);
    assert_eq!(lines[3].op, Some(Opcode::Jr));
    assert_eq!(lines[3].size, 2);
    assert_eq!(lines[4].op, Some(Opcode::XORA));

    // Executing the same bytes consumes the same lengths and decodes the
    // same operations, so mnemonics agree across both entry points.
    let mut gb = machine_with(program);
    for line in lines.iter().take(5) {
        assert_eq!(gb.cpu.pc, line.address);
        let byte = gb.cpu.memory.read_value_u8(gb.cpu.pc as usize);
        let executed = Opcode::parse(gb.cpu.pc, byte).unwrap();
        assert_eq!(executed.mnemonic(), line.op.unwrap().mnemonic());
        gb.step().unwrap();
    }
}

#[test]
fn disassembler_reports_unknown_bytes_without_stopping() {
    let d = gb_rs::debug::Debug::new();
    let gb = machine_with(vec![0xFF, 0xCB, 0x00, 0x04]);
    let lines = d.disassemble(&gb);
    assert_eq!(lines[0].op, None);
    assert_eq!(lines[0].size, 1);
    assert_eq!(lines[1].address, 0x0001);
    assert_eq!(lines[1].op, None);
    assert_eq!(lines[1].size, 2);
    assert_eq!(lines[2].address, 0x0003);
    assert_eq!(lines[2].op, Some(Opcode::IncB));
}

#[test]
fn disassembler_resolves_prefixed_operations() {
    let d = gb_rs::debug::Debug::new();
    let gb = machine_with(vec![0xCB, 0x7C, 0xCB, 0x11]);
    let lines = d.disassemble(&gb);
    assert_eq!(lines[0].op, Some(Opcode::CB7C));
    assert_eq!(lines[0].size, 2);
    assert_eq!(lines[0].op.unwrap().mnemonic(), "BIT 7, H");
    assert_eq!(lines[1].address, 0x0002);
    assert_eq!(lines[1].op, Some(Opcode::CBRLC));
    assert_eq!(lines[1].op.unwrap().mnemonic(), "RL C");
}

#[test]
fn disassembly_does_not_touch_machine_state() {
    let d = gb_rs::debug::Debug::new();
    let gb = machine_with(vec![0x04, 0x05, 0x06, 0x07]);
    let pc_before = gb.cpu.pc;
    let clock_before = gb.cpu.m_clock;
    let _ = d.disassemble(&gb);
    assert_eq!(gb.cpu.pc, pc_before);
    assert_eq!(gb.cpu.m_clock, clock_before);
    assert_eq!(gb.cpu.memory.read_value_u8(0), 0x04);
}

#[test]
fn debugger_step_runs_one_instruction() {
    let d = gb_rs::debug::Debug::new();
    let mut gb = machine_with(vec![0x04]);
    let r = d.step(&mut gb);
    assert_eq!(r, Ok(1));
    assert_eq!(gb.cpu.b, 1);
    assert_eq!(gb.cpu.pc, 1);
}

#[test]
fn mnemonics_match_the_table() {
    assert_eq!(Opcode::NoOp.mnemonic(), "NOOP");
    assert_eq!(Opcode::IncB.mnemonic(), "INC B");
    assert_eq!(Opcode::LdSP.mnemonic(), "LD SP, d16");
    assert_eq!(Opcode::CallNN.mnemonic(), "CALL NN");
    assert_eq!(Opcode::RET.mnemonic(), "RET");
}

#[test]
fn opcode_sizes_and_cycles_from_the_table() {
    assert_eq!(Opcode::NoOp.size(), 1);
    assert_eq!(Opcode::LdB.size(), 2);
    assert_eq!(Opcode::LdHL.size(), 3);
    assert_eq!(Opcode::CallNN.size(), 3);
    assert_eq!(Opcode::CB7C.size(), 2);
    assert_eq!(Opcode::CallNN.cycles(), (6, 6));
    assert_eq!(Opcode::CallZ.cycles(), (6, 3));
    assert_eq!(Opcode::JRNZ.cycles(), (3, 2));
    assert_eq!(Opcode::RetNZ.cycles(), (5, 2));
}

#[test]
fn decoder_rejects_missing_entries() {
    let r = Opcode::parse(0x1234, 0xFF);
    assert_eq!(
        r,
        Err(gb_rs::error::EmuError::UnimplementedOpcode { byte: 0xFF, address: 0x1234 })
    );
    let r = Opcode::redirect(0x0001, 0x42);
    assert_eq!(
        r,
        Err(gb_rs::error::EmuError::UnimplementedOpcode { byte: 0x42, address: 0x0001 })
    );
    assert_eq!(Opcode::parse(0, 0x04), Ok(Opcode::IncB));
    assert_eq!(Opcode::redirect(0, 0x11), Ok(Opcode::CBRLC));
    assert_eq!(Opcode::redirect(0, 0x7C), Ok(Opcode::CB7C));
}
