//! The debugger and disassembler: an ordered set of breakpoint addresses,
//! a non-mutating disassembly view that reuses the decoder's table, and
//! the interactive command parser. Malformed input is never fatal: it
//! degrades to no operation.

use vstd::prelude::*;
use crate::cpu::spec_decode_at;
use crate::error::EmuError;
use crate::gb::Gameboy;
use crate::mem::MMU;
use crate::op::{spec_decode, spec_mnemonic, spec_redirect, spec_size, Opcode};
use crate::bits::{wadd16, wrap16};

verus! {

/// What the run loop should do after one line of interactive input.
#[derive(Clone, Copy, Debug, PartialEq, Eq, Structural)]
pub enum Actions {
    /// Resume free-running execution.
    BREAK,
    /// Terminate the process.
    EXIT,
    /// Execute exactly one instruction.
    STEP,
    /// Nothing; also the fallback for unrecognized input.
    NOOP,
}

/// One parsed interactive command, including those that only produce
/// output and therefore map to `NOOP` actions.
#[derive(Clone, Copy, Debug, PartialEq, Eq, Structural)]
pub enum Command {
    Quit,
    Step,
    PrintStatus,
    Resume,
    AddBreakpoint(u16),
    ListBreakpoints,
    ClearBreakpoint(u16),
    Disassemble,
    Noop,
}

/// One line of disassembly: the address, the operation decoded there
/// (`None` when the bytes have no table entry), and how many bytes the
/// line covers.
#[derive(Clone, Copy, Debug, PartialEq, Eq, Structural)]
pub struct DisasmLine {
    pub address: u16,
    pub op: Option<Opcode>,
    pub size: u16,
}

/// How many lines one disassembly request produces.
pub const DISASM_LINES: usize = 40;

/// The disassembler's reading of the bytes at `addr`: the same decode
/// tables the execution engine uses, consulted purely by address. An
/// unknown primary byte covers one byte; an unknown prefixed byte covers
/// the prefix and the selector.
pub open spec fn spec_disasm_line(mem: Seq<u8>, addr: u16) -> DisasmLine {
    let b = mem[addr as int];
    match spec_decode(b) {
        Option::None => DisasmLine { address: addr, op: None, size: 1 },
        Option::Some(op) => if op == Opcode::CB {
            match spec_redirect(mem[wrap16(addr + 1) as int]) {
                Option::None => DisasmLine { address: addr, op: None, size: 2 },
                Option::Some(op2) => DisasmLine { address: addr, op: Some(op2), size: spec_size(op2) },
            }
        } else {
            DisasmLine { address: addr, op: Some(op), size: spec_size(op) }
        },
    }
}

/// The finite disassembly listing: `count` lines starting at `addr`,
/// each line's cursor advancing by the previous line's size.
pub open spec fn spec_disasm(mem: Seq<u8>, addr: u16, count: nat) -> Seq<DisasmLine>
    decreases count,
{
    if count == 0 {
        Seq::empty()
    } else {
        let line = spec_disasm_line(mem, addr);
        seq![line] + spec_disasm(mem, wrap16(addr + line.size), (count - 1) as nat)
    }
}

/// The cursor after `count` lines of disassembly starting at `addr`.
pub open spec fn spec_disasm_cursor(mem: Seq<u8>, addr: u16, count: nat) -> u16
    decreases count,
{
    if count == 0 {
        addr
    } else {
        let line = spec_disasm_line(mem, addr);
        spec_disasm_cursor(mem, wrap16(addr + line.size), (count - 1) as nat)
    }
}

/// Extending a disassembly listing by one line appends the line at the
/// current cursor.
proof fn lemma_disasm_snoc(mem: Seq<u8>, addr: u16, count: nat)
    ensures
        spec_disasm(mem, addr, count + 1) == spec_disasm(mem, addr, count).push(
            spec_disasm_line(mem, spec_disasm_cursor(mem, addr, count)),
        ),
        spec_disasm_cursor(mem, addr, count + 1) == wrap16(
            spec_disasm_cursor(mem, addr, count)
                + spec_disasm_line(mem, spec_disasm_cursor(mem, addr, count)).size,
        ),
    decreases count,
{
    if count == 0 {
        let line = spec_disasm_line(mem, addr);
        let next = wrap16(addr + line.size);
        assert(spec_disasm(mem, next, 0) =~= Seq::<DisasmLine>::empty());
        assert(spec_disasm_cursor(mem, next, 0) == next);
        assert(spec_disasm(mem, addr, 1) =~= spec_disasm(mem, addr, 0).push(
            spec_disasm_line(mem, addr),
        ));
    } else {
        let line = spec_disasm_line(mem, addr);
        let next = wrap16(addr + line.size);
        lemma_disasm_snoc(mem, next, (count - 1) as nat);
        assert(spec_disasm(mem, addr, count + 1) =~= spec_disasm(mem, addr, count).push(
            spec_disasm_line(mem, spec_disasm_cursor(mem, addr, count)),
        ));
    }
}

/// The two decode paths cannot disagree: a disassembly line carries
/// exactly the operation that execution would decode at the same
/// address, with that operation's byte size, and reports no operation
/// exactly where execution would fail.
pub proof fn lemma_disasm_matches_exec(mem: Seq<u8>, addr: u16)
    ensures
        (match spec_decode_at(mem, addr) {
            Ok(op) => spec_disasm_line(mem, addr).op == Some(op) && spec_disasm_line(mem, addr).size
                == spec_size(op) && spec_mnemonic(spec_disasm_line(mem, addr).op->Some_0)
                == spec_mnemonic(op),
            Err(_) => spec_disasm_line(mem, addr).op is None,
        }),
{
}

/// Disassemble one instruction at `addr`, reading operand bytes purely
/// by address; no machine state is touched.
pub fn disassemble_one(memory: &MMU, addr: u16) -> (line: DisasmLine)
    requires
        memory.wf(),
    ensures
        line == spec_disasm_line(memory@, addr),
{
    let b = memory.read_value_u8(addr as usize);
    match Opcode::parse(addr, b) {
        Err(_) => DisasmLine { address: addr, op: None, size: 1 },
        Ok(op) => match op {
            Opcode::CB => {
                let sub = memory.read_value_u8(wadd16(addr, 1) as usize);
                match Opcode::redirect(wadd16(addr, 1), sub) {
                    Err(_) => DisasmLine { address: addr, op: None, size: 2 },
                    Ok(op2) => DisasmLine { address: addr, op: Some(op2), size: op2.size() },
                }
            },
            _ => DisasmLine { address: addr, op: Some(op), size: op.size() },
        },
    }
}

/// The numeric value of one hexadecimal digit.
pub open spec fn hex_digit(ch: char) -> Option<u8> {
    let v = ch as u32;
    if 48 <= v <= 57 {
        Some((v - 48) as u8)
    } else if 97 <= v <= 102 {
        Some((v - 87) as u8)
    } else if 65 <= v <= 70 {
        Some((v - 55) as u8)
    } else {
        None
    }
}

/// The numeric value of one decimal digit.
pub open spec fn dec_digit(ch: char) -> Option<u8> {
    let v = ch as u32;
    if 48 <= v <= 57 {
        Some((v - 48) as u8)
    } else {
        None
    }
}

/// Left fold of hexadecimal digits onto an accumulator; `None` on a
/// non-digit or when the value leaves the 16-bit range.
pub open spec fn fold_hex(t: Seq<char>, acc: int) -> Option<int>
    decreases t.len(),
{
    if t.len() == 0 {
        Some(acc)
    } else {
        match hex_digit(t[0]) {
            Option::None => None,
            Option::Some(d) => if acc * 16 + d > 0xFFFF {
                None
            } else {
                fold_hex(t.skip(1), acc * 16 + d)
            },
        }
    }
}

/// Left fold of decimal digits onto an accumulator; `None` on a
/// non-digit or when the value leaves the 16-bit range.
pub open spec fn fold_dec(t: Seq<char>, acc: int) -> Option<int>
    decreases t.len(),
{
    if t.len() == 0 {
        Some(acc)
    } else {
        match dec_digit(t[0]) {
            Option::None => None,
            Option::Some(d) => if acc * 10 + d > 0xFFFF {
                None
            } else {
                fold_dec(t.skip(1), acc * 10 + d)
            },
        }
    }
}

/// A non-empty all-hexadecimal token's 16-bit value.
pub open spec fn parse_hex_u16(t: Seq<char>) -> Option<u16> {
    if t.len() == 0 {
        None
    } else {
        match fold_hex(t, 0) {
            Option::None => None,
            Option::Some(v) => Some(v as u16),
        }
    }
}

/// A non-empty all-decimal token's 16-bit value.
pub open spec fn parse_dec_u16(t: Seq<char>) -> Option<u16> {
    if t.len() == 0 {
        None
    } else {
        match fold_dec(t, 0) {
            Option::None => None,
            Option::Some(v) => Some(v as u16),
        }
    }
}

/// The position of the first space at or after `from`, or the end of the
/// input: tokens are the maximal space-free runs.
pub open spec fn token_end(s: Seq<char>, from: int) -> int
    decreases s.len() - from,
{
    if from >= s.len() {
        s.len() as int
    } else if s[from] == ' ' {
        from
    } else {
        token_end(s, from + 1)
    }
}

/// The interactive command grammar: whitespace-separated tokens, the
/// first token dispatches, and anything unrecognized (including a
/// missing or malformed argument) is no operation.
pub open spec fn spec_command(s: Seq<char>) -> Command {
    let e0 = token_end(s, 0);
    let t0 = s.subrange(0, e0);
    if t0 == ":q"@ || t0 == "quit"@ {
        Command::Quit
    } else if t0 == "s"@ || t0 == "step"@ {
        Command::Step
    } else if t0 == "p"@ {
        Command::PrintStatus
    } else if t0 == "c"@ || t0 == "continue"@ {
        Command::Resume
    } else if t0 == "b"@ {
        if e0 < s.len() {
            match parse_hex_u16(s.subrange(e0 + 1, token_end(s, e0 + 1))) {
                Option::Some(v) => Command::AddBreakpoint(v),
                Option::None => Command::Noop,
            }
        } else {
            Command::Noop
        }
    } else if t0 == "bs"@ {
        Command::ListBreakpoints
    } else if t0 == "bc"@ {
        if e0 < s.len() {
            match parse_dec_u16(s.subrange(e0 + 1, token_end(s, e0 + 1))) {
                Option::Some(v) => Command::ClearBreakpoint(v),
                Option::None => Command::Noop,
            }
        } else {
            Command::Noop
        }
    } else if t0 == "l"@ {
        Command::Disassemble
    } else {
        Command::Noop
    }
}

/// The action a command maps to; commands that only produce output map
/// to `NOOP`.
pub open spec fn spec_action_of(c: Command) -> Actions {
    match c {
        Command::Quit => Actions::EXIT,
        Command::Step => Actions::STEP,
        Command::Resume => Actions::BREAK,
        _ => Actions::NOOP,
    }
}

/// How a command changes the breakpoint list: adding appends, clearing
/// removes by index when the index is in range, and everything else
/// leaves the list alone.
pub open spec fn spec_apply_breakpoints(bps: Seq<u16>, c: Command) -> Seq<u16> {
    match c {
        Command::AddBreakpoint(v) => bps.push(v),
        Command::ClearBreakpoint(i) => if (i as int) < bps.len() {
            bps.remove(i as int)
        } else {
            bps
        },
        _ => bps,
    }
}

/// Find the end of the token that starts at `from`.
fn find_token_end(s: &str, from: usize) -> (r: usize)
    requires
        from <= s@.len(),
    ensures
        r == token_end(s@, from as int),
        from <= r <= s@.len(),
{
    let n = s.unicode_len();
    let mut i = from;
    while i < n
        invariant
            from <= i <= n,
            n == s@.len(),
            token_end(s@, from as int) == token_end(s@, i as int),
        decreases n - i,
    {
        if s.get_char(i) == ' ' {
            return i;
        }
        i += 1;
    }
    i
}

/// Whether the characters of `s` in `[start, end)` are exactly `lit`.
fn token_matches(s: &str, start: usize, end: usize, lit: &str) -> (r: bool)
    requires
        start <= end <= s@.len(),
    ensures
        r == (s@.subrange(start as int, end as int) == lit@),
{
    let llen = lit.unicode_len();
    if end - start != llen {
        proof {
            assert(s@.subrange(start as int, end as int).len() == end - start);
        }
        return false;
    }
    let mut i: usize = 0;
    while i < llen
        invariant
            i <= llen,
            llen == lit@.len(),
            end - start == llen,
            start <= end <= s@.len(),
            forall|j: int| 0 <= j < i ==> s@.subrange(start as int, end as int)[j] == lit@[j],
        decreases llen - i,
    {
        let sc = s.get_char(start + i);
        let lc = lit.get_char(i);
        proof {
            assert(s@.subrange(start as int, end as int)[i as int] == s@[start + i]);
        }
        if sc != lc {
            return false;
        }
        i += 1;
    }
    proof {
        assert(s@.subrange(start as int, end as int) =~= lit@);
    }
    true
}

fn hex_digit_exec(ch: char) -> (r: Option<u8>)
    ensures
        r == hex_digit(ch),
{
    let v = ch as u32;
    if 48 <= v && v <= 57 {
        Some((v - 48) as u8)
    } else if 97 <= v && v <= 102 {
        Some((v - 87) as u8)
    } else if 65 <= v && v <= 70 {
        Some((v - 55) as u8)
    } else {
        None
    }
}

fn dec_digit_exec(ch: char) -> (r: Option<u8>)
    ensures
        r == dec_digit(ch),
{
    let v = ch as u32;
    if 48 <= v && v <= 57 {
        Some((v - 48) as u8)
    } else {
        None
    }
}

/// Parse the characters of `s` in `[start, end)` as a hexadecimal
/// 16-bit value.
fn parse_hex_token(s: &str, start: usize, end: usize) -> (r: Option<u16>)
    requires
        start <= end <= s@.len(),
    ensures
        r == parse_hex_u16(s@.subrange(start as int, end as int)),
{
    let ghost t = s@.subrange(start as int, end as int);
    if start == end {
        return None;
    }
    let mut acc: u32 = 0;
    let mut i = start;
    proof {
        assert(t.skip(0) =~= t);
    }
    while i < end
        invariant
            start <= i <= end <= s@.len(),
            t == s@.subrange(start as int, end as int),
            acc <= 0xFFFF,
            fold_hex(t, 0) == fold_hex(t.skip(i - start), acc as int),
        decreases end - i,
    {
        let c = s.get_char(i);
        proof {
            assert(t.skip(i - start)[0] == s@[i as int]);
        }
        match hex_digit_exec(c) {
            None => {
                return None;
            },
            Some(d) => {
                let next = acc * 16 + d as u32;
                if next > 0xFFFF {
                    return None;
                }
                proof {
                    assert(t.skip(i - start).skip(1) =~= t.skip(i + 1 - start));
                }
                acc = next;
            },
        }
        i += 1;
    }
    proof {
        assert(t.skip(i - start) =~= Seq::<char>::empty());
    }
    Some(acc as u16)
}

/// Parse the characters of `s` in `[start, end)` as a decimal 16-bit
/// value.
fn parse_dec_token(s: &str, start: usize, end: usize) -> (r: Option<u16>)
    requires
        start <= end <= s@.len(),
    ensures
        r == parse_dec_u16(s@.subrange(start as int, end as int)),
{
    let ghost t = s@.subrange(start as int, end as int);
    if start == end {
        return None;
    }
    let mut acc: u32 = 0;
    let mut i = start;
    proof {
        assert(t.skip(0) =~= t);
    }
    while i < end
        invariant
            start <= i <= end <= s@.len(),
            t == s@.subrange(start as int, end as int),
            acc <= 0xFFFF,
            fold_dec(t, 0) == fold_dec(t.skip(i - start), acc as int),
        decreases end - i,
    {
        let c = s.get_char(i);
        proof {
            assert(t.skip(i - start)[0] == s@[i as int]);
        }
        match dec_digit_exec(c) {
            None => {
                return None;
            },
            Some(d) => {
                let next = acc * 10 + d as u32;
                if next > 0xFFFF {
                    return None;
                }
                proof {
                    assert(t.skip(i - start).skip(1) =~= t.skip(i + 1 - start));
                }
                acc = next;
            },
        }
        i += 1;
    }
    proof {
        assert(t.skip(i - start) =~= Seq::<char>::empty());
    }
    Some(acc as u16)
}

/// Parse one line of interactive input into a command.
pub fn parse_command(input: &str) -> (c: Command)
    ensures
        c == spec_command(input@),
{
    let e0 = find_token_end(input, 0);
    let n = input.unicode_len();
    if token_matches(input, 0, e0, ":q") || token_matches(input, 0, e0, "quit") {
        Command::Quit
    } else if token_matches(input, 0, e0, "s") || token_matches(input, 0, e0, "step") {
        Command::Step
    } else if token_matches(input, 0, e0, "p") {
        Command::PrintStatus
    } else if token_matches(input, 0, e0, "c") || token_matches(input, 0, e0, "continue") {
        Command::Resume
    } else if token_matches(input, 0, e0, "b") {
        if e0 < n {
            let e1 = find_token_end(input, e0 + 1);
            match parse_hex_token(input, e0 + 1, e1) {
                Some(v) => Command::AddBreakpoint(v),
                None => Command::Noop,
            }
        } else {
            Command::Noop
        }
    } else if token_matches(input, 0, e0, "bs") {
        Command::ListBreakpoints
    } else if token_matches(input, 0, e0, "bc") {
        if e0 < n {
            let e1 = find_token_end(input, e0 + 1);
            match parse_dec_token(input, e0 + 1, e1) {
                Some(v) => Command::ClearBreakpoint(v),
                None => Command::Noop,
            }
        } else {
            Command::Noop
        }
    } else if token_matches(input, 0, e0, "l") {
        Command::Disassemble
    } else {
        Command::Noop
    }
}

/// The debugger: an ordered list of breakpoint addresses, owned and
/// mutated only here; the run loop consults it read-only.
pub struct Debug {
    pub location: u16,
    pub breakpoints: Vec<u16>,
}

impl Debug {
    /// A fresh debugger with no breakpoints.
    pub fn new() -> (d: Debug)
        ensures
            d.location == 0,
            d.breakpoints@ == Seq::<u16>::empty(),
    {
        Debug { location: 0, breakpoints: Vec::new() }
    }

    /// Append a breakpoint address.
    pub fn set_breakpoint(&mut self, location: u16)
        ensures
            final(self).breakpoints@ == old(self).breakpoints@.push(location),
            final(self).location == old(self).location,
    {
        self.breakpoints.push(location);
    }

    /// Whether `location` is a breakpoint.
    pub fn check_breakpoints(&self, location: u16) -> (r: bool)
        ensures
            r == self.breakpoints@.contains(location),
    {
        let mut i: usize = 0;
        while i < self.breakpoints.len()
            invariant
                i <= self.breakpoints@.len(),
                forall|j: int| 0 <= j < i ==> self.breakpoints@[j] != location,
            decreases self.breakpoints@.len() - i,
        {
            if self.breakpoints[i] == location {
                return true;
            }
            i += 1;
        }
        false
    }

    /// Disassemble a fixed count of instructions ahead of the current
    /// program counter, without touching the machine.
    pub fn disassemble(&self, machine: &Gameboy) -> (r: Vec<DisasmLine>)
        requires
            machine.wf(),
        ensures
            r@ == spec_disasm(machine.cpu@.mem, machine.cpu@.pc, DISASM_LINES as nat),
    {
        let mut r: Vec<DisasmLine> = Vec::new();
        let mut cursor: u16 = machine.cpu.pc;
        let mut line_count: usize = 0;
        while line_count < DISASM_LINES
            invariant
                machine.wf(),
                line_count <= DISASM_LINES,
                r@ == spec_disasm(machine.cpu@.mem, machine.cpu@.pc, line_count as nat),
                cursor == spec_disasm_cursor(machine.cpu@.mem, machine.cpu@.pc, line_count as nat),
            decreases DISASM_LINES - line_count,
        {
            let line = disassemble_one(&machine.cpu.memory, cursor);
            proof {
                lemma_disasm_snoc(machine.cpu@.mem, machine.cpu@.pc, line_count as nat);
            }
            r.push(line);
            cursor = wadd16(cursor, line.size);
            line_count += 1;
        }
        r
    }

    /// Dispatch one line of interactive input: mutate the breakpoint
    /// list for the breakpoint commands and report the resulting action.
    /// Unrecognized or malformed input is never fatal.
    pub fn parse_input(&mut self, input: &str, _machine: &Gameboy) -> (a: Actions)
        ensures
            a == spec_action_of(spec_command(input@)),
            final(self).breakpoints@ == spec_apply_breakpoints(
                old(self).breakpoints@,
                spec_command(input@),
            ),
            final(self).location == old(self).location,
    {
        match parse_command(input) {
            Command::Quit => Actions::EXIT,
            Command::Step => Actions::STEP,
            Command::Resume => Actions::BREAK,
            Command::AddBreakpoint(v) => {
                self.set_breakpoint(v);
                Actions::NOOP
            },
            Command::ClearBreakpoint(i) => {
                if (i as usize) < self.breakpoints.len() {
                    self.breakpoints.remove(i as usize);
                }
                Actions::NOOP
            },
            _ => Actions::NOOP,
        }
    }

    /// Execute exactly one instruction of the machine.
    pub fn step(&self, machine: &mut Gameboy) -> (r: Result<u8, EmuError>)
        requires
            old(machine).wf(),
        ensures
            final(machine).wf(),
            (match spec_decode_at(old(machine).cpu@.mem, old(machine).cpu@.pc) {
                Ok(op) => r == Ok::<u8, EmuError>(
                    crate::cpu::spec_step_cycles(old(machine).cpu@, op),
                ) && final(machine).cpu@ == crate::cpu::spec_exec(old(machine).cpu@, op),
                Err(e) => r == Err::<u8, EmuError>(e) && final(machine).cpu@ == old(
                    machine,
                ).cpu@,
            }),
    {
        machine.step()
    }
}

/// Adding a breakpoint makes it hit; removing it by its index makes it
/// miss again, when it was not already present before the addition.
pub proof fn lemma_breakpoint_add_remove(bps: Seq<u16>, x: u16)
    requires
        !bps.contains(x),
    ensures
        bps.push(x).contains(x),
        !bps.push(x).remove(bps.len() as int).contains(x),
{
    assert(bps.push(x)[bps.len() as int] == x);
    assert(bps.push(x).remove(bps.len() as int) =~= bps);
}

} // verus!
