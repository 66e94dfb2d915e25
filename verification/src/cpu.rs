//! The CPU: register file, flags, stack pointer, program counter, cycle
//! clock, interrupt master-enable, and the execution engine. The
//! architectural state is modelled by the ghost `Machine` record, and one
//! spec-level interpreter (`spec_exec`) defines the exact effect of every
//! operation; the execution engine is verified to follow it instruction by
//! instruction.

use vstd::prelude::*;
use crate::bits::{
    half_carry_add, half_carry_sub, hi_byte, lo_byte, make_pair, pair, signed8, split_hi, split_lo,
    wadd16, wadd8, wrap16, wrap64, wrap8, wsub16, wsub8,
};
use crate::error::EmuError;
use crate::interconnect::Interconnect;
use crate::mem::{MEM_SIZE, MMU};
use crate::op::{
    spec_cycles_not_taken, spec_cycles_taken, spec_decode, spec_redirect, Opcode,
};

verus! {

/// The architectural state of the machine, as one mathematical record:
/// the eight 8-bit registers, the four flags, the 16-bit stack pointer
/// and program counter, the interrupt master-enable, the cycle clock,
/// and the contents of the address space.
#[verifier::ext_equal]
pub ghost struct Machine {
    pub a: u8,
    pub b: u8,
    pub c: u8,
    pub d: u8,
    pub e: u8,
    pub h: u8,
    pub l: u8,
    /// Zero flag: the last arithmetic/logical result was zero.
    pub zf: bool,
    /// Subtract flag: the last arithmetic operation was a subtraction.
    pub nf: bool,
    /// Half-carry flag: a carry/borrow crossed bit 3 / bit 4.
    pub hf: bool,
    /// Carry flag: the last result overflowed its operand width.
    pub cf: bool,
    pub sp: u16,
    pub pc: u16,
    /// Interrupt master-enable.
    pub ime: bool,
    /// Monotonic machine-cycle counter, reset only at power-on.
    pub clock: u64,
    pub mem: Seq<u8>,
}

/// The flags register: Zero, Subtract, Half-carry, Carry packed into the
/// high nibble of F, highest bit first.
pub open spec fn flags_byte(m: Machine) -> u8 {
    ((if m.zf {
        128int
    } else {
        0int
    }) + (if m.nf {
        64int
    } else {
        0int
    }) + (if m.hf {
        32int
    } else {
        0int
    }) + (if m.cf {
        16int
    } else {
        0int
    })) as u8
}

/// Selector for one 8-bit register.
#[derive(Clone, Copy, Debug, PartialEq, Eq, Structural)]
pub enum Reg {
    A,
    B,
    C,
    D,
    E,
    H,
    L,
}

/// Selector for one 16-bit register pair. A pair is a view over its two
/// 8-bit halves: reading composes the latest writes of both halves and
/// writing sets both halves from one 16-bit value.
#[derive(Clone, Copy, Debug, PartialEq, Eq, Structural)]
pub enum Pair {
    BC,
    DE,
    HL,
}

/// The value of an 8-bit register.
pub open spec fn get_reg(m: Machine, r: Reg) -> u8 {
    match r {
        Reg::A => m.a,
        Reg::B => m.b,
        Reg::C => m.c,
        Reg::D => m.d,
        Reg::E => m.e,
        Reg::H => m.h,
        Reg::L => m.l,
    }
}

/// The machine with one 8-bit register replaced.
pub open spec fn set_reg(m: Machine, r: Reg, v: u8) -> Machine {
    match r {
        Reg::A => Machine { a: v, ..m },
        Reg::B => Machine { b: v, ..m },
        Reg::C => Machine { c: v, ..m },
        Reg::D => Machine { d: v, ..m },
        Reg::E => Machine { e: v, ..m },
        Reg::H => Machine { h: v, ..m },
        Reg::L => Machine { l: v, ..m },
    }
}

/// The value of a 16-bit register pair.
pub open spec fn get_pair(m: Machine, p: Pair) -> u16 {
    match p {
        Pair::BC => pair(m.b, m.c),
        Pair::DE => pair(m.d, m.e),
        Pair::HL => pair(m.h, m.l),
    }
}

/// The machine with one register pair replaced, both halves at once.
pub open spec fn set_pair(m: Machine, p: Pair, v: u16) -> Machine {
    match p {
        Pair::BC => Machine { b: hi_byte(v), c: lo_byte(v), ..m },
        Pair::DE => Machine { d: hi_byte(v), e: lo_byte(v), ..m },
        Pair::HL => Machine { h: hi_byte(v), l: lo_byte(v), ..m },
    }
}

/// Writing a pair and reading it back returns the written value: the two
/// halves always recompose to the word that was stored.
pub proof fn lemma_pair_roundtrip(m: Machine, p: Pair, v: u16)
    ensures
        get_pair(set_pair(m, p, v), p) == v,
{
    crate::bits::lemma_pair_join(v);
}

/// Decode the instruction that starts at `pc`: the primary table entry of
/// the byte there, or, behind the 0xCB escape byte, the secondary table
/// entry of the byte after it. Fails exactly when the selecting byte has
/// no table entry, and identifies that byte and its address.
pub open spec fn spec_decode_at(mem: Seq<u8>, pc: u16) -> Result<Opcode, EmuError> {
    let b = mem[pc as int];
    match spec_decode(b) {
        Option::None => Err(EmuError::UnimplementedOpcode { byte: b, address: pc }),
        Option::Some(op) => if op == Opcode::CB {
            let sub = mem[wrap16(pc + 1) as int];
            match spec_redirect(sub) {
                Option::None => Err(
                    EmuError::UnimplementedOpcode { byte: sub, address: wrap16(pc + 1) },
                ),
                Option::Some(op2) => Ok(op2),
            }
        } else {
            Ok(op)
        },
    }
}

/// Whether a conditional operation's branch is taken in machine state
/// `m`; unconditional operations always take their branch.
pub open spec fn spec_branch_taken(m: Machine, op: Opcode) -> bool {
    match op {
        Opcode::JRNZ => !m.zf,
        Opcode::JRZ => m.zf,
        Opcode::CallZ => m.zf,
        Opcode::RetNZ => !m.zf,
        _ => true,
    }
}

/// The machine cycles one execution of `op` in state `m` consumes.
pub open spec fn spec_step_cycles(m: Machine, op: Opcode) -> u8 {
    if spec_branch_taken(m, op) {
        spec_cycles_taken(op)
    } else {
        spec_cycles_not_taken(op)
    }
}

pub open spec fn spec_nop(m: Machine) -> Machine {
    Machine { pc: wrap16(m.pc + 1), clock: wrap64(m.clock + 1), ..m }
}

/// Increment one 8-bit register: wraps; Zero iff the result is zero,
/// Subtract cleared, Half-carry iff a carry leaves the low nibble; the
/// Carry flag is unaffected.
pub open spec fn spec_inc_reg(m: Machine, r: Reg) -> Machine {
    let v = get_reg(m, r);
    let nv = wrap8(v + 1);
    Machine {
        zf: nv == 0,
        nf: false,
        hf: v % 16 + 1 >= 16,
        pc: wrap16(m.pc + 1),
        clock: wrap64(m.clock + 1),
        ..set_reg(m, r, nv)
    }
}

/// Decrement one 8-bit register: wraps; Zero iff the result is zero,
/// Subtract set, Half-carry iff the low nibble borrows; the Carry flag
/// is unaffected.
pub open spec fn spec_dec_reg(m: Machine, r: Reg) -> Machine {
    let v = get_reg(m, r);
    let nv = wrap8(v - 1);
    Machine {
        zf: nv == 0,
        nf: true,
        hf: v % 16 < 1,
        pc: wrap16(m.pc + 1),
        clock: wrap64(m.clock + 1),
        ..set_reg(m, r, nv)
    }
}

/// Load an immediate byte into a register; flags unaffected.
pub open spec fn spec_ld_r_imm(m: Machine, r: Reg) -> Machine {
    let v = m.mem[wrap16(m.pc + 1) as int];
    Machine { pc: wrap16(m.pc + 2), clock: wrap64(m.clock + 2), ..set_reg(m, r, v) }
}

/// Copy one register into another; flags unaffected.
pub open spec fn spec_ld_r_r(m: Machine, dst: Reg, src: Reg) -> Machine {
    Machine { pc: wrap16(m.pc + 1), clock: wrap64(m.clock + 1), ..set_reg(m, dst, get_reg(m, src)) }
}

/// Increment a register pair modulo 2^16; never affects flags.
pub open spec fn spec_inc_reg16(m: Machine, p: Pair) -> Machine {
    Machine {
        pc: wrap16(m.pc + 1),
        clock: wrap64(m.clock + 2),
        ..set_pair(m, p, wrap16(get_pair(m, p) + 1))
    }
}

/// Decrement a register pair modulo 2^16; never affects flags.
pub open spec fn spec_dec_reg16(m: Machine, p: Pair) -> Machine {
    Machine {
        pc: wrap16(m.pc + 1),
        clock: wrap64(m.clock + 2),
        ..set_pair(m, p, wrap16(get_pair(m, p) - 1))
    }
}

/// Load an immediate word into a register pair, high byte from the later
/// operand byte (little endian).
pub open spec fn spec_ld_pair_imm(m: Machine, p: Pair) -> Machine {
    let v = pair(m.mem[wrap16(m.pc + 2) as int], m.mem[wrap16(m.pc + 1) as int]);
    Machine { pc: wrap16(m.pc + 3), clock: wrap64(m.clock + 3), ..set_pair(m, p, v) }
}

/// Load an immediate word into the stack pointer.
pub open spec fn spec_ld_sp_imm(m: Machine) -> Machine {
    let v = pair(m.mem[wrap16(m.pc + 2) as int], m.mem[wrap16(m.pc + 1) as int]);
    Machine { sp: v, pc: wrap16(m.pc + 3), clock: wrap64(m.clock + 3), ..m }
}

/// Store A at the address held in a register pair, both halves of the
/// pair read atomically before the access.
pub open spec fn spec_ld_ind_a(m: Machine, p: Pair) -> Machine {
    Machine {
        mem: m.mem.update(get_pair(m, p) as int, m.a),
        pc: wrap16(m.pc + 1),
        clock: wrap64(m.clock + 2),
        ..m
    }
}

/// Store A at (HL), then step HL up (`inc` true) or down (`inc` false).
pub open spec fn spec_ld_hl_step_a(m: Machine, inc: bool) -> Machine {
    let addr = pair(m.h, m.l);
    let nhl = if inc {
        wrap16(addr + 1)
    } else {
        wrap16(addr - 1)
    };
    Machine {
        h: hi_byte(nhl),
        l: lo_byte(nhl),
        mem: m.mem.update(addr as int, m.a),
        pc: wrap16(m.pc + 1),
        clock: wrap64(m.clock + 2),
        ..m
    }
}

/// Load A from the address held in a register pair.
pub open spec fn spec_ld_a_ind(m: Machine, p: Pair) -> Machine {
    Machine {
        a: m.mem[get_pair(m, p) as int],
        pc: wrap16(m.pc + 1),
        clock: wrap64(m.clock + 2),
        ..m
    }
}

/// Load A from (HL), then increment HL.
pub open spec fn spec_ld_a_hl_inc(m: Machine) -> Machine {
    let addr = pair(m.h, m.l);
    let nhl = wrap16(addr + 1);
    Machine {
        a: m.mem[addr as int],
        h: hi_byte(nhl),
        l: lo_byte(nhl),
        pc: wrap16(m.pc + 1),
        clock: wrap64(m.clock + 2),
        ..m
    }
}

/// Load H from (HL).
pub open spec fn spec_ld_h_hl(m: Machine) -> Machine {
    Machine {
        h: m.mem[pair(m.h, m.l) as int],
        pc: wrap16(m.pc + 1),
        clock: wrap64(m.clock + 2),
        ..m
    }
}

/// Store A in the zero-page I/O window at 0xFF00 plus an immediate byte.
pub open spec fn spec_ldh_n_a(m: Machine) -> Machine {
    let n = m.mem[wrap16(m.pc + 1) as int];
    Machine {
        mem: m.mem.update(0xFF00 + n, m.a),
        pc: wrap16(m.pc + 2),
        clock: wrap64(m.clock + 3),
        ..m
    }
}

/// Load A from the zero-page I/O window at 0xFF00 plus an immediate byte.
pub open spec fn spec_ldh_a_n(m: Machine) -> Machine {
    let n = m.mem[wrap16(m.pc + 1) as int];
    Machine {
        a: m.mem[0xFF00 + n],
        pc: wrap16(m.pc + 2),
        clock: wrap64(m.clock + 3),
        ..m
    }
}

/// Store A in the zero-page I/O window at 0xFF00 plus register C.
pub open spec fn spec_ld_c_ind_a(m: Machine) -> Machine {
    Machine {
        mem: m.mem.update(0xFF00 + m.c, m.a),
        pc: wrap16(m.pc + 1),
        clock: wrap64(m.clock + 2),
        ..m
    }
}

/// Store A at an immediate 16-bit address.
pub open spec fn spec_ld_a16_a(m: Machine) -> Machine {
    let addr = pair(m.mem[wrap16(m.pc + 2) as int], m.mem[wrap16(m.pc + 1) as int]);
    Machine {
        mem: m.mem.update(addr as int, m.a),
        pc: wrap16(m.pc + 3),
        clock: wrap64(m.clock + 4),
        ..m
    }
}

/// A XOR A: clears A, sets Zero, clears the other flags.
pub open spec fn spec_xor_a(m: Machine) -> Machine {
    Machine {
        a: 0,
        zf: true,
        nf: false,
        hf: false,
        cf: false,
        pc: wrap16(m.pc + 1),
        clock: wrap64(m.clock + 1),
        ..m
    }
}

/// A = A - B with the full subtraction flag set: Zero iff the result is
/// zero, Subtract set, Half-carry iff the low nibble borrows, Carry iff
/// the whole byte borrows.
pub open spec fn spec_sub_b(m: Machine) -> Machine {
    let r = wrap8(m.a - m.b);
    Machine {
        a: r,
        zf: r == 0,
        nf: true,
        hf: m.a % 16 < m.b % 16,
        cf: m.a < m.b,
        pc: wrap16(m.pc + 1),
        clock: wrap64(m.clock + 1),
        ..m
    }
}

/// A = A + immediate + Carry, with addition flags computed from the raw
/// nibbles and the unwrapped sum.
pub open spec fn spec_adc_d8(m: Machine) -> Machine {
    let imm = m.mem[wrap16(m.pc + 1) as int];
    let cin: int = if m.cf {
        1
    } else {
        0
    };
    let r = wrap8(m.a + imm + cin);
    Machine {
        a: r,
        zf: r == 0,
        nf: false,
        hf: m.a % 16 + imm % 16 + cin >= 16,
        cf: m.a + imm + cin >= 256,
        pc: wrap16(m.pc + 2),
        clock: wrap64(m.clock + 2),
        ..m
    }
}

/// Compare A with `v`: subtraction flags, A unchanged.
pub open spec fn spec_cp_flags(m: Machine, v: u8) -> Machine {
    Machine { zf: m.a == v, nf: true, hf: m.a % 16 < v % 16, cf: m.a < v, ..m }
}

/// Compare A with an immediate byte.
pub open spec fn spec_cp_d8(m: Machine) -> Machine {
    Machine {
        pc: wrap16(m.pc + 2),
        clock: wrap64(m.clock + 2),
        ..spec_cp_flags(m, m.mem[wrap16(m.pc + 1) as int])
    }
}

/// Compare A with the byte at (HL).
pub open spec fn spec_cp_hl(m: Machine) -> Machine {
    Machine {
        pc: wrap16(m.pc + 1),
        clock: wrap64(m.clock + 2),
        ..spec_cp_flags(m, m.mem[pair(m.h, m.l) as int])
    }
}

/// Rotate A left through the Carry flag: the old Carry enters bit 0, the
/// old bit 7 becomes the Carry; Zero, Subtract and Half-carry cleared.
pub open spec fn spec_rla(m: Machine) -> Machine {
    let cin: int = if m.cf {
        1
    } else {
        0
    };
    Machine {
        a: wrap8(m.a * 2 + cin),
        zf: false,
        nf: false,
        hf: false,
        cf: m.a >= 128,
        pc: wrap16(m.pc + 1),
        clock: wrap64(m.clock + 1),
        ..m
    }
}

/// Rotate C left through the Carry flag (prefixed operation): Zero iff
/// the result is zero, Subtract and Half-carry cleared.
pub open spec fn spec_cb_rl_c(m: Machine) -> Machine {
    let cin: int = if m.cf {
        1
    } else {
        0
    };
    let r = wrap8(m.c * 2 + cin);
    Machine {
        c: r,
        zf: r == 0,
        nf: false,
        hf: false,
        cf: m.c >= 128,
        pc: wrap16(m.pc + 2),
        clock: wrap64(m.clock + 2),
        ..m
    }
}

/// Test bit 7 of H (prefixed operation): Zero iff the bit is clear,
/// Subtract cleared, Half-carry set, Carry unaffected.
pub open spec fn spec_cb_bit7h(m: Machine) -> Machine {
    Machine {
        zf: m.h < 128,
        nf: false,
        hf: true,
        pc: wrap16(m.pc + 2),
        clock: wrap64(m.clock + 2),
        ..m
    }
}

/// Relative jump: when taken, the target is the address after the
/// displacement byte plus the sign-extended displacement.
pub open spec fn spec_jr(m: Machine, taken: bool) -> Machine {
    let d = m.mem[wrap16(m.pc + 1) as int];
    if taken {
        Machine { pc: wrap16(m.pc + 2 + signed8(d)), clock: wrap64(m.clock + 3), ..m }
    } else {
        Machine { pc: wrap16(m.pc + 2), clock: wrap64(m.clock + 2), ..m }
    }
}

/// Absolute jump to an immediate 16-bit address.
pub open spec fn spec_jp(m: Machine) -> Machine {
    Machine {
        pc: pair(m.mem[wrap16(m.pc + 2) as int], m.mem[wrap16(m.pc + 1) as int]),
        clock: wrap64(m.clock + 4),
        ..m
    }
}

/// Call: when taken, push the address of the following instruction (high
/// byte at the higher address), then jump to the immediate target.
pub open spec fn spec_call(m: Machine, taken: bool) -> Machine {
    if taken {
        let target = pair(m.mem[wrap16(m.pc + 2) as int], m.mem[wrap16(m.pc + 1) as int]);
        let ret = wrap16(m.pc + 3);
        let nsp = wrap16(m.sp - 2);
        Machine {
            pc: target,
            sp: nsp,
            mem: m.mem.update(wrap16(nsp + 1) as int, hi_byte(ret)).update(
                nsp as int,
                lo_byte(ret),
            ),
            clock: wrap64(m.clock + 6),
            ..m
        }
    } else {
        Machine { pc: wrap16(m.pc + 3), clock: wrap64(m.clock + 3), ..m }
    }
}

/// Return: pop the low byte at SP and the high byte at SP+1, jump to the
/// popped address, and release the two stack bytes.
pub open spec fn spec_ret(m: Machine) -> Machine {
    Machine {
        pc: pair(m.mem[wrap16(m.sp + 1) as int], m.mem[m.sp as int]),
        sp: wrap16(m.sp + 2),
        clock: wrap64(m.clock + 4),
        ..m
    }
}

/// Conditional return; falls through to the next instruction when the
/// condition does not hold.
pub open spec fn spec_ret_cond(m: Machine, taken: bool) -> Machine {
    if taken {
        Machine {
            pc: pair(m.mem[wrap16(m.sp + 1) as int], m.mem[m.sp as int]),
            sp: wrap16(m.sp + 2),
            clock: wrap64(m.clock + 5),
            ..m
        }
    } else {
        Machine { pc: wrap16(m.pc + 1), clock: wrap64(m.clock + 2), ..m }
    }
}

/// Push BC: SP drops by two, B goes to the higher of the two freed
/// addresses and C to the lower.
pub open spec fn spec_push_bc(m: Machine) -> Machine {
    let nsp = wrap16(m.sp - 2);
    Machine {
        sp: nsp,
        mem: m.mem.update(wrap16(nsp + 1) as int, m.b).update(nsp as int, m.c),
        pc: wrap16(m.pc + 1),
        clock: wrap64(m.clock + 4),
        ..m
    }
}

/// Pop BC: C from SP, B from SP+1, SP rises by two. The exact inverse of
/// a preceding push of BC.
pub open spec fn spec_pop_bc(m: Machine) -> Machine {
    Machine {
        c: m.mem[m.sp as int],
        b: m.mem[wrap16(m.sp + 1) as int],
        sp: wrap16(m.sp + 2),
        pc: wrap16(m.pc + 1),
        clock: wrap64(m.clock + 3),
        ..m
    }
}

/// The effect of one decoded operation on the machine state. The bare
/// `CB` prefix never executes alone (decoding resolves it through the
/// secondary table), so it is mapped to the identity.
pub open spec fn spec_exec(m: Machine, op: Opcode) -> Machine {
    match op {
        Opcode::NoOp => spec_nop(m),
        Opcode::IncB => spec_inc_reg(m, Reg::B),
        Opcode::IncC => spec_inc_reg(m, Reg::C),
        Opcode::IncD => spec_inc_reg(m, Reg::D),
        Opcode::IncE => spec_inc_reg(m, Reg::E),
        Opcode::IncH => spec_inc_reg(m, Reg::H),
        Opcode::DecA => spec_dec_reg(m, Reg::A),
        Opcode::DecB => spec_dec_reg(m, Reg::B),
        Opcode::DecC => spec_dec_reg(m, Reg::C),
        Opcode::DecD => spec_dec_reg(m, Reg::D),
        Opcode::DecE => spec_dec_reg(m, Reg::E),
        Opcode::LdA => spec_ld_r_imm(m, Reg::A),
        Opcode::LdB => spec_ld_r_imm(m, Reg::B),
        Opcode::LdC => spec_ld_r_imm(m, Reg::C),
        Opcode::LdD => spec_ld_r_imm(m, Reg::D),
        Opcode::LdE => spec_ld_r_imm(m, Reg::E),
        Opcode::LdAB => spec_ld_r_r(m, Reg::A, Reg::B),
        Opcode::LdAE => spec_ld_r_r(m, Reg::A, Reg::E),
        Opcode::LdAH => spec_ld_r_r(m, Reg::A, Reg::H),
        Opcode::LdBA => spec_ld_r_r(m, Reg::B, Reg::A),
        Opcode::LdCA => spec_ld_r_r(m, Reg::C, Reg::A),
        Opcode::LdDA => spec_ld_r_r(m, Reg::D, Reg::A),
        Opcode::LdHA => spec_ld_r_r(m, Reg::H, Reg::A),
        Opcode::IncBC => spec_inc_reg16(m, Pair::BC),
        Opcode::IncDE => spec_inc_reg16(m, Pair::DE),
        Opcode::IncHL => spec_inc_reg16(m, Pair::HL),
        Opcode::DecBC => spec_dec_reg16(m, Pair::BC),
        Opcode::LdDE => spec_ld_pair_imm(m, Pair::DE),
        Opcode::LdHL => spec_ld_pair_imm(m, Pair::HL),
        Opcode::LdSP => spec_ld_sp_imm(m),
        Opcode::LdBCA => spec_ld_ind_a(m, Pair::BC),
        Opcode::LdDEA => spec_ld_ind_a(m, Pair::DE),
        Opcode::LdHLA => spec_ld_ind_a(m, Pair::HL),
        Opcode::LdHLADDA => spec_ld_hl_step_a(m, true),
        Opcode::LdHLDECA => spec_ld_hl_step_a(m, false),
        Opcode::LdADE => spec_ld_a_ind(m, Pair::DE),
        Opcode::LdAHLADD => spec_ld_a_hl_inc(m),
        Opcode::LdHHL => spec_ld_h_hl(m),
        Opcode::LdhA => spec_ldh_n_a(m),
        Opcode::LdHAA8 => spec_ldh_a_n(m),
        Opcode::LdCADDA => spec_ld_c_ind_a(m),
        Opcode::Lda16A => spec_ld_a16_a(m),
        Opcode::XORA => spec_xor_a(m),
        Opcode::SubB => spec_sub_b(m),
        Opcode::AdcA => spec_adc_d8(m),
        Opcode::CpD8 => spec_cp_d8(m),
        Opcode::CpHL => spec_cp_hl(m),
        Opcode::RLA => spec_rla(m),
        Opcode::CBRLC => spec_cb_rl_c(m),
        Opcode::CB7C => spec_cb_bit7h(m),
        Opcode::Jr => spec_jr(m, true),
        Opcode::JRNZ => spec_jr(m, !m.zf),
        Opcode::JRZ => spec_jr(m, m.zf),
        Opcode::Jp => spec_jp(m),
        Opcode::CallNN => spec_call(m, true),
        Opcode::CallZ => spec_call(m, m.zf),
        Opcode::RET => spec_ret(m),
        Opcode::RetNZ => spec_ret_cond(m, !m.zf),
        Opcode::PushBC => spec_push_bc(m),
        Opcode::PopBC => spec_pop_bc(m),
        Opcode::CB => m,
    }
}

/// A call followed by a return restores the program counter to the
/// instruction after the call and the stack pointer to its pre-call
/// value, for any starting stack pointer of at least 2: the call pushes
/// the return address and the return pops exactly those two bytes.
pub proof fn lemma_call_ret_roundtrip(m: Machine)
    requires
        m.mem.len() == MEM_SIZE,
        m.sp >= 2,
    ensures
        spec_exec(spec_exec(m, Opcode::CallNN), Opcode::RET).pc == wrap16(m.pc + 3),
        spec_exec(spec_exec(m, Opcode::CallNN), Opcode::RET).sp == m.sp,
{
    let ret = wrap16(m.pc + 3);
    vstd::arithmetic::div_mod::lemma_small_mod((m.sp - 2) as nat, 65536);
    let nsp = wrap16(m.sp - 2);
    vstd::arithmetic::div_mod::lemma_small_mod((nsp + 1) as nat, 65536);
    vstd::arithmetic::div_mod::lemma_small_mod((nsp + 2) as nat, 65536);
    crate::bits::lemma_pair_join(ret);
}

/// Pushing BC and popping it back restores B, C and the stack pointer:
/// the push stores the two bytes exactly where the pop reads them.
pub proof fn lemma_push_pop_roundtrip(m: Machine)
    requires
        m.mem.len() == MEM_SIZE,
    ensures
        spec_exec(spec_exec(m, Opcode::PushBC), Opcode::PopBC).b == m.b,
        spec_exec(spec_exec(m, Opcode::PushBC), Opcode::PopBC).c == m.c,
        spec_exec(spec_exec(m, Opcode::PushBC), Opcode::PopBC).sp == m.sp,
{
    if m.sp >= 2 {
        vstd::arithmetic::div_mod::lemma_small_mod((m.sp - 2) as nat, 65536);
    } else {
        vstd::arithmetic::div_mod::lemma_fundamental_div_mod_converse(
            m.sp - 2,
            65536,
            -1,
            m.sp - 2 + 65536,
        );
    }
    let nsp = wrap16(m.sp - 2);
    if nsp < 65535 {
        vstd::arithmetic::div_mod::lemma_small_mod((nsp + 1) as nat, 65536);
    } else {
        vstd::arithmetic::div_mod::lemma_fundamental_div_mod_converse(
            nsp + 1,
            65536,
            1,
            nsp + 1 - 65536,
        );
    }
    if nsp < 65534 {
        vstd::arithmetic::div_mod::lemma_small_mod((nsp + 2) as nat, 65536);
    } else {
        vstd::arithmetic::div_mod::lemma_fundamental_div_mod_converse(
            nsp + 2,
            65536,
            1,
            nsp + 2 - 65536,
        );
    }
}

/// Every operation that is not control flow advances the program counter
/// by exactly its byte size, so execution consumes the same bytes that
/// the disassembler attributes to the instruction.
pub proof fn lemma_exec_advances_size(m: Machine, op: Opcode)
    requires
        !crate::op::is_control_flow(op),
    ensures
        spec_exec(m, op).pc == wrap16(m.pc + crate::op::spec_size(op)),
{
}

/// Servicing an interrupt: the current program counter is pushed (high
/// byte at the higher address), the master-enable flag is cleared, and
/// control jumps to the fixed vector.
pub open spec fn spec_service_interrupt(m: Machine, vector: u16) -> Machine {
    let nsp = wrap16(m.sp - 2);
    Machine {
        pc: vector,
        sp: nsp,
        ime: false,
        mem: m.mem.update(wrap16(nsp + 1) as int, hi_byte(m.pc)).update(
            nsp as int,
            lo_byte(m.pc),
        ),
        clock: wrap64(m.clock + 5),
        ..m
    }
}

/// The CPU: the register file and flags, the owned memory unit, the
/// cycle clock, and the interrupt master-enable. `opcode` is the fetch
/// latch of the most recently fetched opcode byte; it is scratch state
/// of the fetch path, not part of the architectural `Machine` view.
pub struct CPU {
    pub a: u8,
    pub b: u8,
    pub c: u8,
    pub d: u8,
    pub e: u8,
    pub h: u8,
    pub l: u8,
    pub zf: bool,
    pub nf: bool,
    pub hf: bool,
    pub cf: bool,
    pub sp: u16,
    pub pc: u16,
    pub opcode: u8,
    pub memory: MMU,
    pub m_clock: u64,
    pub ime: bool,
}

impl View for CPU {
    type V = Machine;

    open spec fn view(&self) -> Machine {
        Machine {
            a: self.a,
            b: self.b,
            c: self.c,
            d: self.d,
            e: self.e,
            h: self.h,
            l: self.l,
            zf: self.zf,
            nf: self.nf,
            hf: self.hf,
            cf: self.cf,
            sp: self.sp,
            pc: self.pc,
            ime: self.ime,
            clock: self.m_clock,
            mem: self.memory@,
        }
    }
}

/// The power-on state with boot image `boot` loaded: every register,
/// flag and counter cleared, the boot bytes copied to the low addresses,
/// and the rest of the address space zeroed.
pub open spec fn is_power_on(m: Machine, boot: Seq<u8>) -> bool {
    &&& m.a == 0 && m.b == 0 && m.c == 0 && m.d == 0 && m.e == 0 && m.h == 0 && m.l == 0
    &&& !m.zf && !m.nf && !m.hf && !m.cf
    &&& m.sp == 0 && m.pc == 0 && m.clock == 0 && !m.ime
    &&& forall|i: int| 0 <= i < boot.len() ==> m.mem[i] == boot[i]
    &&& forall|i: int| boot.len() <= i < MEM_SIZE ==> m.mem[i] == 0u8
}

impl CPU {
    /// The memory unit spans the whole address range.
    pub open spec fn wf(&self) -> bool {
        self.memory.wf()
    }

    /// Power-on: all registers, flags and counters cleared, the boot
    /// image copied byte-for-byte to the low addresses, and the rest of
    /// the address space zeroed.
    pub fn new(boot_rom: Vec<u8>) -> (cpu: CPU)
        requires
            boot_rom@.len() <= MEM_SIZE,
        ensures
            cpu.wf(),
            is_power_on(cpu@, boot_rom@),
    {
        let mut cpu = CPU {
            a: 0,
            b: 0,
            c: 0,
            d: 0,
            e: 0,
            h: 0,
            l: 0,
            zf: false,
            nf: false,
            hf: false,
            cf: false,
            sp: 0,
            pc: 0,
            opcode: 0,
            memory: MMU::new(),
            m_clock: 0,
            ime: false,
        };
        let mut count: usize = 0;
        while count < boot_rom.len()
            invariant
                cpu.wf(),
                boot_rom@.len() <= MEM_SIZE,
                count <= boot_rom@.len(),
                cpu.a == 0 && cpu.b == 0 && cpu.c == 0 && cpu.d == 0 && cpu.e == 0 && cpu.h == 0
                    && cpu.l == 0,
                !cpu.zf && !cpu.nf && !cpu.hf && !cpu.cf,
                cpu.sp == 0 && cpu.pc == 0 && cpu.m_clock == 0 && !cpu.ime,
                forall|i: int| 0 <= i < count ==> cpu.memory@[i] == boot_rom@[i],
                forall|i: int| count <= i < MEM_SIZE ==> cpu.memory@[i] == 0u8,
            decreases boot_rom@.len() - count,
        {
            let _ = cpu.memory.load_value_u8(count, boot_rom[count]);
            count += 1;
        }
        cpu
    }

    /// Fetch the opcode byte at the program counter into the fetch
    /// latch; the architectural state is untouched.
    pub fn get_opcode(&mut self)
        requires
            old(self).wf(),
        ensures
            final(self).wf(),
            final(self)@ == old(self)@,
            final(self).opcode == old(self)@.mem[old(self)@.pc as int],
    {
        self.opcode = self.memory.read_value_u8(self.pc as usize);
    }

    /// Read the 16-bit little-endian word whose bytes follow the opcode
    /// at the program counter.
    pub fn read_word(&self) -> (r: u16)
        requires
            self.wf(),
        ensures
            r == pair(
                self@.mem[wrap16(self@.pc + 2) as int],
                self@.mem[wrap16(self@.pc + 1) as int],
            ),
    {
        let aa = self.memory.read_value_u8(wadd16(self.pc, 2) as usize);
        let bb = self.memory.read_value_u8(wadd16(self.pc, 1) as usize);
        make_pair(aa, bb)
    }

    /// Read the byte `count` places after the program counter.
    pub fn read_byte(&self, count: u16) -> (r: u8)
        requires
            self.wf(),
        ensures
            r == self@.mem[wrap16(self@.pc + count) as int],
    {
        self.memory.read_value_u8(wadd16(self.pc, count) as usize)
    }

    /// The packed flags register.
    pub fn f(&self) -> (r: u8)
        ensures
            r == flags_byte(self@),
    {
        let mut r: u8 = 0;
        if self.zf {
            r += 128;
        }
        if self.nf {
            r += 64;
        }
        if self.hf {
            r += 32;
        }
        if self.cf {
            r += 16;
        }
        r
    }

    /// Timer hardware is outside this core; the hook leaves the machine
    /// unchanged.
    pub fn update_timers(&mut self)
        ensures
            *final(self) == *old(self),
    {
    }

    /// The per-instruction interrupt check hook: reports whether the
    /// master-enable flag is set. Interrupt sources are external
    /// collaborators.
    pub fn interrupts(&self) -> (r: bool)
        ensures
            r == self@.ime,
    {
        self.ime
    }

    /// Service a pending interrupt: push the current program counter,
    /// clear the master-enable flag, and jump to the fixed `vector`.
    /// Pending-interrupt detection is an external collaborator; callers
    /// decide when to invoke this.
    pub fn service_interrupt(&mut self, vector: u16)
        requires
            old(self).wf(),
        ensures
            final(self).wf(),
            final(self)@ == spec_service_interrupt(old(self)@, vector),
    {
        let nsp = wsub16(self.sp, 2);
        self.sp = nsp;
        let high = split_hi(self.pc);
        let low = split_lo(self.pc);
        self.mem_write(wadd16(nsp, 1), high);
        self.mem_write(nsp, low);
        self.pc = vector;
        self.ime = false;
        self.tick(5);
    }

    /// Set or clear the interrupt master-enable flag.
    pub fn set_interrupt_enable(&mut self, enabled: bool)
        ensures
            final(self)@ == (Machine { ime: enabled, ..old(self)@ }),
            final(self).wf() == old(self).wf(),
    {
        self.ime = enabled;
    }

    /// Advance the cycle clock by `m_cycles` machine cycles.
    fn tick(&mut self, m_cycles: u8)
        ensures
            final(self)@ == (Machine { clock: wrap64(old(self)@.clock + m_cycles), ..old(self)@ }),
            final(self).wf() == old(self).wf(),
    {
        if self.m_clock <= u64::MAX - (m_cycles as u64) {
            proof {
                vstd::arithmetic::div_mod::lemma_small_mod(
                    (self.m_clock + m_cycles) as nat,
                    0x1_0000_0000_0000_0000nat,
                );
            }
            self.m_clock = self.m_clock + m_cycles as u64;
        } else {
            proof {
                vstd::arithmetic::div_mod::lemma_fundamental_div_mod_converse(
                    self.m_clock + m_cycles,
                    0x1_0000_0000_0000_0000,
                    1,
                    self.m_clock + m_cycles - 0x1_0000_0000_0000_0000,
                );
            }
            self.m_clock = m_cycles as u64 - 1 - (u64::MAX - self.m_clock);
        }
    }

    /// Read one 8-bit register through its selector.
    fn reg_get(&self, r: Reg) -> (v: u8)
        ensures
            v == get_reg(self@, r),
    {
        match r {
            Reg::A => self.a,
            Reg::B => self.b,
            Reg::C => self.c,
            Reg::D => self.d,
            Reg::E => self.e,
            Reg::H => self.h,
            Reg::L => self.l,
        }
    }

    /// Write one 8-bit register through its selector.
    fn reg_set(&mut self, r: Reg, v: u8)
        ensures
            final(self)@ == set_reg(old(self)@, r, v),
            final(self).wf() == old(self).wf(),
    {
        match r {
            Reg::A => self.a = v,
            Reg::B => self.b = v,
            Reg::C => self.c = v,
            Reg::D => self.d = v,
            Reg::E => self.e = v,
            Reg::H => self.h = v,
            Reg::L => self.l = v,
        }
    }

    /// Read a 16-bit register pair, both halves together.
    pub fn get_reg16(&self, p: Pair) -> (v: u16)
        ensures
            v == get_pair(self@, p),
    {
        match p {
            Pair::BC => make_pair(self.b, self.c),
            Pair::DE => make_pair(self.d, self.e),
            Pair::HL => make_pair(self.h, self.l),
        }
    }

    /// Write a 16-bit register pair, both halves atomically from one
    /// value, high byte first.
    pub fn store_reg16(&mut self, p: Pair, v: u16)
        ensures
            final(self)@ == set_pair(old(self)@, p, v),
            final(self).wf() == old(self).wf(),
    {
        let upper = split_hi(v);
        let lower = split_lo(v);
        match p {
            Pair::BC => {
                self.b = upper;
                self.c = lower;
            },
            Pair::DE => {
                self.d = upper;
                self.e = lower;
            },
            Pair::HL => {
                self.h = upper;
                self.l = lower;
            },
        }
    }

    /// Store `value` at `addr`; the address is a 16-bit value and is
    /// always in range.
    fn mem_write(&mut self, addr: u16, value: u8)
        requires
            old(self).wf(),
        ensures
            final(self).wf(),
            final(self)@ == (Machine {
                mem: old(self)@.mem.update(addr as int, value),
                ..old(self)@
            }),
    {
        let _ = self.memory.load_value_u8(addr as usize, value);
    }

    fn exec_nop(&mut self)
        requires
            old(self).wf(),
        ensures
            final(self).wf(),
            final(self)@ == spec_nop(old(self)@),
    {
        self.pc = wadd16(self.pc, 1);
        self.tick(1);
    }

    fn inc_reg(&mut self, r: Reg)
        requires
            old(self).wf(),
        ensures
            final(self).wf(),
            final(self)@ == spec_inc_reg(old(self)@, r),
    {
        let v = self.reg_get(r);
        let hc = half_carry_add(v, 1);
        self.reg_set(r, wadd8(v, 1));
        self.zf = self.reg_get(r) == 0;
        self.nf = false;
        self.hf = hc;
        self.pc = wadd16(self.pc, 1);
        self.tick(1);
    }

    fn dec_reg(&mut self, r: Reg)
        requires
            old(self).wf(),
        ensures
            final(self).wf(),
            final(self)@ == spec_dec_reg(old(self)@, r),
    {
        let v = self.reg_get(r);
        let hc = half_carry_sub(v, 1);
        self.reg_set(r, wsub8(v, 1));
        self.zf = self.reg_get(r) == 0;
        self.nf = true;
        self.hf = hc;
        self.pc = wadd16(self.pc, 1);
        self.tick(1);
    }

    fn ld_r_imm(&mut self, r: Reg)
        requires
            old(self).wf(),
        ensures
            final(self).wf(),
            final(self)@ == spec_ld_r_imm(old(self)@, r),
    {
        let v = self.read_byte(1);
        self.reg_set(r, v);
        self.pc = wadd16(self.pc, 2);
        self.tick(2);
    }

    fn ld_r_r(&mut self, dst: Reg, src: Reg)
        requires
            old(self).wf(),
        ensures
            final(self).wf(),
            final(self)@ == spec_ld_r_r(old(self)@, dst, src),
    {
        let v = self.reg_get(src);
        self.reg_set(dst, v);
        self.pc = wadd16(self.pc, 1);
        self.tick(1);
    }

    fn inc_reg16(&mut self, p: Pair)
        requires
            old(self).wf(),
        ensures
            final(self).wf(),
            final(self)@ == spec_inc_reg16(old(self)@, p),
    {
        let v = self.get_reg16(p);
        self.store_reg16(p, wadd16(v, 1));
        self.pc = wadd16(self.pc, 1);
        self.tick(2);
    }

    fn dec_reg16(&mut self, p: Pair)
        requires
            old(self).wf(),
        ensures
            final(self).wf(),
            final(self)@ == spec_dec_reg16(old(self)@, p),
    {
        let v = self.get_reg16(p);
        self.store_reg16(p, wsub16(v, 1));
        self.pc = wadd16(self.pc, 1);
        self.tick(2);
    }

    fn ld_pair_imm(&mut self, p: Pair)
        requires
            old(self).wf(),
        ensures
            final(self).wf(),
            final(self)@ == spec_ld_pair_imm(old(self)@, p),
    {
        let v = self.read_word();
        self.store_reg16(p, v);
        self.pc = wadd16(self.pc, 3);
        self.tick(3);
    }

    fn ld_sp_imm(&mut self)
        requires
            old(self).wf(),
        ensures
            final(self).wf(),
            final(self)@ == spec_ld_sp_imm(old(self)@),
    {
        let v = self.read_word();
        self.sp = v;
        self.pc = wadd16(self.pc, 3);
        self.tick(3);
    }

    fn ld_ind_a(&mut self, p: Pair)
        requires
            old(self).wf(),
        ensures
            final(self).wf(),
            final(self)@ == spec_ld_ind_a(old(self)@, p),
    {
        let location = self.get_reg16(p);
        let v = self.a;
        self.mem_write(location, v);
        self.pc = wadd16(self.pc, 1);
        self.tick(2);
    }

    fn ld_hl_step_a(&mut self, inc: bool)
        requires
            old(self).wf(),
        ensures
            final(self).wf(),
            final(self)@ == spec_ld_hl_step_a(old(self)@, inc),
    {
        let location = self.get_reg16(Pair::HL);
        let v = self.a;
        self.mem_write(location, v);
        let nhl = if inc {
            wadd16(location, 1)
        } else {
            wsub16(location, 1)
        };
        self.h = split_hi(nhl);
        self.l = split_lo(nhl);
        self.pc = wadd16(self.pc, 1);
        self.tick(2);
    }

    fn ld_a_ind(&mut self, p: Pair)
        requires
            old(self).wf(),
        ensures
            final(self).wf(),
            final(self)@ == spec_ld_a_ind(old(self)@, p),
    {
        let location = self.get_reg16(p);
        self.a = self.memory.read_value_u8(location as usize);
        self.pc = wadd16(self.pc, 1);
        self.tick(2);
    }

    fn ld_a_hl_inc(&mut self)
        requires
            old(self).wf(),
        ensures
            final(self).wf(),
            final(self)@ == spec_ld_a_hl_inc(old(self)@),
    {
        let location = self.get_reg16(Pair::HL);
        self.a = self.memory.read_value_u8(location as usize);
        let nhl = wadd16(location, 1);
        self.h = split_hi(nhl);
        self.l = split_lo(nhl);
        self.pc = wadd16(self.pc, 1);
        self.tick(2);
    }

    fn ld_h_hl(&mut self)
        requires
            old(self).wf(),
        ensures
            final(self).wf(),
            final(self)@ == spec_ld_h_hl(old(self)@),
    {
        let location = self.get_reg16(Pair::HL);
        self.h = self.memory.read_value_u8(location as usize);
        self.pc = wadd16(self.pc, 1);
        self.tick(2);
    }

    fn ldh_n_a(&mut self)
        requires
            old(self).wf(),
        ensures
            final(self).wf(),
            final(self)@ == spec_ldh_n_a(old(self)@),
    {
        let n = self.read_byte(1);
        let v = self.a;
        self.mem_write(0xFF00 + n as u16, v);
        self.pc = wadd16(self.pc, 2);
        self.tick(3);
    }

    fn ldh_a_n(&mut self)
        requires
            old(self).wf(),
        ensures
            final(self).wf(),
            final(self)@ == spec_ldh_a_n(old(self)@),
    {
        let n = self.read_byte(1);
        self.a = self.memory.read_value_u8(0xFF00 + n as usize);
        self.pc = wadd16(self.pc, 2);
        self.tick(3);
    }

    fn ld_c_ind_a(&mut self)
        requires
            old(self).wf(),
        ensures
            final(self).wf(),
            final(self)@ == spec_ld_c_ind_a(old(self)@),
    {
        let location = 0xFF00 + self.c as u16;
        let v = self.a;
        self.mem_write(location, v);
        self.pc = wadd16(self.pc, 1);
        self.tick(2);
    }

    fn ld_a16_a(&mut self)
        requires
            old(self).wf(),
        ensures
            final(self).wf(),
            final(self)@ == spec_ld_a16_a(old(self)@),
    {
        let location = self.read_word();
        let v = self.a;
        self.mem_write(location, v);
        self.pc = wadd16(self.pc, 3);
        self.tick(4);
    }

    fn exec_xor_a(&mut self)
        requires
            old(self).wf(),
        ensures
            final(self).wf(),
            final(self)@ == spec_xor_a(old(self)@),
    {
        self.a = 0;
        self.zf = true;
        self.nf = false;
        self.hf = false;
        self.cf = false;
        self.pc = wadd16(self.pc, 1);
        self.tick(1);
    }

    fn exec_sub_b(&mut self)
        requires
            old(self).wf(),
        ensures
            final(self).wf(),
            final(self)@ == spec_sub_b(old(self)@),
    {
        let a = self.a;
        let b = self.b;
        self.hf = half_carry_sub(a, b);
        self.cf = a < b;
        self.nf = true;
        self.a = wsub8(a, b);
        self.zf = self.a == 0;
        self.pc = wadd16(self.pc, 1);
        self.tick(1);
    }

    fn exec_adc_d8(&mut self)
        requires
            old(self).wf(),
        ensures
            final(self).wf(),
            final(self)@ == spec_adc_d8(old(self)@),
    {
        let imm = self.read_byte(1);
        let a = self.a;
        let cin: u8 = if self.cf {
            1
        } else {
            0
        };
        let sum: u16 = a as u16 + imm as u16 + cin as u16;
        proof {
            if sum < 256 {
                vstd::arithmetic::div_mod::lemma_small_mod(sum as nat, 256);
            } else {
                vstd::arithmetic::div_mod::lemma_fundamental_div_mod_converse(
                    sum as int,
                    256,
                    1,
                    sum - 256,
                );
            }
        }
        self.a = (sum % 256) as u8;
        self.zf = (sum % 256) == 0;
        self.nf = false;
        self.hf = a % 16 + imm % 16 + cin >= 16;
        self.cf = sum >= 256;
        self.pc = wadd16(self.pc, 2);
        self.tick(2);
    }

    fn cp_with(&mut self, v: u8)
        requires
            old(self).wf(),
        ensures
            final(self).wf(),
            final(self)@ == spec_cp_flags(old(self)@, v),
    {
        let a = self.a;
        self.zf = a == v;
        self.nf = true;
        self.hf = half_carry_sub(a, v);
        self.cf = a < v;
    }

    fn exec_cp_d8(&mut self)
        requires
            old(self).wf(),
        ensures
            final(self).wf(),
            final(self)@ == spec_cp_d8(old(self)@),
    {
        let imm = self.read_byte(1);
        self.cp_with(imm);
        self.pc = wadd16(self.pc, 2);
        self.tick(2);
    }

    fn exec_cp_hl(&mut self)
        requires
            old(self).wf(),
        ensures
            final(self).wf(),
            final(self)@ == spec_cp_hl(old(self)@),
    {
        let location = self.get_reg16(Pair::HL);
        let v = self.memory.read_value_u8(location as usize);
        self.cp_with(v);
        self.pc = wadd16(self.pc, 1);
        self.tick(2);
    }

    /// Rotate `value` left through the Carry flag: the returned byte has
    /// the old Carry in bit 0, and the Carry flag receives the old bit 7.
    /// Only the Carry flag changes here; callers set the other flags.
    fn rotate_left_carry(&mut self, value: u8) -> (r: u8)
        ensures
            r == wrap8(value * 2 + (if old(self)@.cf {
                1int
            } else {
                0int
            })),
            final(self)@ == (Machine { cf: value >= 128, ..old(self)@ }),
            final(self).wf() == old(self).wf(),
    {
        let cin: u8 = if self.cf {
            1
        } else {
            0
        };
        self.cf = value >= 128;
        if value >= 128 {
            proof {
                vstd::arithmetic::div_mod::lemma_fundamental_div_mod_converse(
                    value * 2 + cin,
                    256,
                    1,
                    value * 2 + cin - 256,
                );
            }
            (value - 128) * 2 + cin
        } else {
            proof {
                vstd::arithmetic::div_mod::lemma_small_mod((value * 2 + cin) as nat, 256);
            }
            value * 2 + cin
        }
    }

    fn exec_rla(&mut self)
        requires
            old(self).wf(),
        ensures
            final(self).wf(),
            final(self)@ == spec_rla(old(self)@),
    {
        let old_value = self.a;
        self.a = self.rotate_left_carry(old_value);
        self.zf = false;
        self.nf = false;
        self.hf = false;
        self.pc = wadd16(self.pc, 1);
        self.tick(1);
    }

    fn exec_cb_rl_c(&mut self)
        requires
            old(self).wf(),
        ensures
            final(self).wf(),
            final(self)@ == spec_cb_rl_c(old(self)@),
    {
        let old_value = self.c;
        self.c = self.rotate_left_carry(old_value);
        self.zf = self.c == 0;
        self.nf = false;
        self.hf = false;
        self.pc = wadd16(self.pc, 2);
        self.tick(2);
    }

    fn exec_cb_bit7h(&mut self)
        requires
            old(self).wf(),
        ensures
            final(self).wf(),
            final(self)@ == spec_cb_bit7h(old(self)@),
    {
        self.zf = self.h < 128;
        self.nf = false;
        self.hf = true;
        self.pc = wadd16(self.pc, 2);
        self.tick(2);
    }

    fn jump_rel(&mut self, taken: bool)
        requires
            old(self).wf(),
        ensures
            final(self).wf(),
            final(self)@ == spec_jr(old(self)@, taken),
    {
        let d = self.read_byte(1);
        if taken {
            let off = signed_displacement(d);
            let base = wadd16(self.pc, 2);
            let target = if off >= 0 {
                wadd16(base, off as u16)
            } else {
                wsub16(base, (-off) as u16)
            };
            proof {
                vstd::arithmetic::div_mod::lemma_add_mod_noop_right(
                    off as int,
                    old(self)@.pc + 2,
                    65536,
                );
            }
            self.pc = target;
            self.tick(3);
        } else {
            self.pc = wadd16(self.pc, 2);
            self.tick(2);
        }
    }

    fn exec_jp(&mut self)
        requires
            old(self).wf(),
        ensures
            final(self).wf(),
            final(self)@ == spec_jp(old(self)@),
    {
        let location = self.read_word();
        self.pc = location;
        self.tick(4);
    }

    fn call(&mut self, taken: bool)
        requires
            old(self).wf(),
        ensures
            final(self).wf(),
            final(self)@ == spec_call(old(self)@, taken),
    {
        if taken {
            let target = self.read_word();
            let ret = wadd16(self.pc, 3);
            let nsp = wsub16(self.sp, 2);
            self.sp = nsp;
            self.mem_write(wadd16(nsp, 1), split_hi(ret));
            self.mem_write(nsp, split_lo(ret));
            self.pc = target;
            self.tick(6);
        } else {
            self.pc = wadd16(self.pc, 3);
            self.tick(3);
        }
    }

    fn exec_ret(&mut self)
        requires
            old(self).wf(),
        ensures
            final(self).wf(),
            final(self)@ == spec_ret(old(self)@),
    {
        let first = self.memory.read_value_u8(self.sp as usize);
        let second = self.memory.read_value_u8(wadd16(self.sp, 1) as usize);
        self.pc = make_pair(second, first);
        self.sp = wadd16(self.sp, 2);
        self.tick(4);
    }

    fn exec_ret_cond(&mut self, taken: bool)
        requires
            old(self).wf(),
        ensures
            final(self).wf(),
            final(self)@ == spec_ret_cond(old(self)@, taken),
    {
        if taken {
            let first = self.memory.read_value_u8(self.sp as usize);
            let second = self.memory.read_value_u8(wadd16(self.sp, 1) as usize);
            self.pc = make_pair(second, first);
            self.sp = wadd16(self.sp, 2);
            self.tick(5);
        } else {
            self.pc = wadd16(self.pc, 1);
            self.tick(2);
        }
    }

    fn exec_push_bc(&mut self)
        requires
            old(self).wf(),
        ensures
            final(self).wf(),
            final(self)@ == spec_push_bc(old(self)@),
    {
        let nsp = wsub16(self.sp, 2);
        self.sp = nsp;
        let b = self.b;
        let c = self.c;
        self.mem_write(wadd16(nsp, 1), b);
        self.mem_write(nsp, c);
        self.pc = wadd16(self.pc, 1);
        self.tick(4);
    }

    fn exec_pop_bc(&mut self)
        requires
            old(self).wf(),
        ensures
            final(self).wf(),
            final(self)@ == spec_pop_bc(old(self)@),
    {
        let first = self.memory.read_value_u8(self.sp as usize);
        let second = self.memory.read_value_u8(wadd16(self.sp, 1) as usize);
        self.c = first;
        self.b = second;
        self.sp = wadd16(self.sp, 2);
        self.pc = wadd16(self.pc, 1);
        self.tick(3);
    }
}

/// Relies on byteorder's `LittleEndian::read_int`: reading a one-byte
/// little-endian signed integer returns that byte's two's-complement
/// value. It panics only for a byte count outside 1..=8 or a buffer
/// shorter than the count; here the count is 1 and the buffer holds one
/// byte.
#[verifier::external_body]
fn signed_displacement(b: u8) -> (r: i64)
    ensures
        r == signed8(b),
{
    <byteorder::LittleEndian as byteorder::ByteOrder>::read_int(&[b], 1)
}

impl CPU {
    /// Fetch, decode and execute the instruction at the program counter,
    /// reporting the machine cycles it consumed. When the selecting byte
    /// has no table entry the decode error is returned and the machine is
    /// left exactly as it was: no partial mutation precedes the failure.
    pub fn cycle(&mut self, interconnect: &mut Interconnect) -> (r: Result<u8, EmuError>)
        requires
            old(self).wf(),
        ensures
            final(self).wf(),
            *final(interconnect) == *old(interconnect),
            (match spec_decode_at(old(self)@.mem, old(self)@.pc) {
                Ok(op) => r == Ok::<u8, EmuError>(spec_step_cycles(old(self)@, op))
                    && final(self)@ == spec_exec(old(self)@, op),
                Err(e) => r == Err::<u8, EmuError>(e) && final(self)@ == old(self)@,
            }),
    {
        self.get_opcode();
        self.parse_opcode(interconnect)
    }

    /// Decode the latched opcode byte and apply the selected operation.
    fn parse_opcode(&mut self, interconnect: &mut Interconnect) -> (r: Result<u8, EmuError>)
        requires
            old(self).wf(),
            old(self).opcode == old(self)@.mem[old(self)@.pc as int],
        ensures
            final(self).wf(),
            *final(interconnect) == *old(interconnect),
            (match spec_decode_at(old(self)@.mem, old(self)@.pc) {
                Ok(op) => r == Ok::<u8, EmuError>(spec_step_cycles(old(self)@, op))
                    && final(self)@ == spec_exec(old(self)@, op),
                Err(e) => r == Err::<u8, EmuError>(e) && final(self)@ == old(self)@,
            }),
    {
        let op0 = match Opcode::parse(self.pc, self.opcode) {
            Ok(o) => o,
            Err(e) => {
                return Err(e);
            },
        };
        let op = match op0 {
            Opcode::CB => {
                let sub = self.read_byte(1);
                match Opcode::redirect(wadd16(self.pc, 1), sub) {
                    Ok(o) => o,
                    Err(e) => {
                        return Err(e);
                    },
                }
            },
            _ => op0,
        };
        let taken = match op {
            Opcode::JRNZ | Opcode::RetNZ => !self.zf,
            Opcode::JRZ | Opcode::CallZ => self.zf,
            _ => true,
        };
        let cyc = op.cycles();
        let cycles = if taken {
            cyc.0
        } else {
            cyc.1
        };
        match op {
            Opcode::NoOp => self.exec_nop(),
            Opcode::IncB => self.inc_reg(Reg::B),
            Opcode::IncC => self.inc_reg(Reg::C),
            Opcode::IncD => self.inc_reg(Reg::D),
            Opcode::IncE => self.inc_reg(Reg::E),
            Opcode::IncH => self.inc_reg(Reg::H),
            Opcode::DecA => self.dec_reg(Reg::A),
            Opcode::DecB => self.dec_reg(Reg::B),
            Opcode::DecC => self.dec_reg(Reg::C),
            Opcode::DecD => self.dec_reg(Reg::D),
            Opcode::DecE => self.dec_reg(Reg::E),
            Opcode::LdA => self.ld_r_imm(Reg::A),
            Opcode::LdB => self.ld_r_imm(Reg::B),
            Opcode::LdC => self.ld_r_imm(Reg::C),
            Opcode::LdD => self.ld_r_imm(Reg::D),
            Opcode::LdE => self.ld_r_imm(Reg::E),
            Opcode::LdAB => self.ld_r_r(Reg::A, Reg::B),
            Opcode::LdAE => self.ld_r_r(Reg::A, Reg::E),
            Opcode::LdAH => self.ld_r_r(Reg::A, Reg::H),
            Opcode::LdBA => self.ld_r_r(Reg::B, Reg::A),
            Opcode::LdCA => self.ld_r_r(Reg::C, Reg::A),
            Opcode::LdDA => self.ld_r_r(Reg::D, Reg::A),
            Opcode::LdHA => self.ld_r_r(Reg::H, Reg::A),
            Opcode::IncBC => self.inc_reg16(Pair::BC),
            Opcode::IncDE => self.inc_reg16(Pair::DE),
            Opcode::IncHL => self.inc_reg16(Pair::HL),
            Opcode::DecBC => self.dec_reg16(Pair::BC),
            Opcode::LdDE => self.ld_pair_imm(Pair::DE),
            Opcode::LdHL => self.ld_pair_imm(Pair::HL),
            Opcode::LdSP => self.ld_sp_imm(),
            Opcode::LdBCA => self.ld_ind_a(Pair::BC),
            Opcode::LdDEA => self.ld_ind_a(Pair::DE),
            Opcode::LdHLA => self.ld_ind_a(Pair::HL),
            Opcode::LdHLADDA => {
                let location = self.get_reg16(Pair::HL);
                let written = self.a;
                self.ld_hl_step_a(true);
                let _ = interconnect.write_word(written, location);
            },
            Opcode::LdHLDECA => {
                let location = self.get_reg16(Pair::HL);
                let written = self.a;
                self.ld_hl_step_a(false);
                let _ = interconnect.write_word(written, location);
            },
            Opcode::LdADE => self.ld_a_ind(Pair::DE),
            Opcode::LdAHLADD => self.ld_a_hl_inc(),
            Opcode::LdHHL => self.ld_h_hl(),
            Opcode::LdhA => self.ldh_n_a(),
            Opcode::LdHAA8 => self.ldh_a_n(),
            Opcode::LdCADDA => self.ld_c_ind_a(),
            Opcode::Lda16A => self.ld_a16_a(),
            Opcode::XORA => self.exec_xor_a(),
            Opcode::SubB => self.exec_sub_b(),
            Opcode::AdcA => self.exec_adc_d8(),
            Opcode::CpD8 => self.exec_cp_d8(),
            Opcode::CpHL => self.exec_cp_hl(),
            Opcode::RLA => self.exec_rla(),
            Opcode::CBRLC => self.exec_cb_rl_c(),
            Opcode::CB7C => self.exec_cb_bit7h(),
            Opcode::Jr => self.jump_rel(true),
            Opcode::JRNZ => self.jump_rel(taken),
            Opcode::JRZ => self.jump_rel(taken),
            Opcode::Jp => self.exec_jp(),
            Opcode::CallNN => self.call(true),
            Opcode::CallZ => self.call(taken),
            Opcode::RET => self.exec_ret(),
            Opcode::RetNZ => self.exec_ret_cond(taken),
            Opcode::PushBC => {
                let old_sp = self.sp;
                let high = self.b;
                let low = self.c;
                self.exec_push_bc();
                let _ = interconnect.write_word(high, wsub16(old_sp, 1));
                let _ = interconnect.write_word(low, wsub16(old_sp, 2));
            },
            Opcode::PopBC => self.exec_pop_bc(),
            // The secondary table never yields the bare prefix.
            Opcode::CB => {
                proof {
                    assert(false);
                }
            },
        }
        Ok(cycles)
    }
}

} // verus!
