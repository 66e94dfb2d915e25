//! The instruction decoder: one declarative table mapping an opcode byte to
//! an operation, plus the secondary table behind the 0xCB escape byte for
//! bit/rotate operations. Decoding is pure; both the execution engine and
//! the disassembler consume the same table, so the two read paths cannot
//! drift apart. Each operation also carries its byte length and its cycle
//! costs (taken and not taken, for conditional control flow).

use vstd::prelude::*;
use crate::error::EmuError;

verus! {

/// One decoded CPU operation. `CB` is the escape prefix that selects the
/// secondary table; `CB7C` and `CBRLC` are the operations reached through
/// it.
#[derive(Clone, Copy, Debug, PartialEq, Eq, Structural)]
pub enum Opcode {
    NoOp,
    IncB,
    DecB,
    IncBC,
    DecBC,
    DecC,
    DecE,
    LdB,
    IncC,
    IncDE,
    LdDE,
    RLA,
    LdADE,
    JRNZ,
    LdHL,
    LdSP,
    LdHLDECA,
    LdHLADDA,
    IncHL,
    LdA,
    LdAE,
    XORA,
    LdCA,
    PopBC,
    PushBC,
    CallNN,
    LdhA,
    LdC,
    LdCADDA,
    LdHLA,
    CB,
    CB7C,
    CBRLC,
    RET,
    CpD8,
    Lda16A,
    DecA,
    JRZ,
    LdHA,
    LdDA,
    LdE,
    LdHAA8,
    IncH,
    LdAH,
    SubB,
    DecD,
    LdD,
    Jr,
    CpHL,
    Jp,
    LdBA,
    LdAHLADD,
    LdDEA,
    IncE,
    IncD,
    LdAB,
    RetNZ,
    LdBCA,
    AdcA,
    LdHHL,
    CallZ,
}

/// The primary decode table: the operation selected by a one-byte opcode,
/// or `None` when the byte has no table entry.
pub open spec fn spec_decode(bits: u8) -> Option<Opcode> {
    match bits {
        0x00u8 => Some(Opcode::NoOp),
        0x02u8 => Some(Opcode::LdBCA),
        0x03u8 => Some(Opcode::IncBC),
        0x04u8 => Some(Opcode::IncB),
        0x05u8 => Some(Opcode::DecB),
        0x06u8 => Some(Opcode::LdB),
        0x0Bu8 => Some(Opcode::DecBC),
        0x0Cu8 => Some(Opcode::IncC),
        0x0Du8 => Some(Opcode::DecC),
        0x0Eu8 => Some(Opcode::LdC),
        0x11u8 => Some(Opcode::LdDE),
        0x12u8 => Some(Opcode::LdDEA),
        0x13u8 => Some(Opcode::IncDE),
        0x14u8 => Some(Opcode::IncD),
        0x15u8 => Some(Opcode::DecD),
        0x16u8 => Some(Opcode::LdD),
        0x17u8 => Some(Opcode::RLA),
        0x18u8 => Some(Opcode::Jr),
        0x1Au8 => Some(Opcode::LdADE),
        0x1Cu8 => Some(Opcode::IncE),
        0x1Du8 => Some(Opcode::DecE),
        0x1Eu8 => Some(Opcode::LdE),
        0x20u8 => Some(Opcode::JRNZ),
        0x21u8 => Some(Opcode::LdHL),
        0x22u8 => Some(Opcode::LdHLADDA),
        0x23u8 => Some(Opcode::IncHL),
        0x24u8 => Some(Opcode::IncH),
        0x28u8 => Some(Opcode::JRZ),
        0x2Au8 => Some(Opcode::LdAHLADD),
        0x31u8 => Some(Opcode::LdSP),
        0x32u8 => Some(Opcode::LdHLDECA),
        0x3Du8 => Some(Opcode::DecA),
        0x3Eu8 => Some(Opcode::LdA),
        0x47u8 => Some(Opcode::LdBA),
        0x4Fu8 => Some(Opcode::LdCA),
        0x57u8 => Some(Opcode::LdDA),
        0x66u8 => Some(Opcode::LdHHL),
        0x67u8 => Some(Opcode::LdHA),
        0x77u8 => Some(Opcode::LdHLA),
        0x78u8 => Some(Opcode::LdAB),
        0x7Bu8 => Some(Opcode::LdAE),
        0x7Cu8 => Some(Opcode::LdAH),
        0x90u8 => Some(Opcode::SubB),
        0xAFu8 => Some(Opcode::XORA),
        0xBEu8 => Some(Opcode::CpHL),
        0xC0u8 => Some(Opcode::RetNZ),
        0xC1u8 => Some(Opcode::PopBC),
        0xC3u8 => Some(Opcode::Jp),
        0xC5u8 => Some(Opcode::PushBC),
        0xC9u8 => Some(Opcode::RET),
        0xCBu8 => Some(Opcode::CB),
        0xCCu8 => Some(Opcode::CallZ),
        0xCDu8 => Some(Opcode::CallNN),
        0xCEu8 => Some(Opcode::AdcA),
        0xE0u8 => Some(Opcode::LdhA),
        0xE2u8 => Some(Opcode::LdCADDA),
        0xEAu8 => Some(Opcode::Lda16A),
        0xF0u8 => Some(Opcode::LdHAA8),
        0xFEu8 => Some(Opcode::CpD8),
        _ => None,
    }
}

/// The secondary (0xCB-prefixed) decode table.
pub open spec fn spec_redirect(bits: u8) -> Option<Opcode> {
    match bits {
        0x11u8 => Some(Opcode::CBRLC),
        0x7Cu8 => Some(Opcode::CB7C),
        _ => None,
    }
}

/// The number of bytes an operation occupies: opcode byte plus operands.
/// The prefixed operations count the escape byte, so they occupy two; the
/// bare `CB` prefix counts only itself.
pub open spec fn spec_size(op: Opcode) -> u16 {
    match op {
        Opcode::LdB | Opcode::LdC | Opcode::LdD | Opcode::LdE | Opcode::LdA => 2,
        Opcode::Jr | Opcode::JRNZ | Opcode::JRZ => 2,
        Opcode::AdcA | Opcode::CpD8 | Opcode::LdhA | Opcode::LdHAA8 => 2,
        Opcode::CB7C | Opcode::CBRLC => 2,
        Opcode::LdDE | Opcode::LdHL | Opcode::LdSP => 3,
        Opcode::Jp | Opcode::CallNN | Opcode::CallZ | Opcode::Lda16A => 3,
        _ => 1,
    }
}

/// Machine cycles consumed when the operation runs (for conditional
/// control flow: when the branch is taken).
pub open spec fn spec_cycles_taken(op: Opcode) -> u8 {
    match op {
        Opcode::LdB | Opcode::LdC | Opcode::LdD | Opcode::LdE | Opcode::LdA => 2,
        Opcode::LdDE | Opcode::LdHL | Opcode::LdSP => 3,
        Opcode::IncBC | Opcode::IncDE | Opcode::IncHL | Opcode::DecBC => 2,
        Opcode::LdADE | Opcode::LdAHLADD | Opcode::LdHHL => 2,
        Opcode::LdBCA | Opcode::LdDEA | Opcode::LdHLA | Opcode::LdHLADDA
            | Opcode::LdHLDECA => 2,
        Opcode::LdCADDA => 2,
        Opcode::LdhA | Opcode::LdHAA8 => 3,
        Opcode::Lda16A => 4,
        Opcode::AdcA | Opcode::CpD8 | Opcode::CpHL => 2,
        Opcode::Jr | Opcode::JRNZ | Opcode::JRZ => 3,
        Opcode::Jp => 4,
        Opcode::CallNN | Opcode::CallZ => 6,
        Opcode::RET => 4,
        Opcode::RetNZ => 5,
        Opcode::PopBC => 3,
        Opcode::PushBC => 4,
        Opcode::CB7C | Opcode::CBRLC => 2,
        _ => 1,
    }
}

/// Machine cycles consumed when a conditional branch is not taken; equal
/// to the taken cost for every unconditional operation.
pub open spec fn spec_cycles_not_taken(op: Opcode) -> u8 {
    match op {
        Opcode::JRNZ | Opcode::JRZ => 2,
        Opcode::CallZ => 3,
        Opcode::RetNZ => 2,
        _ => spec_cycles_taken(op),
    }
}

/// The operations that may redirect the program counter instead of
/// advancing it by their size; the `CB` prefix is listed because it is
/// completed by a second byte rather than executed alone.
pub open spec fn is_control_flow(op: Opcode) -> bool {
    match op {
        Opcode::Jr | Opcode::JRNZ | Opcode::JRZ | Opcode::Jp => true,
        Opcode::CallNN | Opcode::CallZ | Opcode::RET | Opcode::RetNZ => true,
        Opcode::CB => true,
        _ => false,
    }
}

/// The printable mnemonic of each operation, as a sequence of
/// characters.
pub open spec fn spec_mnemonic(op: Opcode) -> Seq<char> {
    match op {
        Opcode::NoOp => "NOOP"@,
        Opcode::IncB => "INC B"@,
        Opcode::DecB => "DEC B"@,
        Opcode::IncBC => "INC BC"@,
        Opcode::DecBC => "DEC BC"@,
        Opcode::DecC => "DEC C"@,
        Opcode::DecE => "DEC E"@,
        Opcode::LdB => "LD B, d8"@,
        Opcode::IncC => "INC C"@,
        Opcode::IncDE => "INC DE"@,
        Opcode::LdDE => "LD DE, d16"@,
        Opcode::RLA => "RLA"@,
        Opcode::LdADE => "LD A, (DE)"@,
        Opcode::JRNZ => "JR NZ"@,
        Opcode::LdHL => "LD HL, (d16)"@,
        Opcode::LdSP => "LD SP, d16"@,
        Opcode::LdHLDECA => "LD (HL-), A"@,
        Opcode::LdHLADDA => "LD (HL+), A"@,
        Opcode::IncHL => "INC HL"@,
        Opcode::LdA => "LD A, d8"@,
        Opcode::LdAE => "LD A, E"@,
        Opcode::XORA => "XOR A"@,
        Opcode::LdCA => "LD C, A"@,
        Opcode::PopBC => "POP BC"@,
        Opcode::PushBC => "PUSH BC"@,
        Opcode::CallNN => "CALL NN"@,
        Opcode::LdhA => "LDH ($FF00+n), A"@,
        Opcode::LdC => "LD C, d8"@,
        Opcode::LdCADDA => "LD ($FF00+C), A"@,
        Opcode::LdHLA => "LD (HL), A"@,
        Opcode::CB => ""@,
        Opcode::CB7C => "BIT 7, H"@,
        Opcode::CBRLC => "RL C"@,
        Opcode::RET => "RET"@,
        Opcode::CpD8 => "CP d8"@,
        Opcode::Lda16A => "LD (a16), A"@,
        Opcode::DecA => "DEC A"@,
        Opcode::JRZ => "JR Z, r8"@,
        Opcode::LdHA => "LD H, A"@,
        Opcode::LdDA => "LD D, A"@,
        Opcode::LdE => "LD E, d8"@,
        Opcode::LdHAA8 => "LDH A, ($FF00+a8)"@,
        Opcode::IncH => "INC H"@,
        Opcode::LdAH => "LD A, H"@,
        Opcode::SubB => "SUB B"@,
        Opcode::DecD => "DEC D"@,
        Opcode::LdD => "LD D, d8"@,
        Opcode::Jr => "JR d8"@,
        Opcode::CpHL => "CP (HL)"@,
        Opcode::Jp => "JP (a16)"@,
        Opcode::LdBA => "LD B, A"@,
        Opcode::LdAHLADD => "Ld A, (HL+)"@,
        Opcode::LdDEA => "Ld (DE), A"@,
        Opcode::IncE => "INC E"@,
        Opcode::IncD => "INC D"@,
        Opcode::LdAB => "LD A, B"@,
        Opcode::RetNZ => "RET NZ"@,
        Opcode::LdBCA => "LD (BC), A"@,
        Opcode::AdcA => "ADC A, d8"@,
        Opcode::LdHHL => "LD H, (HL)"@,
        Opcode::CallZ => "CALL Z, a16"@,
    }
}

impl Opcode {
    /// Decode the one-byte opcode fetched at `address`; fails with
    /// `UnimplementedOpcode` exactly when the byte has no table entry.
    /// Decoding never touches machine state.
    pub fn parse(address: u16, bits: u8) -> (r: Result<Opcode, EmuError>)
        ensures
            r == (match spec_decode(bits) {
                Some(op) => Ok::<Opcode, EmuError>(op),
                None => Err::<Opcode, EmuError>(
                    EmuError::UnimplementedOpcode { byte: bits, address },
                ),
            }),
    {
        match bits {
            0x00 => Ok(Opcode::NoOp),
            0x02 => Ok(Opcode::LdBCA),
            0x03 => Ok(Opcode::IncBC),
            0x04 => Ok(Opcode::IncB),
            0x05 => Ok(Opcode::DecB),
            0x06 => Ok(Opcode::LdB),
            0x0B => Ok(Opcode::DecBC),
            0x0C => Ok(Opcode::IncC),
            0x0D => Ok(Opcode::DecC),
            0x0E => Ok(Opcode::LdC),
            0x11 => Ok(Opcode::LdDE),
            0x12 => Ok(Opcode::LdDEA),
            0x13 => Ok(Opcode::IncDE),
            0x14 => Ok(Opcode::IncD),
            0x15 => Ok(Opcode::DecD),
            0x16 => Ok(Opcode::LdD),
            0x17 => Ok(Opcode::RLA),
            0x18 => Ok(Opcode::Jr),
            0x1A => Ok(Opcode::LdADE),
            0x1C => Ok(Opcode::IncE),
            0x1D => Ok(Opcode::DecE),
            0x1E => Ok(Opcode::LdE),
            0x20 => Ok(Opcode::JRNZ),
            0x21 => Ok(Opcode::LdHL),
            0x22 => Ok(Opcode::LdHLADDA),
            0x23 => Ok(Opcode::IncHL),
            0x24 => Ok(Opcode::IncH),
            0x28 => Ok(Opcode::JRZ),
            0x2A => Ok(Opcode::LdAHLADD),
            0x31 => Ok(Opcode::LdSP),
            0x32 => Ok(Opcode::LdHLDECA),
            0x3D => Ok(Opcode::DecA),
            0x3E => Ok(Opcode::LdA),
            0x47 => Ok(Opcode::LdBA),
            0x4F => Ok(Opcode::LdCA),
            0x57 => Ok(Opcode::LdDA),
            0x66 => Ok(Opcode::LdHHL),
            0x67 => Ok(Opcode::LdHA),
            0x77 => Ok(Opcode::LdHLA),
            0x78 => Ok(Opcode::LdAB),
            0x7B => Ok(Opcode::LdAE),
            0x7C => Ok(Opcode::LdAH),
            0x90 => Ok(Opcode::SubB),
            0xAF => Ok(Opcode::XORA),
            0xBE => Ok(Opcode::CpHL),
            0xC0 => Ok(Opcode::RetNZ),
            0xC1 => Ok(Opcode::PopBC),
            0xC3 => Ok(Opcode::Jp),
            0xC5 => Ok(Opcode::PushBC),
            0xC9 => Ok(Opcode::RET),
            0xCB => Ok(Opcode::CB),
            0xCC => Ok(Opcode::CallZ),
            0xCD => Ok(Opcode::CallNN),
            0xCE => Ok(Opcode::AdcA),
            0xE0 => Ok(Opcode::LdhA),
            0xE2 => Ok(Opcode::LdCADDA),
            0xEA => Ok(Opcode::Lda16A),
            0xF0 => Ok(Opcode::LdHAA8),
            0xFE => Ok(Opcode::CpD8),
            _ => Err(EmuError::UnimplementedOpcode { byte: bits, address }),
        }
    }

    /// Decode the second byte of a 0xCB-prefixed opcode fetched at
    /// `address`; fails with `UnimplementedOpcode` exactly when the byte
    /// has no entry in the secondary table.
    pub fn redirect(address: u16, bits: u8) -> (r: Result<Opcode, EmuError>)
        ensures
            r == (match spec_redirect(bits) {
                Some(op) => Ok::<Opcode, EmuError>(op),
                None => Err::<Opcode, EmuError>(
                    EmuError::UnimplementedOpcode { byte: bits, address },
                ),
            }),
    {
        match bits {
            0x11 => Ok(Opcode::CBRLC),
            0x7C => Ok(Opcode::CB7C),
            _ => Err(EmuError::UnimplementedOpcode { byte: bits, address }),
        }
    }

    /// The number of bytes this operation occupies.
    pub fn size(&self) -> (r: u16)
        ensures
            r == spec_size(*self),
    {
        match self {
            Opcode::LdB | Opcode::LdC | Opcode::LdD | Opcode::LdE | Opcode::LdA => 2,
            Opcode::Jr | Opcode::JRNZ | Opcode::JRZ => 2,
            Opcode::AdcA | Opcode::CpD8 | Opcode::LdhA | Opcode::LdHAA8 => 2,
            Opcode::CB7C | Opcode::CBRLC => 2,
            Opcode::LdDE | Opcode::LdHL | Opcode::LdSP => 3,
            Opcode::Jp | Opcode::CallNN | Opcode::CallZ | Opcode::Lda16A => 3,
            _ => 1,
        }
    }

    /// The cycle costs of this operation: taken and not taken. The two
    /// are equal for unconditional operations.
    pub fn cycles(&self) -> (r: (u8, u8))
        ensures
            r.0 == spec_cycles_taken(*self),
            r.1 == spec_cycles_not_taken(*self),
    {
        match self {
            Opcode::LdB | Opcode::LdC | Opcode::LdD | Opcode::LdE | Opcode::LdA => (2, 2),
            Opcode::LdDE | Opcode::LdHL | Opcode::LdSP => (3, 3),
            Opcode::IncBC | Opcode::IncDE | Opcode::IncHL | Opcode::DecBC => (2, 2),
            Opcode::LdADE | Opcode::LdAHLADD | Opcode::LdHHL => (2, 2),
            Opcode::LdBCA | Opcode::LdDEA | Opcode::LdHLA | Opcode::LdHLADDA
                | Opcode::LdHLDECA => (2, 2),
            Opcode::LdCADDA => (2, 2),
            Opcode::LdhA | Opcode::LdHAA8 => (3, 3),
            Opcode::Lda16A => (4, 4),
            Opcode::AdcA | Opcode::CpD8 | Opcode::CpHL => (2, 2),
            Opcode::Jr => (3, 3),
            Opcode::JRNZ | Opcode::JRZ => (3, 2),
            Opcode::Jp => (4, 4),
            Opcode::CallNN => (6, 6),
            Opcode::CallZ => (6, 3),
            Opcode::RET => (4, 4),
            Opcode::RetNZ => (5, 2),
            Opcode::PopBC => (3, 3),
            Opcode::PushBC => (4, 4),
            Opcode::CB7C | Opcode::CBRLC => (2, 2),
            _ => (1, 1),
        }
    }

    /// The printable mnemonic of this operation.
    pub fn mnemonic(&self) -> (r: &'static str)
        ensures
            r@ == spec_mnemonic(*self),
    {
        match self {
            Opcode::NoOp => "NOOP",
            Opcode::IncB => "INC B",
            Opcode::DecB => "DEC B",
            Opcode::IncBC => "INC BC",
            Opcode::DecBC => "DEC BC",
            Opcode::DecC => "DEC C",
            Opcode::DecE => "DEC E",
            Opcode::LdB => "LD B, d8",
            Opcode::IncC => "INC C",
            Opcode::IncDE => "INC DE",
            Opcode::LdDE => "LD DE, d16",
            Opcode::RLA => "RLA",
            Opcode::LdADE => "LD A, (DE)",
            Opcode::JRNZ => "JR NZ",
            Opcode::LdHL => "LD HL, (d16)",
            Opcode::LdSP => "LD SP, d16",
            Opcode::LdHLDECA => "LD (HL-), A",
            Opcode::LdHLADDA => "LD (HL+), A",
            Opcode::IncHL => "INC HL",
            Opcode::LdA => "LD A, d8",
            Opcode::LdAE => "LD A, E",
            Opcode::XORA => "XOR A",
            Opcode::LdCA => "LD C, A",
            Opcode::PopBC => "POP BC",
            Opcode::PushBC => "PUSH BC",
            Opcode::CallNN => "CALL NN",
            Opcode::LdhA => "LDH ($FF00+n), A",
            Opcode::LdC => "LD C, d8",
            Opcode::LdCADDA => "LD ($FF00+C), A",
            Opcode::LdHLA => "LD (HL), A",
            Opcode::CB => "",
            Opcode::CB7C => "BIT 7, H",
            Opcode::CBRLC => "RL C",
            Opcode::RET => "RET",
            Opcode::CpD8 => "CP d8",
            Opcode::Lda16A => "LD (a16), A",
            Opcode::DecA => "DEC A",
            Opcode::JRZ => "JR Z, r8",
            Opcode::LdHA => "LD H, A",
            Opcode::LdDA => "LD D, A",
            Opcode::LdE => "LD E, d8",
            Opcode::LdHAA8 => "LDH A, ($FF00+a8)",
            Opcode::IncH => "INC H",
            Opcode::LdAH => "LD A, H",
            Opcode::SubB => "SUB B",
            Opcode::DecD => "DEC D",
            Opcode::LdD => "LD D, d8",
            Opcode::Jr => "JR d8",
            Opcode::CpHL => "CP (HL)",
            Opcode::Jp => "JP (a16)",
            Opcode::LdBA => "LD B, A",
            Opcode::LdAHLADD => "Ld A, (HL+)",
            Opcode::LdDEA => "Ld (DE), A",
            Opcode::IncE => "INC E",
            Opcode::IncD => "INC D",
            Opcode::LdAB => "LD A, B",
            Opcode::RetNZ => "RET NZ",
            Opcode::LdBCA => "LD (BC), A",
            Opcode::AdcA => "ADC A, d8",
            Opcode::LdHHL => "LD H, (HL)",
            Opcode::CallZ => "CALL Z, a16",
        }
    }
}

} // verus!
