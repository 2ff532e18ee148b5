//! Instruction decoding and execution.
//!
//! An opcode decodes into an [`Instr`], the operation it names with its
//! operands; [`run_spec`] gives the effect of each operation and its cost in
//! clock ticks (four per machine cycle). Opcodes `0xCB xx` decode the second
//! byte into a [`CbInstr`], a bit operation on a register or on `(HL)`.
use vstd::prelude::*;

use super::alu::{
    add_bytes_spec, daa_spec, dec_byte_spec, inc_byte_spec, logic_spec, rotate_spec,
    sub_bytes_spec, add_words_spec, RotOp,
};
use super::registers::{Flag, Register16b, Register8b, Registers};
use super::{
    fetch_byte_spec, fetch_word_spec, lift, mem_read, mem_write, mem_write_word, Cpu, CpuError,
    CpuState,
};
use crate::memory::bus_read_word;
use crate::memory::mbc::MemoryBankController;
use crate::utils::{low_byte, word_to_bytes};

verus! {

broadcast use {Registers::lemma_with_flags, Registers::lemma_with_flag, Registers::lemma_with_flag_wf};

/// An 8-bit operand: a register, or the byte at the address in `HL`.
#[derive(Debug, Clone, Copy, PartialEq, Eq, Structural)]
pub enum Operand8 {
    Reg(Register8b),
    IndirectHL,
}

/// How `LD (..), A` and `LD A, (..)` address memory.
#[derive(Debug, Clone, Copy, PartialEq, Eq, Structural)]
pub enum Indirect {
    /// the address in `BC`
    BC,
    /// the address in `DE`
    DE,
    /// the address in `HL`, then `HL` incremented
    HLInc,
    /// the address in `HL`, then `HL` decremented
    HLDec,
    /// an immediate 16-bit address
    Absolute,
    /// `0xFF00` plus an immediate byte
    HighImm,
    /// `0xFF00` plus `C`
    HighC,
}

/// An 8-bit arithmetic or logic operation on `A`.
#[derive(Debug, Clone, Copy, PartialEq, Eq, Structural)]
pub enum AluOp {
    Add,
    Adc,
    Sub,
    Sbc,
    And,
    Xor,
    Or,
    Cp,
}

/// An unprefixed instruction.
#[derive(Debug, Clone, Copy, PartialEq, Eq, Structural)]
pub enum Instr {
    Nop,
    /// stops the CPU, which then reads as halted, and skips the padding byte
    /// after the opcode
    Stop,
    /// halts the CPU until it is resumed
    Halt,
    /// disables interrupts
    Di,
    /// enables interrupts
    Ei,
    /// `LD dst, src`
    Ld(Operand8, Operand8),
    /// `LD dst, d8`
    LdImm8(Operand8),
    /// `LD rr, d16`
    LdImm16(Register16b),
    /// `LD (..), A`
    StoreA(Indirect),
    /// `LD A, (..)`
    LoadA(Indirect),
    /// `LD (a16), SP`
    StoreSp,
    Inc8(Operand8),
    Dec8(Operand8),
    Inc16(Register16b),
    Dec16(Register16b),
    /// `ADD HL, rr`
    AddHl(Register16b),
    /// `op A, src`
    Alu(AluOp, Operand8),
    /// `op A, d8`
    AluImm(AluOp),
    /// `RLCA`, `RRCA`, `RLA`, `RRA`
    RotA(RotOp),
    Daa,
    Cpl,
    Scf,
    Ccf,
    Push(Register16b),
    Pop(Register16b),
    /// `ADD SP, r8`
    AddSp,
    /// `LD HL, SP + r8`
    LdHlSp,
    /// `LD SP, HL`
    LdSpHl,
    /// the `0xCB` prefix
    Prefix,
    /// an opcode without handler
    Unimplemented(u8),
}

/// A `0xCB`-prefixed instruction.
#[derive(Debug, Clone, Copy, PartialEq, Eq, Structural)]
pub enum CbInstr {
    Rot(RotOp, Operand8),
    /// `BIT b, x`
    TestBit(u8, Operand8),
    /// `RES b, x`
    ResBit(u8, Operand8),
    /// `SET b, x`
    SetBit(u8, Operand8),
}

/// The operand coded by three bits: `B C D E H L (HL) A`.
pub open spec fn operand_spec(code: u8) -> Operand8 {
    match code {
        0 => Operand8::Reg(Register8b::B),
        1 => Operand8::Reg(Register8b::C),
        2 => Operand8::Reg(Register8b::D),
        3 => Operand8::Reg(Register8b::E),
        4 => Operand8::Reg(Register8b::H),
        5 => Operand8::Reg(Register8b::L),
        6 => Operand8::IndirectHL,
        _ => Operand8::Reg(Register8b::A),
    }
}

/// The register pair coded by two bits: `BC DE HL SP`.
pub open spec fn pair_spec(code: u8) -> Register16b {
    match code {
        0 => Register16b::BC,
        1 => Register16b::DE,
        2 => Register16b::HL,
        _ => Register16b::SP,
    }
}

/// The register pair of `PUSH` and `POP`: `BC DE HL AF`.
pub open spec fn stack_pair_spec(code: u8) -> Register16b {
    match code {
        0 => Register16b::BC,
        1 => Register16b::DE,
        2 => Register16b::HL,
        _ => Register16b::AF,
    }
}

/// The addressing of `LD (..), A` and `LD A, (..)` in the first block:
/// `(BC) (DE) (HL+) (HL-)`.
pub open spec fn indirect_spec(code: u8) -> Indirect {
    match code {
        0 => Indirect::BC,
        1 => Indirect::DE,
        2 => Indirect::HLInc,
        _ => Indirect::HLDec,
    }
}

/// The operation coded by three bits: `ADD ADC SUB SBC AND XOR OR CP`.
pub open spec fn alu_op_spec(code: u8) -> AluOp {
    match code {
        0 => AluOp::Add,
        1 => AluOp::Adc,
        2 => AluOp::Sub,
        3 => AluOp::Sbc,
        4 => AluOp::And,
        5 => AluOp::Xor,
        6 => AluOp::Or,
        _ => AluOp::Cp,
    }
}

/// The rotate or shift coded by three bits: `RLC RRC RL RR SLA SRA SWAP SRL`.
pub open spec fn rot_op_spec(code: u8) -> RotOp {
    match code {
        0 => RotOp::Rlc,
        1 => RotOp::Rrc,
        2 => RotOp::Rl,
        3 => RotOp::Rr,
        4 => RotOp::Sla,
        5 => RotOp::Sra,
        6 => RotOp::Swap,
        _ => RotOp::Srl,
    }
}

/// The opcode table. An opcode splits into fields `x` (bits 7-6), `y` (bits
/// 5-3) and `z` (bits 2-0), with `y` split again into `p` (bits 5-4) and `q`
/// (bit 3). Jumps, calls, returns, restarts and the invalid opcodes have no
/// handler.
pub open spec fn decode_spec(op: u8) -> Instr {
    let x = op / 64;
    let y = (op / 8) % 8;
    let z = op % 8;
    let p = y / 2;
    let q = y % 2;
    if x == 0 {
        if z == 0 {
            if y == 0 {
                Instr::Nop
            } else if y == 1 {
                Instr::StoreSp
            } else if y == 2 {
                Instr::Stop
            } else {
                Instr::Unimplemented(op)
            }
        } else if z == 1 {
            if q == 0 {
                Instr::LdImm16(pair_spec(p))
            } else {
                Instr::AddHl(pair_spec(p))
            }
        } else if z == 2 {
            if q == 0 {
                Instr::StoreA(indirect_spec(p))
            } else {
                Instr::LoadA(indirect_spec(p))
            }
        } else if z == 3 {
            if q == 0 {
                Instr::Inc16(pair_spec(p))
            } else {
                Instr::Dec16(pair_spec(p))
            }
        } else if z == 4 {
            Instr::Inc8(operand_spec(y))
        } else if z == 5 {
            Instr::Dec8(operand_spec(y))
        } else if z == 6 {
            Instr::LdImm8(operand_spec(y))
        } else if y < 4 {
            Instr::RotA(rot_op_spec(y))
        } else if y == 4 {
            Instr::Daa
        } else if y == 5 {
            Instr::Cpl
        } else if y == 6 {
            Instr::Scf
        } else {
            Instr::Ccf
        }
    } else if x == 1 {
        if y == 6 && z == 6 {
            Instr::Halt
        } else {
            Instr::Ld(operand_spec(y), operand_spec(z))
        }
    } else if x == 2 {
        Instr::Alu(alu_op_spec(y), operand_spec(z))
    } else if z == 0 {
        if y == 4 {
            Instr::StoreA(Indirect::HighImm)
        } else if y == 5 {
            Instr::AddSp
        } else if y == 6 {
            Instr::LoadA(Indirect::HighImm)
        } else if y == 7 {
            Instr::LdHlSp
        } else {
            Instr::Unimplemented(op)
        }
    } else if z == 1 {
        if q == 0 {
            Instr::Pop(stack_pair_spec(p))
        } else if p == 3 {
            Instr::LdSpHl
        } else {
            Instr::Unimplemented(op)
        }
    } else if z == 2 {
        if y == 4 {
            Instr::StoreA(Indirect::HighC)
        } else if y == 5 {
            Instr::StoreA(Indirect::Absolute)
        } else if y == 6 {
            Instr::LoadA(Indirect::HighC)
        } else if y == 7 {
            Instr::LoadA(Indirect::Absolute)
        } else {
            Instr::Unimplemented(op)
        }
    } else if z == 3 {
        if y == 1 {
            Instr::Prefix
        } else if y == 6 {
            Instr::Di
        } else if y == 7 {
            Instr::Ei
        } else {
            Instr::Unimplemented(op)
        }
    } else if z == 5 {
        if q == 0 {
            Instr::Push(stack_pair_spec(p))
        } else {
            Instr::Unimplemented(op)
        }
    } else if z == 6 {
        Instr::AluImm(alu_op_spec(y))
    } else {
        Instr::Unimplemented(op)
    }
}

/// The prefixed opcode table: `x` selects rotate/shift, `BIT`, `RES` or
/// `SET`, `y` the operation or the bit, `z` the operand.
pub open spec fn decode_cb_spec(op: u8) -> CbInstr {
    let x = op / 64;
    let y = (op / 8) % 8;
    let z = op % 8;
    if x == 0 {
        CbInstr::Rot(rot_op_spec(y), operand_spec(z))
    } else if x == 1 {
        CbInstr::TestBit(y, operand_spec(z))
    } else if x == 2 {
        CbInstr::ResBit(y, operand_spec(z))
    } else {
        CbInstr::SetBit(y, operand_spec(z))
    }
}

/// What an operand reads.
pub open spec fn read_operand_spec<M: MemoryBankController>(s: CpuState<M::V>, o: Operand8) -> Result<
    u8,
    CpuError,
> {
    match o {
        Operand8::Reg(r) => Ok(s.regs.r8(r)),
        Operand8::IndirectHL => mem_read::<M>(s, s.regs.r16(Register16b::HL)),
    }
}

/// The state after writing an operand, and the outcome.
pub open spec fn write_operand_spec<M: MemoryBankController>(
    s: CpuState<M::V>,
    o: Operand8,
    v: u8,
) -> (CpuState<M::V>, Result<(), CpuError>) {
    match o {
        Operand8::Reg(r) => (s.with_regs(s.regs.with_r8(r, v)), Ok(())),
        Operand8::IndirectHL => mem_write::<M>(s, s.regs.r16(Register16b::HL), v),
    }
}

/// The cost of an instruction with an 8-bit operand: `base` on a register,
/// `hl` on `(HL)`.
pub open spec fn operand_cost(o: Operand8, base: u8, hl: u8) -> u8 {
    match o {
        Operand8::Reg(_) => base,
        Operand8::IndirectHL => hl,
    }
}

/// A completed step costing `cycles`, or the error that stopped it.
pub open spec fn finish<C>(p: (CpuState<C>, Result<(), CpuError>), cycles: u8) -> (
    CpuState<C>,
    Result<u8, CpuError>,
) {
    match p.1 {
        Ok(_) => (p.0, Ok(cycles)),
        Err(e) => (p.0, Err(e)),
    }
}

/// The address an indirect load or store uses, and the state after computing
/// it (an immediate operand fetched, `HL` stepped).
pub open spec fn indirect_address_spec<M: MemoryBankController>(s: CpuState<M::V>, ind: Indirect) -> (
    CpuState<M::V>,
    Result<u16, CpuError>,
) {
    let hl = s.regs.r16(Register16b::HL);
    match ind {
        Indirect::BC => (s, Ok(s.regs.r16(Register16b::BC))),
        Indirect::DE => (s, Ok(s.regs.r16(Register16b::DE))),
        Indirect::HLInc => (s.with_regs(s.regs.with_r16(Register16b::HL, hl.wrapping_add(1))), Ok(hl)),
        Indirect::HLDec => (s.with_regs(s.regs.with_r16(Register16b::HL, hl.wrapping_sub(1))), Ok(hl)),
        Indirect::Absolute => fetch_word_spec::<M>(s),
        Indirect::HighImm => {
            let (s1, r) = fetch_byte_spec::<M>(s);
            match r {
                Ok(b) => (s1, Ok((0xFF00 + b) as u16)),
                Err(e) => (s1, Err(e)),
            }
        },
        Indirect::HighC => (s, Ok((0xFF00 + s.regs.r8(Register8b::C)) as u16)),
    }
}

/// The cost of an indirect load or store.
pub open spec fn indirect_cost(ind: Indirect) -> u8 {
    match ind {
        Indirect::Absolute => 16,
        Indirect::HighImm => 12,
        _ => 8,
    }
}

/// The register file after `op A, y`.
pub open spec fn alu_spec(regs: Registers, op: AluOp, y: u8) -> Registers {
    let a = regs.r8(Register8b::A);
    match op {
        AluOp::Add => {
            let (r, v) = add_bytes_spec(regs, a, y, false);
            r.with_r8(Register8b::A, v)
        },
        AluOp::Adc => {
            let (r, v) = add_bytes_spec(regs, a, y, true);
            r.with_r8(Register8b::A, v)
        },
        AluOp::Sub => {
            let (r, v) = sub_bytes_spec(regs, a, y, false);
            r.with_r8(Register8b::A, v)
        },
        AluOp::Sbc => {
            let (r, v) = sub_bytes_spec(regs, a, y, true);
            r.with_r8(Register8b::A, v)
        },
        AluOp::And => logic_spec(regs, a & y, true),
        AluOp::Xor => logic_spec(regs, a ^ y, false),
        AluOp::Or => logic_spec(regs, a | y, false),
        AluOp::Cp => sub_bytes_spec(regs, a, y, false).0,
    }
}

/// `sp` plus the signed offset `e`.
pub open spec fn offset_sp(sp: u16, e: u8) -> u16 {
    if e < 128 {
        sp.wrapping_add(e as u16)
    } else {
        sp.wrapping_sub((256 - e) as u16)
    }
}

/// The flags of `SP + e`: `Z` and `N` cleared, `H` and `C` the carries of the
/// unsigned add of `e` to the low byte of `SP`.
pub open spec fn sp_offset_flags(regs: Registers, e: u8) -> Registers {
    add_bytes_spec(regs, low_byte(regs.r16(Register16b::SP)), e, false).0.with_flag(Flag::Z, false)
}

/// The effect of a prefixed instruction, and its cost or the error that
/// stopped it.
pub open spec fn run_cb_spec<M: MemoryBankController>(s: CpuState<M::V>, i: CbInstr) -> (
    CpuState<M::V>,
    Result<u8, CpuError>,
) {
    match i {
        CbInstr::Rot(op, o) => match read_operand_spec::<M>(s, o) {
            Err(e) => (s, Err(e)),
            Ok(x) => {
                let (regs, v) = rotate_spec(s.regs, op, x);
                finish(write_operand_spec::<M>(s.with_regs(regs), o, v), operand_cost(o, 8, 16))
            },
        },
        CbInstr::TestBit(b, o) => match read_operand_spec::<M>(s, o) {
            Err(e) => (s, Err(e)),
            Ok(x) => (
                s.with_regs(
                    s.regs.with_flag(Flag::Z, x & (1u8 << b) == 0).with_flag(Flag::N, false).with_flag(
                        Flag::H,
                        true,
                    ),
                ),
                Ok(operand_cost(o, 8, 12)),
            ),
        },
        CbInstr::ResBit(b, o) => match read_operand_spec::<M>(s, o) {
            Err(e) => (s, Err(e)),
            Ok(x) => finish(write_operand_spec::<M>(s, o, x & !(1u8 << b)), operand_cost(o, 8, 16)),
        },
        CbInstr::SetBit(b, o) => match read_operand_spec::<M>(s, o) {
            Err(e) => (s, Err(e)),
            Ok(x) => finish(write_operand_spec::<M>(s, o, x | (1u8 << b)), operand_cost(o, 8, 16)),
        },
    }
}


/// The effect of an unprefixed instruction whose opcode was fetched, and its
/// cost or the error that stopped it.
pub open spec fn run_spec<M: MemoryBankController>(s: CpuState<M::V>, i: Instr) -> (
    CpuState<M::V>,
    Result<u8, CpuError>,
) {
    let regs = s.regs;
    let a = regs.r8(Register8b::A);
    let sp = regs.r16(Register16b::SP);
    match i {
        Instr::Nop => (s, Ok(4)),
        Instr::Stop => (
            CpuState {
                halted: true,
                ..s.with_regs(regs.with_r16(Register16b::PC, regs.r16(Register16b::PC).wrapping_add(1)))
            },
            Ok(4),
        ),
        Instr::Halt => (CpuState { halted: true, ..s }, Ok(4)),
        Instr::Di => (CpuState { ime: false, ..s }, Ok(4)),
        Instr::Ei => (CpuState { ime: true, ..s }, Ok(4)),
        Instr::Ld(dst, src) => match read_operand_spec::<M>(s, src) {
            Err(e) => (s, Err(e)),
            Ok(v) => finish(
                write_operand_spec::<M>(s, dst, v),
                if dst is IndirectHL || src is IndirectHL {
                    8
                } else {
                    4
                },
            ),
        },
        Instr::LdImm8(dst) => {
            let (s1, r) = fetch_byte_spec::<M>(s);
            match r {
                Err(e) => (s1, Err(e)),
                Ok(v) => finish(write_operand_spec::<M>(s1, dst, v), operand_cost(dst, 8, 12)),
            }
        },
        Instr::LdImm16(rr) => {
            let (s1, r) = fetch_word_spec::<M>(s);
            match r {
                Err(e) => (s1, Err(e)),
                Ok(v) => (s1.with_regs(s1.regs.with_r16(rr, v)), Ok(12)),
            }
        },
        Instr::StoreA(ind) => {
            let (s1, r) = indirect_address_spec::<M>(s, ind);
            match r {
                Err(e) => (s1, Err(e)),
                Ok(addr) => finish(mem_write::<M>(s1, addr, a), indirect_cost(ind)),
            }
        },
        Instr::LoadA(ind) => {
            let (s1, r) = indirect_address_spec::<M>(s, ind);
            match r {
                Err(e) => (s1, Err(e)),
                Ok(addr) => match mem_read::<M>(s1, addr) {
                    Err(e) => (s1, Err(e)),
                    Ok(v) => (s1.with_regs(s1.regs.with_r8(Register8b::A, v)), Ok(indirect_cost(ind))),
                },
            }
        },
        Instr::StoreSp => {
            let (s1, r) = fetch_word_spec::<M>(s);
            match r {
                Err(e) => (s1, Err(e)),
                Ok(addr) => finish(mem_write_word::<M>(s1, addr, sp), 20),
            }
        },
        Instr::Inc8(o) => match read_operand_spec::<M>(s, o) {
            Err(e) => (s, Err(e)),
            Ok(x) => {
                let (r, v) = inc_byte_spec(regs, x);
                finish(write_operand_spec::<M>(s.with_regs(r), o, v), operand_cost(o, 4, 12))
            },
        },
        Instr::Dec8(o) => match read_operand_spec::<M>(s, o) {
            Err(e) => (s, Err(e)),
            Ok(x) => {
                let (r, v) = dec_byte_spec(regs, x);
                finish(write_operand_spec::<M>(s.with_regs(r), o, v), operand_cost(o, 4, 12))
            },
        },
        Instr::Inc16(rr) => (s.with_regs(regs.with_r16(rr, regs.r16(rr).wrapping_add(1))), Ok(8)),
        Instr::Dec16(rr) => (s.with_regs(regs.with_r16(rr, regs.r16(rr).wrapping_sub(1))), Ok(8)),
        Instr::AddHl(rr) => {
            let (r, v) = add_words_spec(regs, regs.r16(Register16b::HL), regs.r16(rr));
            (s.with_regs(r.with_r16(Register16b::HL, v)), Ok(8))
        },
        Instr::Alu(op, o) => match read_operand_spec::<M>(s, o) {
            Err(e) => (s, Err(e)),
            Ok(y) => (s.with_regs(alu_spec(regs, op, y)), Ok(operand_cost(o, 4, 8))),
        },
        Instr::AluImm(op) => {
            let (s1, r) = fetch_byte_spec::<M>(s);
            match r {
                Err(e) => (s1, Err(e)),
                Ok(y) => (s1.with_regs(alu_spec(s1.regs, op, y)), Ok(8)),
            }
        },
        Instr::RotA(op) => {
            let (r, v) = rotate_spec(regs, op, a);
            (s.with_regs(r.with_r8(Register8b::A, v).with_flag(Flag::Z, false)), Ok(4))
        },
        Instr::Daa => (s.with_regs(daa_spec(regs)), Ok(4)),
        Instr::Cpl => (
            s.with_regs(
                regs.with_r8(Register8b::A, !a).with_flag(Flag::N, true).with_flag(Flag::H, true),
            ),
            Ok(4),
        ),
        Instr::Scf => (
            s.with_regs(
                regs.with_flag(Flag::N, false).with_flag(Flag::H, false).with_flag(Flag::C, true),
            ),
            Ok(4),
        ),
        Instr::Ccf => (
            s.with_regs(
                regs.with_flag(Flag::N, false).with_flag(Flag::H, false).with_flag(
                    Flag::C,
                    !regs.flag(Flag::C),
                ),
            ),
            Ok(4),
        ),
        Instr::Push(rr) => {
            let new_sp = sp.wrapping_sub(2);
            finish(
                mem_write_word::<M>(s.with_regs(regs.with_r16(Register16b::SP, new_sp)), new_sp, regs.r16(rr)),
                16,
            )
        },
        Instr::Pop(rr) => match lift(bus_read_word::<M>(s.mem, sp)) {
            Err(e) => (s, Err(e)),
            Ok(v) => (
                s.with_regs(regs.with_r16(Register16b::SP, sp.wrapping_add(2)).with_r16(rr, v)),
                Ok(12),
            ),
        },
        Instr::AddSp => {
            let (s1, r) = fetch_byte_spec::<M>(s);
            match r {
                Err(e) => (s1, Err(e)),
                Ok(e) => (
                    s1.with_regs(
                        sp_offset_flags(s1.regs, e).with_r16(Register16b::SP, offset_sp(sp, e)),
                    ),
                    Ok(16),
                ),
            }
        },
        Instr::LdHlSp => {
            let (s1, r) = fetch_byte_spec::<M>(s);
            match r {
                Err(e) => (s1, Err(e)),
                Ok(e) => (
                    s1.with_regs(
                        sp_offset_flags(s1.regs, e).with_r16(Register16b::HL, offset_sp(sp, e)),
                    ),
                    Ok(12),
                ),
            }
        },
        Instr::LdSpHl => (
            s.with_regs(regs.with_r16(Register16b::SP, regs.r16(Register16b::HL))),
            Ok(8),
        ),
        Instr::Prefix => {
            let (s1, r) = fetch_byte_spec::<M>(s);
            match r {
                Err(e) => (s1, Err(e)),
                Ok(op) => run_cb_spec::<M>(s1, decode_cb_spec(op)),
            }
        },
        Instr::Unimplemented(op) => (s, Err(CpuError::UnimplementedOpcode(op))),
    }
}

/// Executing an opcode that was fetched.
pub open spec fn execute_spec<M: MemoryBankController>(s: CpuState<M::V>, op: u8) -> (
    CpuState<M::V>,
    Result<u8, CpuError>,
) {
    run_spec::<M>(s, decode_spec(op))
}

/// One step: a halted CPU idles for one machine cycle; a running one fetches
/// the opcode at `PC` and executes it.
pub open spec fn step_spec<M: MemoryBankController>(s: CpuState<M::V>) -> (
    CpuState<M::V>,
    Result<u8, CpuError>,
) {
    if s.halted {
        (s, Ok(4))
    } else {
        let (s1, r) = fetch_byte_spec::<M>(s);
        match r {
            Err(e) => (s1, Err(e)),
            Ok(op) => execute_spec::<M>(s1, op),
        }
    }
}

/// The cost of an instruction on an 8-bit operand.
fn cost(o: Operand8, base: u8, hl: u8) -> (r: u8)
    ensures
        r == operand_cost(o, base, hl),
{
    match o {
        Operand8::Reg(_) => base,
        Operand8::IndirectHL => hl,
    }
}

/// The cost of an indirect load or store.
fn indirect_cycles(ind: Indirect) -> (r: u8)
    ensures
        r == indirect_cost(ind),
{
    match ind {
        Indirect::Absolute => 16,
        Indirect::HighImm => 12,
        _ => 8,
    }
}

/// The three-bit code of a register operand: `B C D E H L` are 0 to 5 and
/// `A` is 7.
pub open spec fn register_code(r: Register8b) -> u8 {
    match r {
        Register8b::B => 0,
        Register8b::C => 1,
        Register8b::D => 2,
        Register8b::E => 3,
        Register8b::H => 4,
        Register8b::L => 5,
        _ => 7,
    }
}

/// The opcode `0x40 + 8 * dst + src` decodes to `LD dst, src`.
proof fn lemma_decode_ld(dst: Register8b, src: Register8b)
    requires
        dst != Register8b::F,
        src != Register8b::F,
    ensures
        decode_spec((0x40 + 8 * register_code(dst) + register_code(src)) as u8) == Instr::Ld(
            Operand8::Reg(dst),
            Operand8::Reg(src),
        ),
{
    let d = register_code(dst);
    let c = register_code(src);
    let op = (0x40 + 8 * d + c) as u8;
    assert(op == 0x40 + 8 * d + c);
    assert(op / 64 == 1);
    assert((op / 8) % 8 == d);
    assert(op % 8 == c);
    assert(operand_spec(d) == Operand8::Reg(dst));
    assert(operand_spec(c) == Operand8::Reg(src));
}

/// A step of a running CPU on an `LD r, r'` opcode between two of the seven
/// registers `A B C D E H L` copies the source into the destination, advances
/// `PC` by one, changes nothing else and costs 4 clock ticks.
pub proof fn law_ld_r8_r8<M: MemoryBankController>(
    s: CpuState<M::V>,
    dst: Register8b,
    src: Register8b,
)
    requires
        dst != Register8b::F,
        src != Register8b::F,
        !s.halted,
        mem_read::<M>(s, s.regs.r16(Register16b::PC)) == Ok::<u8, CpuError>(
            (0x40 + 8 * register_code(dst) + register_code(src)) as u8,
        ),
    ensures
        step_spec::<M>(s) == (
            s.with_regs(
                s.regs.with_r16(Register16b::PC, s.regs.r16(Register16b::PC).wrapping_add(1)).with_r8(
                    dst,
                    s.regs.r8(src),
                ),
            ),
            Ok::<u8, CpuError>(4),
        ),
{
    lemma_decode_ld(dst, src);
}

/// A step of a running CPU on an opcode without handler reports it, with
/// only the opcode fetched.
pub proof fn law_unimplemented_opcode<M: MemoryBankController>(s: CpuState<M::V>, op: u8)
    requires
        !s.halted,
        mem_read::<M>(s, s.regs.r16(Register16b::PC)) == Ok::<u8, CpuError>(op),
        decode_spec(op) is Unimplemented,
    ensures
        step_spec::<M>(s) == (
            fetch_byte_spec::<M>(s).0,
            Err::<u8, CpuError>(CpuError::UnimplementedOpcode(op)),
        ),
{
}

/// Decodes an operand code.
fn operand(code: u8) -> (r: Operand8)
    ensures
        r == operand_spec(code),
{
    match code {
        0 => Operand8::Reg(Register8b::B),
        1 => Operand8::Reg(Register8b::C),
        2 => Operand8::Reg(Register8b::D),
        3 => Operand8::Reg(Register8b::E),
        4 => Operand8::Reg(Register8b::H),
        5 => Operand8::Reg(Register8b::L),
        6 => Operand8::IndirectHL,
        _ => Operand8::Reg(Register8b::A),
    }
}

/// Decodes a register pair code.
fn pair(code: u8) -> (r: Register16b)
    ensures
        r == pair_spec(code),
{
    match code {
        0 => Register16b::BC,
        1 => Register16b::DE,
        2 => Register16b::HL,
        _ => Register16b::SP,
    }
}

/// Decodes a `PUSH`/`POP` register pair code.
fn stack_pair(code: u8) -> (r: Register16b)
    ensures
        r == stack_pair_spec(code),
{
    match code {
        0 => Register16b::BC,
        1 => Register16b::DE,
        2 => Register16b::HL,
        _ => Register16b::AF,
    }
}

/// Decodes the addressing code of the first block.
fn indirect(code: u8) -> (r: Indirect)
    ensures
        r == indirect_spec(code),
{
    match code {
        0 => Indirect::BC,
        1 => Indirect::DE,
        2 => Indirect::HLInc,
        _ => Indirect::HLDec,
    }
}

/// Decodes an arithmetic or logic operation code.
fn alu_op(code: u8) -> (r: AluOp)
    ensures
        r == alu_op_spec(code),
{
    match code {
        0 => AluOp::Add,
        1 => AluOp::Adc,
        2 => AluOp::Sub,
        3 => AluOp::Sbc,
        4 => AluOp::And,
        5 => AluOp::Xor,
        6 => AluOp::Or,
        _ => AluOp::Cp,
    }
}

/// Decodes a rotate or shift code.
fn rot_op(code: u8) -> (r: RotOp)
    ensures
        r == rot_op_spec(code),
{
    match code {
        0 => RotOp::Rlc,
        1 => RotOp::Rrc,
        2 => RotOp::Rl,
        3 => RotOp::Rr,
        4 => RotOp::Sla,
        5 => RotOp::Sra,
        6 => RotOp::Swap,
        _ => RotOp::Srl,
    }
}

/// Decodes an unprefixed opcode.
pub fn decode(op: u8) -> (r: Instr)
    ensures
        r == decode_spec(op),
{
    let x = op / 64;
    let y = (op / 8) % 8;
    let z = op % 8;
    let p = y / 2;
    let q = y % 2;
    if x == 0 {
        if z == 0 {
            if y == 0 {
                Instr::Nop
            } else if y == 1 {
                Instr::StoreSp
            } else if y == 2 {
                Instr::Stop
            } else {
                Instr::Unimplemented(op)
            }
        } else if z == 1 {
            if q == 0 {
                Instr::LdImm16(pair(p))
            } else {
                Instr::AddHl(pair(p))
            }
        } else if z == 2 {
            if q == 0 {
                Instr::StoreA(indirect(p))
            } else {
                Instr::LoadA(indirect(p))
            }
        } else if z == 3 {
            if q == 0 {
                Instr::Inc16(pair(p))
            } else {
                Instr::Dec16(pair(p))
            }
        } else if z == 4 {
            Instr::Inc8(operand(y))
        } else if z == 5 {
            Instr::Dec8(operand(y))
        } else if z == 6 {
            Instr::LdImm8(operand(y))
        } else if y < 4 {
            Instr::RotA(rot_op(y))
        } else if y == 4 {
            Instr::Daa
        } else if y == 5 {
            Instr::Cpl
        } else if y == 6 {
            Instr::Scf
        } else {
            Instr::Ccf
        }
    } else if x == 1 {
        if y == 6 && z == 6 {
            Instr::Halt
        } else {
            Instr::Ld(operand(y), operand(z))
        }
    } else if x == 2 {
        Instr::Alu(alu_op(y), operand(z))
    } else if z == 0 {
        if y == 4 {
            Instr::StoreA(Indirect::HighImm)
        } else if y == 5 {
            Instr::AddSp
        } else if y == 6 {
            Instr::LoadA(Indirect::HighImm)
        } else if y == 7 {
            Instr::LdHlSp
        } else {
            Instr::Unimplemented(op)
        }
    } else if z == 1 {
        if q == 0 {
            Instr::Pop(stack_pair(p))
        } else if p == 3 {
            Instr::LdSpHl
        } else {
            Instr::Unimplemented(op)
        }
    } else if z == 2 {
        if y == 4 {
            Instr::StoreA(Indirect::HighC)
        } else if y == 5 {
            Instr::StoreA(Indirect::Absolute)
        } else if y == 6 {
            Instr::LoadA(Indirect::HighC)
        } else if y == 7 {
            Instr::LoadA(Indirect::Absolute)
        } else {
            Instr::Unimplemented(op)
        }
    } else if z == 3 {
        if y == 1 {
            Instr::Prefix
        } else if y == 6 {
            Instr::Di
        } else if y == 7 {
            Instr::Ei
        } else {
            Instr::Unimplemented(op)
        }
    } else if z == 5 {
        if q == 0 {
            Instr::Push(stack_pair(p))
        } else {
            Instr::Unimplemented(op)
        }
    } else if z == 6 {
        Instr::AluImm(alu_op(y))
    } else {
        Instr::Unimplemented(op)
    }
}

/// Decodes the second byte of a prefixed opcode.
pub fn decode_cb(op: u8) -> (r: CbInstr)
    ensures
        r == decode_cb_spec(op),
{
    let x = op / 64;
    let y = (op / 8) % 8;
    let z = op % 8;
    if x == 0 {
        CbInstr::Rot(rot_op(y), operand(z))
    } else if x == 1 {
        CbInstr::TestBit(y, operand(z))
    } else if x == 2 {
        CbInstr::ResBit(y, operand(z))
    } else {
        CbInstr::SetBit(y, operand(z))
    }
}

impl<M: MemoryBankController> Cpu<M> {
    /// Reads an 8-bit operand.
    fn read_operand(&self, o: Operand8) -> (r: Result<u8, CpuError>)
        requires
            self.wf(),
        ensures
            r == read_operand_spec::<M>(self@, o),
    {
        match o {
            Operand8::Reg(reg) => Ok(self.registers.get_r8(reg)),
            Operand8::IndirectHL => self.read_mem(self.registers.get_r16(Register16b::HL)),
        }
    }

    /// Writes an 8-bit operand.
    fn write_operand(&mut self, o: Operand8, v: u8) -> (r: Result<(), CpuError>)
        requires
            old(self).wf(),
        ensures
            final(self).wf(),
            (final(self)@, r) == write_operand_spec::<M>(old(self)@, o, v),
    {
        match o {
            Operand8::Reg(reg) => {
                self.registers.set_r8(reg, v);
                Ok(())
            },
            Operand8::IndirectHL => {
                let address = self.registers.get_r16(Register16b::HL);
                self.write_mem(address, v)
            },
        }
    }

    /// Computes the address of an indirect load or store.
    fn indirect_address(&mut self, ind: Indirect) -> (r: Result<u16, CpuError>)
        requires
            old(self).wf(),
        ensures
            final(self).wf(),
            (final(self)@, r) == indirect_address_spec::<M>(old(self)@, ind),
    {
        match ind {
            Indirect::BC => Ok(self.registers.get_r16(Register16b::BC)),
            Indirect::DE => Ok(self.registers.get_r16(Register16b::DE)),
            Indirect::HLInc => {
                let hl = self.registers.get_r16(Register16b::HL);
                self.registers.set_r16(Register16b::HL, hl.wrapping_add(1));
                Ok(hl)
            },
            Indirect::HLDec => {
                let hl = self.registers.get_r16(Register16b::HL);
                self.registers.set_r16(Register16b::HL, hl.wrapping_sub(1));
                Ok(hl)
            },
            Indirect::Absolute => self.fetch_word(),
            Indirect::HighImm => match self.fetch_byte() {
                Ok(b) => Ok(0xFF00 + b as u16),
                Err(e) => Err(e),
            },
            Indirect::HighC => Ok(0xFF00 + self.registers.get_r8(Register8b::C) as u16),
        }
    }

    /// Applies `op A, y`.
    fn alu_apply(&mut self, op: AluOp, y: u8)
        requires
            old(self).wf(),
        ensures
            final(self).wf(),
            final(self)@ == old(self)@.with_regs(alu_spec(old(self)@.regs, op, y)),
    {
        let a = self.registers.get_r8(Register8b::A);
        match op {
            AluOp::Add => {
                let v = self.alu_add_bytes(a, y, false);
                self.registers.set_r8(Register8b::A, v);
            },
            AluOp::Adc => {
                let v = self.alu_add_bytes(a, y, true);
                self.registers.set_r8(Register8b::A, v);
            },
            AluOp::Sub => {
                let v = self.alu_sub_bytes(a, y, false);
                self.registers.set_r8(Register8b::A, v);
            },
            AluOp::Sbc => {
                let v = self.alu_sub_bytes(a, y, true);
                self.registers.set_r8(Register8b::A, v);
            },
            AluOp::And => self.alu_and_a(y),
            AluOp::Xor => self.alu_xor_a(y),
            AluOp::Or => self.alu_or_a(y),
            AluOp::Cp => self.alu_cp_a(y),
        }
    }

    /// Sets the flags of `SP + e` and returns the sum.
    fn sp_plus_offset(&mut self, e: u8) -> (r: u16)
        requires
            old(self).wf(),
        ensures
            final(self).wf(),
            final(self)@ == old(self)@.with_regs(sp_offset_flags(old(self)@.regs, e)),
            r == offset_sp(old(self)@.regs.r16(Register16b::SP), e),
    {
        let sp = self.registers.get_r16(Register16b::SP);
        let (_, sp_low) = word_to_bytes(sp);
        let _ = self.alu_add_bytes(sp_low, e, false);
        self.registers.set_flag(Flag::Z, false);
        if e < 128 {
            sp.wrapping_add(e as u16)
        } else {
            sp.wrapping_sub((256 - e as u16) as u16)
        }
    }

    /// Executes the prefixed instruction whose second byte is `instruction`;
    /// returns its cost in clock ticks.
    pub fn execute_prefixed_instr(&mut self, instruction: u8) -> (r: Result<u8, CpuError>)
        requires
            old(self).wf(),
        ensures
            final(self).wf(),
            (final(self)@, r) == run_cb_spec::<M>(old(self)@, decode_cb_spec(instruction)),
    {
        match decode_cb(instruction) {
            CbInstr::Rot(op, o) => {
                let x = match self.read_operand(o) {
                    Ok(x) => x,
                    Err(e) => return Err(e),
                };
                let v = self.bit_op_rotate(op, x);
                match self.write_operand(o, v) {
                    Ok(_) => Ok(cost(o, 8, 16)),
                    Err(e) => Err(e),
                }
            },
            CbInstr::TestBit(b, o) => {
                let x = match self.read_operand(o) {
                    Ok(x) => x,
                    Err(e) => return Err(e),
                };
                self.registers.set_flag(Flag::Z, x & (1u8 << b) == 0);
                self.registers.set_flag(Flag::N, false);
                self.registers.set_flag(Flag::H, true);
                Ok(cost(o, 8, 12))
            },
            CbInstr::ResBit(b, o) => {
                let x = match self.read_operand(o) {
                    Ok(x) => x,
                    Err(e) => return Err(e),
                };
                match self.write_operand(o, x & !(1u8 << b)) {
                    Ok(_) => Ok(cost(o, 8, 16)),
                    Err(e) => Err(e),
                }
            },
            CbInstr::SetBit(b, o) => {
                let x = match self.read_operand(o) {
                    Ok(x) => x,
                    Err(e) => return Err(e),
                };
                match self.write_operand(o, x | (1u8 << b)) {
                    Ok(_) => Ok(cost(o, 8, 16)),
                    Err(e) => Err(e),
                }
            },
        }
    }
}

impl<M: MemoryBankController> Cpu<M> {
    /// Executes a no-op, a CPU-state instruction, a prefixed instruction or an unimplemented opcode.
    fn execute_control(&mut self, instr: Instr) -> (r: Result<u8, CpuError>)
        requires
            old(self).wf(),
            instr is Nop || instr is Stop || instr is Halt || instr is Di || instr is Ei || instr is Prefix || instr is Unimplemented,
        ensures
            final(self).wf(),
            (final(self)@, r) == run_spec::<M>(old(self)@, instr),
    {
        match instr {
            Instr::Nop => Ok(4),
            Instr::Stop => {
                self.registers.set_r16(Register16b::PC, self.registers.pc.wrapping_add(1));
                self.set_halted(true);
                Ok(4)
            },
            Instr::Halt => {
                self.set_halted(true);
                Ok(4)
            },
            Instr::Di => {
                self.set_ime(false);
                Ok(4)
            },
            Instr::Ei => {
                self.set_ime(true);
                Ok(4)
            },
            Instr::Prefix => {
                let op = match self.fetch_byte() {
                    Ok(v) => v,
                    Err(e) => return Err(e),
                };
                self.execute_prefixed_instr(op)
            },
            Instr::Unimplemented(op) => Err(CpuError::UnimplementedOpcode(op)),
            _ => {
                proof {
                    assert(false);
                }
                Err(CpuError::UnimplementedOpcode(0))
            },
        }
    }

    /// Executes a load or store.
    fn execute_load(&mut self, instr: Instr) -> (r: Result<u8, CpuError>)
        requires
            old(self).wf(),
            instr is Ld || instr is LdImm8 || instr is LdImm16 || instr is StoreA || instr is LoadA || instr is StoreSp || instr is LdSpHl,
        ensures
            final(self).wf(),
            (final(self)@, r) == run_spec::<M>(old(self)@, instr),
    {
        match instr {
            Instr::Ld(dst, src) => {
                if let (Operand8::Reg(to), Operand8::Reg(from)) = (dst, src) {
                    self.ld_regs_8b(to, from);
                    return Ok(4);
                }
                let v = match self.read_operand(src) {
                    Ok(v) => v,
                    Err(e) => return Err(e),
                };
                match self.write_operand(dst, v) {
                    Ok(_) => Ok(8),
                    Err(e) => Err(e),
                }
            },
            Instr::LdImm8(dst) => {
                let v = match self.fetch_byte() {
                    Ok(v) => v,
                    Err(e) => return Err(e),
                };
                match self.write_operand(dst, v) {
                    Ok(_) => Ok(cost(dst, 8, 12)),
                    Err(e) => Err(e),
                }
            },
            Instr::LdImm16(rr) => {
                let v = match self.fetch_word() {
                    Ok(v) => v,
                    Err(e) => return Err(e),
                };
                self.registers.set_r16(rr, v);
                Ok(12)
            },
            Instr::StoreA(ind) => {
                let a = self.registers.get_r8(Register8b::A);
                let address = match self.indirect_address(ind) {
                    Ok(v) => v,
                    Err(e) => return Err(e),
                };
                match self.write_mem(address, a) {
                    Ok(_) => Ok(indirect_cycles(ind)),
                    Err(e) => Err(e),
                }
            },
            Instr::LoadA(ind) => {
                let address = match self.indirect_address(ind) {
                    Ok(v) => v,
                    Err(e) => return Err(e),
                };
                let v = match self.read_mem(address) {
                    Ok(v) => v,
                    Err(e) => return Err(e),
                };
                self.registers.set_r8(Register8b::A, v);
                Ok(indirect_cycles(ind))
            },
            Instr::StoreSp => {
                let sp = self.registers.get_r16(Register16b::SP);
                let address = match self.fetch_word() {
                    Ok(v) => v,
                    Err(e) => return Err(e),
                };
                match self.write_mem_word(address, sp) {
                    Ok(_) => Ok(20),
                    Err(e) => Err(e),
                }
            },
            Instr::LdSpHl => {
                let hl = self.registers.get_r16(Register16b::HL);
                self.registers.set_r16(Register16b::SP, hl);
                Ok(8)
            },
            _ => {
                proof {
                    assert(false);
                }
                Err(CpuError::UnimplementedOpcode(0))
            },
        }
    }

    /// Executes an increment, decrement or arithmetic instruction.
    fn execute_arith(&mut self, instr: Instr) -> (r: Result<u8, CpuError>)
        requires
            old(self).wf(),
            instr is Inc8 || instr is Dec8 || instr is Inc16 || instr is Dec16 || instr is AddHl || instr is Alu || instr is AluImm,
        ensures
            final(self).wf(),
            (final(self)@, r) == run_spec::<M>(old(self)@, instr),
    {
        match instr {
            Instr::Inc8(o) => {
                let x = match self.read_operand(o) {
                    Ok(v) => v,
                    Err(e) => return Err(e),
                };
                let v = self.alu_inc_byte(x);
                match self.write_operand(o, v) {
                    Ok(_) => Ok(cost(o, 4, 12)),
                    Err(e) => Err(e),
                }
            },
            Instr::Dec8(o) => {
                let x = match self.read_operand(o) {
                    Ok(v) => v,
                    Err(e) => return Err(e),
                };
                let v = self.alu_dec_byte(x);
                match self.write_operand(o, v) {
                    Ok(_) => Ok(cost(o, 4, 12)),
                    Err(e) => Err(e),
                }
            },
            Instr::Inc16(rr) => {
                let v = self.registers.get_r16(rr);
                self.registers.set_r16(rr, v.wrapping_add(1));
                Ok(8)
            },
            Instr::Dec16(rr) => {
                let v = self.registers.get_r16(rr);
                self.registers.set_r16(rr, v.wrapping_sub(1));
                Ok(8)
            },
            Instr::AddHl(rr) => {
                let hl = self.registers.get_r16(Register16b::HL);
                let y = self.registers.get_r16(rr);
                let v = self.alu_add_words(hl, y);
                self.registers.set_r16(Register16b::HL, v);
                Ok(8)
            },
            Instr::Alu(op, o) => {
                let y = match self.read_operand(o) {
                    Ok(v) => v,
                    Err(e) => return Err(e),
                };
                self.alu_apply(op, y);
                Ok(cost(o, 4, 8))
            },
            Instr::AluImm(op) => {
                let y = match self.fetch_byte() {
                    Ok(v) => v,
                    Err(e) => return Err(e),
                };
                self.alu_apply(op, y);
                Ok(8)
            },
            _ => {
                proof {
                    assert(false);
                }
                Err(CpuError::UnimplementedOpcode(0))
            },
        }
    }

    /// Executes an instruction on `A` or on the flags alone.
    fn execute_bits(&mut self, instr: Instr) -> (r: Result<u8, CpuError>)
        requires
            old(self).wf(),
            instr is RotA || instr is Daa || instr is Cpl || instr is Scf || instr is Ccf,
        ensures
            final(self).wf(),
            (final(self)@, r) == run_spec::<M>(old(self)@, instr),
    {
        match instr {
            Instr::RotA(op) => {
                let a = self.registers.get_r8(Register8b::A);
                let v = self.bit_op_rotate(op, a);
                self.registers.set_r8(Register8b::A, v);
                self.registers.set_flag(Flag::Z, false);
                Ok(4)
            },
            Instr::Daa => {
                self.alu_daa();
                Ok(4)
            },
            Instr::Cpl => {
                let a = self.registers.get_r8(Register8b::A);
                self.registers.set_r8(Register8b::A, !a);
                self.registers.set_flag(Flag::N, true);
                self.registers.set_flag(Flag::H, true);
                Ok(4)
            },
            Instr::Scf => {
                self.registers.set_flag(Flag::N, false);
                self.registers.set_flag(Flag::H, false);
                self.registers.set_flag(Flag::C, true);
                Ok(4)
            },
            Instr::Ccf => {
                let c = self.registers.flag_value(Flag::C);
                self.registers.set_flag(Flag::N, false);
                self.registers.set_flag(Flag::H, false);
                self.registers.set_flag(Flag::C, !c);
                Ok(4)
            },
            _ => {
                proof {
                    assert(false);
                }
                Err(CpuError::UnimplementedOpcode(0))
            },
        }
    }

    /// Executes a stack instruction or an instruction on `SP`.
    fn execute_stack(&mut self, instr: Instr) -> (r: Result<u8, CpuError>)
        requires
            old(self).wf(),
            instr is Push || instr is Pop || instr is AddSp || instr is LdHlSp,
        ensures
            final(self).wf(),
            (final(self)@, r) == run_spec::<M>(old(self)@, instr),
    {
        match instr {
            Instr::Push(rr) => {
                let value = self.registers.get_r16(rr);
                let sp = self.registers.get_r16(Register16b::SP).wrapping_sub(2);
                self.registers.set_r16(Register16b::SP, sp);
                match self.write_mem_word(sp, value) {
                    Ok(_) => Ok(16),
                    Err(e) => Err(e),
                }
            },
            Instr::Pop(rr) => {
                let sp = self.registers.get_r16(Register16b::SP);
                let value = match self.mmu.read_word(sp) {
                    Ok(v) => v,
                    Err(e) => return Err(CpuError::Memory(e)),
                };
                self.registers.set_r16(Register16b::SP, sp.wrapping_add(2));
                self.registers.set_r16(rr, value);
                Ok(12)
            },
            Instr::AddSp => {
                let e = match self.fetch_byte() {
                    Ok(v) => v,
                    Err(e) => return Err(e),
                };
                let v = self.sp_plus_offset(e);
                self.registers.set_r16(Register16b::SP, v);
                Ok(16)
            },
            Instr::LdHlSp => {
                let e = match self.fetch_byte() {
                    Ok(v) => v,
                    Err(e) => return Err(e),
                };
                let v = self.sp_plus_offset(e);
                self.registers.set_r16(Register16b::HL, v);
                Ok(12)
            },
            _ => {
                proof {
                    assert(false);
                }
                Err(CpuError::UnimplementedOpcode(0))
            },
        }
    }

    /// Executes a decoded unprefixed instruction; returns its cost in clock
    /// ticks.
    pub fn execute(&mut self, instr: Instr) -> (r: Result<u8, CpuError>)
        requires
            old(self).wf(),
        ensures
            final(self).wf(),
            (final(self)@, r) == run_spec::<M>(old(self)@, instr),
    {
        match instr {
            Instr::Nop | Instr::Stop | Instr::Halt | Instr::Di | Instr::Ei | Instr::Prefix
            | Instr::Unimplemented(_) => self.execute_control(instr),
            Instr::Ld(..) | Instr::LdImm8(_) | Instr::LdImm16(_) | Instr::StoreA(_)
            | Instr::LoadA(_) | Instr::StoreSp | Instr::LdSpHl => self.execute_load(instr),
            Instr::Inc8(_) | Instr::Dec8(_) | Instr::Inc16(_) | Instr::Dec16(_) | Instr::AddHl(_)
            | Instr::Alu(..) | Instr::AluImm(_) => self.execute_arith(instr),
            Instr::RotA(_) | Instr::Daa | Instr::Cpl | Instr::Scf | Instr::Ccf => self.execute_bits(
                instr,
            ),
            Instr::Push(_) | Instr::Pop(_) | Instr::AddSp | Instr::LdHlSp => self.execute_stack(instr),
        }
    }

    /// Executes the unprefixed instruction with opcode `instruction`, whose
    /// opcode byte was already fetched; returns its cost in clock ticks. An
    /// opcode without handler leaves the CPU unchanged and reports
    /// [`CpuError::UnimplementedOpcode`].
    pub fn execute_instr(&mut self, instruction: u8) -> (r: Result<u8, CpuError>)
        requires
            old(self).wf(),
        ensures
            final(self).wf(),
            (final(self)@, r) == execute_spec::<M>(old(self)@, instruction),
            decode_spec(instruction) is Unimplemented ==> final(self)@ == old(self)@ && r == Err::<
                u8,
                CpuError,
            >(CpuError::UnimplementedOpcode(instruction)),
    {
        let instr = decode(instruction);
        self.execute(instr)
    }

    /// Runs one step: a halted CPU idles for one machine cycle; a running one
    /// fetches the opcode at `PC` and executes it. Returns the cost in clock
    /// ticks, or the error that stopped the step.
    pub fn fetch_and_execute(&mut self) -> (r: Result<u8, CpuError>)
        requires
            old(self).wf(),
        ensures
            final(self).wf(),
            (final(self)@, r) == step_spec::<M>(old(self)@),
    {
        if self.halted {
            return Ok(4);
        }
        let instruction = match self.fetch_byte() {
            Ok(v) => v,
            Err(e) => return Err(e),
        };
        self.execute_instr(instruction)
    }
}

} // verus!
