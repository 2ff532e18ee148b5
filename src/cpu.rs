//! The execution engine: owns the register file and the memory bus, and runs
//! one instruction per step.
//!
//! Its behaviour is stated over [`CpuState`], the abstract view of a CPU: the
//! register file, the halted and interrupt-master-enable flags, and the
//! contents of the bus.
use vstd::prelude::*;

pub mod registers;
pub mod alu;
pub mod ops;

use crate::memory::mbc::{MBCError, MbcNone, MemoryBankController};
use crate::memory::{
    bus_read, bus_read_word, bus_write, bus_write_word, MemoryState, Mmu, HRAM_SIZE, OAM_SIZE,
    REGS_SIZE, VRAM_SIZE, WRAM_SIZE,
};
use registers::{Register16b, Register8b, Registers};

verus! {

/// Why a step could not complete.
#[derive(Debug, Clone, Copy, PartialEq, Eq, Structural)]
pub enum CpuError {
    /// The bus reported an error of the bank controller.
    Memory(MBCError),
    /// The opcode has no handler: control flow, or an invalid opcode.
    UnimplementedOpcode(u8),
}

/// The abstract state of a CPU.
pub struct CpuState<C> {
    pub regs: Registers,
    pub halted: bool,
    pub ime: bool,
    pub mem: MemoryState<C>,
}

impl<C> CpuState<C> {
    /// The state with another register file.
    pub open spec fn with_regs(self, regs: Registers) -> CpuState<C> {
        CpuState { regs, ..self }
    }
}

/// A bus error as a CPU error.
pub open spec fn lift<T>(r: Result<T, MBCError>) -> Result<T, CpuError> {
    match r {
        Ok(v) => Ok(v),
        Err(e) => Err(CpuError::Memory(e)),
    }
}

/// What reading `address` gives.
pub open spec fn mem_read<M: MemoryBankController>(s: CpuState<M::V>, address: u16) -> Result<
    u8,
    CpuError,
> {
    lift(bus_read::<M>(s.mem, address))
}

/// The state after writing `value` to `address`, and the outcome.
pub open spec fn mem_write<M: MemoryBankController>(s: CpuState<M::V>, address: u16, value: u8) -> (
    CpuState<M::V>,
    Result<(), CpuError>,
) {
    let (mem, r) = bus_write::<M>(s.mem, address, value);
    (CpuState { mem, ..s }, lift(r))
}

/// The state after writing a little-endian word at `address`, and the outcome.
pub open spec fn mem_write_word<M: MemoryBankController>(
    s: CpuState<M::V>,
    address: u16,
    value: u16,
) -> (CpuState<M::V>, Result<(), CpuError>) {
    let (mem, r) = bus_write_word::<M>(s.mem, address, value);
    (CpuState { mem, ..s }, lift(r))
}

/// Fetching a byte of the instruction stream: the byte at `PC`, with `PC`
/// advanced by one whatever the read gave.
pub open spec fn fetch_byte_spec<M: MemoryBankController>(s: CpuState<M::V>) -> (
    CpuState<M::V>,
    Result<u8, CpuError>,
) {
    (
        s.with_regs(s.regs.with_r16(Register16b::PC, s.regs.r16(Register16b::PC).wrapping_add(1))),
        mem_read::<M>(s, s.regs.r16(Register16b::PC)),
    )
}

/// Fetching a word of the instruction stream: the little-endian word at `PC`,
/// with `PC` advanced by two whatever the read gave.
pub open spec fn fetch_word_spec<M: MemoryBankController>(s: CpuState<M::V>) -> (
    CpuState<M::V>,
    Result<u16, CpuError>,
) {
    (
        s.with_regs(s.regs.with_r16(Register16b::PC, s.regs.r16(Register16b::PC).wrapping_add(2))),
        lift(bus_read_word::<M>(s.mem, s.regs.r16(Register16b::PC))),
    )
}

/// The CPU: register file, memory bus, and the halted and
/// interrupt-master-enable flags.
pub struct Cpu<M> {
    pub registers: Registers,
    pub mmu: Mmu<M>,
    pub(crate) halted: bool,
    pub(crate) interrupt_master_enable: bool,
}

impl<M: MemoryBankController> View for Cpu<M> {
    type V = CpuState<M::V>;

    closed spec fn view(&self) -> CpuState<M::V> {
        CpuState {
            regs: self.registers,
            halted: self.halted,
            ime: self.interrupt_master_enable,
            mem: self.mmu@,
        }
    }
}

impl Cpu<MbcNone> {
    /// A running CPU with zeroed registers, interrupts disabled, and a bus over
    /// a cartridge without bank controller.
    pub fn new() -> (r: Cpu<MbcNone>)
        ensures
            r.wf(),
            forall|reg: Register8b| #[trigger] r@.regs.r8(reg) == 0,
            r@.regs.r16(Register16b::SP) == 0,
            r@.regs.r16(Register16b::PC) == 0,
            !r@.halted,
            !r@.ime,
            r@.mem.cart == Seq::new(0x8000, |i: int| 0u8),
            r@.mem.vram == Seq::new(VRAM_SIZE as nat, |i: int| 0u8),
            r@.mem.wram == Seq::new(WRAM_SIZE as nat, |i: int| 0u8),
            r@.mem.oam == Seq::new(OAM_SIZE as nat, |i: int| 0u8),
            r@.mem.io == Seq::new(REGS_SIZE as nat, |i: int| 0u8),
            r@.mem.hram == Seq::new(HRAM_SIZE as nat, |i: int| 0u8),
            !r@.mem.ie,
    {
        Cpu::with_mmu(Mmu::new())
    }
}

impl<M: MemoryBankController> Cpu<M> {
    /// The register file and the bus are well formed.
    pub open(crate) spec fn wf(&self) -> bool {
        self.registers.wf() && self.mmu.wf()
    }

    /// A running CPU with zeroed registers and interrupts disabled, over the
    /// given bus.
    pub fn with_mmu(mmu: Mmu<M>) -> (r: Cpu<M>)
        requires
            mmu.wf(),
        ensures
            r.wf(),
            forall|reg: Register8b| #[trigger] r@.regs.r8(reg) == 0,
            r@.regs.r16(Register16b::SP) == 0,
            r@.regs.r16(Register16b::PC) == 0,
            !r@.halted,
            !r@.ime,
            r@.mem == mmu@,
    {
        Cpu { registers: Registers::new(), halted: false, interrupt_master_enable: false, mmu }
    }

    /// Whether the CPU is halted.
    pub fn halted(&self) -> (r: bool)
        ensures
            r == self@.halted,
    {
        self.halted
    }

    /// Whether interrupts are enabled.
    pub fn ime(&self) -> (r: bool)
        ensures
            r == self@.ime,
    {
        self.interrupt_master_enable
    }

    /// Sets the halted flag; clearing it resumes a halted CPU.
    pub fn set_halted(&mut self, value: bool)
        ensures
            final(self)@ == (CpuState { halted: value, ..old(self)@ }),
            final(self).wf() == old(self).wf(),
    {
        self.halted = value;
    }

    /// Sets the interrupt-master-enable flag.
    pub fn set_ime(&mut self, value: bool)
        ensures
            final(self)@ == (CpuState { ime: value, ..old(self)@ }),
            final(self).wf() == old(self).wf(),
    {
        self.interrupt_master_enable = value;
    }

    /// Reads a byte of memory.
    pub(crate) fn read_mem(&self, address: u16) -> (r: Result<u8, CpuError>)
        requires
            self.wf(),
        ensures
            r == mem_read::<M>(self@, address),
    {
        match self.mmu.read_byte(address) {
            Ok(v) => Ok(v),
            Err(e) => Err(CpuError::Memory(e)),
        }
    }

    /// Writes a byte of memory.
    pub(crate) fn write_mem(&mut self, address: u16, value: u8) -> (r: Result<(), CpuError>)
        requires
            old(self).wf(),
        ensures
            final(self).wf(),
            (final(self)@, r) == mem_write::<M>(old(self)@, address, value),
    {
        match self.mmu.write_byte(address, value) {
            Ok(v) => Ok(v),
            Err(e) => Err(CpuError::Memory(e)),
        }
    }

    /// Writes a little-endian word of memory.
    pub(crate) fn write_mem_word(&mut self, address: u16, value: u16) -> (r: Result<(), CpuError>)
        requires
            old(self).wf(),
        ensures
            final(self).wf(),
            (final(self)@, r) == mem_write_word::<M>(old(self)@, address, value),
    {
        match self.mmu.write_word(address, value) {
            Ok(v) => Ok(v),
            Err(e) => Err(CpuError::Memory(e)),
        }
    }

    /// Reads the byte at `PC` and advances `PC` by one.
    pub fn fetch_byte(&mut self) -> (r: Result<u8, CpuError>)
        requires
            old(self).wf(),
        ensures
            final(self).wf(),
            (final(self)@, r) == fetch_byte_spec::<M>(old(self)@),
    {
        let value = self.read_mem(self.registers.pc);
        self.registers.set_r16(Register16b::PC, self.registers.pc.wrapping_add(1));
        value
    }

    /// Reads the little-endian word at `PC` and advances `PC` by two.
    pub fn fetch_word(&mut self) -> (r: Result<u16, CpuError>)
        requires
            old(self).wf(),
        ensures
            final(self).wf(),
            (final(self)@, r) == fetch_word_spec::<M>(old(self)@),
    {
        let value = match self.mmu.read_word(self.registers.pc) {
            Ok(v) => Ok(v),
            Err(e) => Err(CpuError::Memory(e)),
        };
        self.registers.set_r16(Register16b::PC, self.registers.pc.wrapping_add(2));
        value
    }

    /// Copies one 8-bit register into another (`LD r, r'`).
    pub fn ld_regs_8b(&mut self, reg_to: Register8b, reg_from: Register8b)
        requires
            old(self).wf(),
        ensures
            final(self).wf(),
            final(self)@ == old(self)@.with_regs(
                old(self)@.regs.with_r8(reg_to, old(self)@.regs.r8(reg_from)),
            ),
    {
        let value = self.registers.get_r8(reg_from);
        self.registers.set_r8(reg_to, value);
    }
}

} // verus!
