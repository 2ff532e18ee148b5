//! No bank controller on the cartridge: the ROM window `0x0000..=0x7FFF`
//! maps linearly onto 32 KiB of ROM.
use vstd::prelude::*;

use super::{MBCError, MemoryBankController};

verus! {

/// Size of the ROM of a cartridge without a bank controller.
pub const ROM_SIZE_MBC_NONE: usize = 0x8000;

/// A cartridge without a bank controller: a flat 32 KiB ROM.
pub struct MbcNone {
    pub(crate) rom: Vec<u8>,
}

impl View for MbcNone {
    type V = Seq<u8>;

    closed spec fn view(&self) -> Seq<u8> {
        self.rom@
    }
}

impl MbcNone {
    /// A cartridge whose ROM holds zeros.
    pub fn new() -> (r: MbcNone)
        ensures
            r.wf(),
            r@ == Seq::new(0x8000, |i: int| 0u8),
    {
        let rom: Vec<u8> = vec![0u8; ROM_SIZE_MBC_NONE];
        let r = MbcNone { rom };
        assert(r@ =~= Seq::new(0x8000, |i: int| 0u8));
        r
    }
}

impl MemoryBankController for MbcNone {
    open spec fn wf(&self) -> bool {
        self@.len() == ROM_SIZE_MBC_NONE
    }

    /// Addresses below `0x8000` read the ROM; any other address is out of
    /// range.
    open spec fn read_spec(state: Seq<u8>, address: u16) -> Result<u8, MBCError> {
        if address < 0x8000 {
            Ok(state[address as int])
        } else {
            Err(MBCError::ROMAccessOutOfRange)
        }
    }

    /// Addresses below `0x8000` store into the ROM; any other address is out
    /// of range and changes nothing.
    open spec fn write_spec(state: Seq<u8>, address: u16, value: u8) -> (Seq<u8>, Result<(), MBCError>) {
        if address < 0x8000 {
            (state.update(address as int, value), Ok(()))
        } else {
            (state, Err(MBCError::ROMAccessOutOfRange))
        }
    }

    fn read_byte(&self, address: u16) -> (r: Result<u8, MBCError>) {
        let address = address as usize;
        if address >= ROM_SIZE_MBC_NONE {
            return Err(MBCError::ROMAccessOutOfRange);
        }
        Ok(self.rom[address])
    }

    fn write_byte(&mut self, address: u16, value: u8) -> (r: Result<(), MBCError>) {
        let address = address as usize;
        if address >= ROM_SIZE_MBC_NONE {
            return Err(MBCError::ROMAccessOutOfRange);
        }
        self.rom.set(address, value);
        Ok(())
    }
}

} // verus!
