//! Memory bank controllers: the cartridge-side logic behind the cartridge
//! address windows.
use vstd::prelude::*;

pub mod mbc_none;

pub use mbc_none::MbcNone;

verus! {

/// The error a bank controller reports.
#[derive(Debug, Clone, Copy, PartialEq, Eq, Structural)]
pub enum MBCError {
    /// An address outside the controller's addressable window.
    ROMAccessOutOfRange,
}

/// A successful outcome carries nothing.
pub proof fn lemma_ok_unit(r: Result<(), MBCError>)
    requires
        r is Ok,
    ensures
        r == Ok::<(), MBCError>(()),
{
    let u = r->Ok_0;
    assert(u == ());
}

/// A memory bank controller: serves reads and writes of the cartridge
/// windows (ROM at `0x0000..=0x7FFF`, RAM at `0xA000..=0xBFFF`).
///
/// Each controller states its behaviour over its own abstract state
/// (`Self::V`): what a read gives, and the state and outcome after a write.
pub trait MemoryBankController: View + Sized {
    /// The controller's internal invariant.
    spec fn wf(&self) -> bool;

    /// What a read of `address` gives in state `state`.
    spec fn read_spec(state: Self::V, address: u16) -> Result<u8, MBCError>;

    /// The state after writing `value` to `address`, and the outcome.
    spec fn write_spec(state: Self::V, address: u16, value: u8) -> (Self::V, Result<(), MBCError>);

    /// Reads a byte.
    fn read_byte(&self, address: u16) -> (r: Result<u8, MBCError>)
        requires
            self.wf(),
        ensures
            r == Self::read_spec(self@, address),
    ;

    /// Writes a byte.
    fn write_byte(&mut self, address: u16, value: u8) -> (r: Result<(), MBCError>)
        requires
            old(self).wf(),
        ensures
            final(self).wf(),
            (final(self)@, r) == Self::write_spec(old(self)@, address, value),
    ;
}

} // verus!
