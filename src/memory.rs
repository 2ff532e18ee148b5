//! The memory bus: decodes a 16-bit address into the store behind it.
//!
//! | range           | store                                   |
//! |-----------------|-----------------------------------------|
//! | `0x0000..=0x7FFF` | cartridge ROM, through the bank controller |
//! | `0x8000..=0x9FFF` | video RAM                               |
//! | `0xA000..=0xBFFF` | cartridge RAM, through the bank controller |
//! | `0xC000..=0xDFFF` | working RAM                             |
//! | `0xE000..=0xFDFF` | echo of working RAM `0xC000..=0xDDFF`   |
//! | `0xFE00..=0xFE9F` | object attribute memory                 |
//! | `0xFEA0..=0xFEFF` | unusable: reads 0, writes are ignored   |
//! | `0xFF00..=0xFF7F` | I/O registers                           |
//! | `0xFF80..=0xFFFE` | high RAM                                |
//! | `0xFFFF`          | interrupt-enable flag                   |
use vstd::prelude::*;

pub mod mbc;

use mbc::{lemma_ok_unit, MBCError, MbcNone, MemoryBankController};
use crate::utils::{bytes_to_word, high_byte, low_byte, word, word_to_bytes};

verus! {

/// Size of the video RAM.
pub const VRAM_SIZE: usize = 0x2000;

/// Size of the working RAM.
pub const WRAM_SIZE: usize = 0x2000;

/// Size of the object attribute memory.
pub const OAM_SIZE: usize = 0xA0;

/// Size of the I/O register block.
pub const REGS_SIZE: usize = 0x80;

/// Size of the high RAM.
pub const HRAM_SIZE: usize = 0x7F;

/// The store an address resolves to, with the offset into it.
pub enum Region {
    Cartridge,
    VideoRam(int),
    WorkRam(int),
    Oam(int),
    Unusable,
    Io(int),
    HighRam(int),
    InterruptEnable,
}

/// Decodes an address into its store.
pub open spec fn region(address: u16) -> Region {
    if address <= 0x7FFF {
        Region::Cartridge
    } else if address <= 0x9FFF {
        Region::VideoRam(address - 0x8000)
    } else if address <= 0xBFFF {
        Region::Cartridge
    } else if address <= 0xDFFF {
        Region::WorkRam(address - 0xC000)
    } else if address <= 0xFDFF {
        Region::WorkRam(address - 0xE000)
    } else if address <= 0xFE9F {
        Region::Oam(address - 0xFE00)
    } else if address <= 0xFEFF {
        Region::Unusable
    } else if address <= 0xFF7F {
        Region::Io(address - 0xFF00)
    } else if address <= 0xFFFE {
        Region::HighRam(address - 0xFF80)
    } else {
        Region::InterruptEnable
    }
}

/// The contents of the bus: the bank controller's state and every store.
pub struct MemoryState<C> {
    pub cart: C,
    pub vram: Seq<u8>,
    pub wram: Seq<u8>,
    pub oam: Seq<u8>,
    pub io: Seq<u8>,
    pub hram: Seq<u8>,
    pub ie: bool,
}

impl<C> MemoryState<C> {
    /// Each store has its size.
    pub open spec fn sized(self) -> bool {
        &&& self.vram.len() == VRAM_SIZE
        &&& self.wram.len() == WRAM_SIZE
        &&& self.oam.len() == OAM_SIZE
        &&& self.io.len() == REGS_SIZE
        &&& self.hram.len() == HRAM_SIZE
    }
}

/// What a read of `address` gives.
pub open spec fn bus_read<M: MemoryBankController>(s: MemoryState<M::V>, address: u16) -> Result<
    u8,
    MBCError,
> {
    match region(address) {
        Region::Cartridge => M::read_spec(s.cart, address),
        Region::VideoRam(i) => Ok(s.vram[i]),
        Region::WorkRam(i) => Ok(s.wram[i]),
        Region::Oam(i) => Ok(s.oam[i]),
        Region::Unusable => Ok(0),
        Region::Io(i) => Ok(s.io[i]),
        Region::HighRam(i) => Ok(s.hram[i]),
        Region::InterruptEnable => Ok(
            if s.ie {
                1
            } else {
                0
            },
        ),
    }
}

/// The bus after writing `value` to `address`, and the outcome.
pub open spec fn bus_write<M: MemoryBankController>(
    s: MemoryState<M::V>,
    address: u16,
    value: u8,
) -> (MemoryState<M::V>, Result<(), MBCError>) {
    match region(address) {
        Region::Cartridge => {
            let (cart, r) = M::write_spec(s.cart, address, value);
            (MemoryState { cart, ..s }, r)
        },
        Region::VideoRam(i) => (MemoryState { vram: s.vram.update(i, value), ..s }, Ok(())),
        Region::WorkRam(i) => (MemoryState { wram: s.wram.update(i, value), ..s }, Ok(())),
        Region::Oam(i) => (MemoryState { oam: s.oam.update(i, value), ..s }, Ok(())),
        Region::Unusable => (s, Ok(())),
        Region::Io(i) => (MemoryState { io: s.io.update(i, value), ..s }, Ok(())),
        Region::HighRam(i) => (MemoryState { hram: s.hram.update(i, value), ..s }, Ok(())),
        Region::InterruptEnable => (MemoryState { ie: value & 1 == 1, ..s }, Ok(())),
    }
}

/// The address after `address`, wrapping from `0xFFFF` to `0x0000`.
pub open spec fn next_address(address: u16) -> u16 {
    if address == 0xFFFF {
        0
    } else {
        (address + 1) as u16
    }
}

/// What a little-endian word read at `address` gives: the low byte at
/// `address`, the high byte at the next address.
pub open spec fn bus_read_word<M: MemoryBankController>(
    s: MemoryState<M::V>,
    address: u16,
) -> Result<u16, MBCError> {
    match bus_read::<M>(s, address) {
        Err(e) => Err(e),
        Ok(low) => match bus_read::<M>(s, next_address(address)) {
            Err(e) => Err(e),
            Ok(high) => Ok(word(high, low)),
        },
    }
}

/// The bus after a little-endian word write at `address`: the low byte first,
/// then, if that succeeded, the high byte at the next address.
pub open spec fn bus_write_word<M: MemoryBankController>(
    s: MemoryState<M::V>,
    address: u16,
    value: u16,
) -> (MemoryState<M::V>, Result<(), MBCError>) {
    let (s1, r1) = bus_write::<M>(s, address, low_byte(value));
    match r1 {
        Err(e) => (s1, Err(e)),
        Ok(_) => bus_write::<M>(s1, next_address(address), high_byte(value)),
    }
}

/// The controller after loading `data` byte by byte from address 0 through
/// its write path, and the outcome: the first error stops the load, and an
/// image longer than the 16-bit address space fails at its first byte past
/// it.
pub open spec fn load_spec<M: MemoryBankController>(cart: M::V, data: Seq<u8>) -> (
    M::V,
    Result<(), MBCError>,
)
    decreases data.len(),
{
    if data.len() == 0 {
        (cart, Ok(()))
    } else {
        let (before, r) = load_spec::<M>(cart, data.drop_last());
        let i = data.len() - 1;
        if r is Err {
            (before, r)
        } else if i > 0xFFFF {
            (before, Err(MBCError::ROMAccessOutOfRange))
        } else {
            M::write_spec(before, i as u16, data.last())
        }
    }
}

/// Loading one more byte of an image whose prefix loaded.
proof fn lemma_load_step<M: MemoryBankController>(cart: M::V, data: Seq<u8>, i: int)
    requires
        0 <= i < data.len(),
        load_spec::<M>(cart, data.take(i)).1 is Ok,
    ensures
        load_spec::<M>(cart, data.take(i + 1)) == if i > 0xFFFF {
            (load_spec::<M>(cart, data.take(i)).0, Err(MBCError::ROMAccessOutOfRange))
        } else {
            M::write_spec(load_spec::<M>(cart, data.take(i)).0, i as u16, data[i])
        },
{
    let t = data.take(i + 1);
    assert(t.drop_last() =~= data.take(i));
    assert(t.last() == data[i]);
}

/// Once a prefix of an image fails to load, the whole image fails the same
/// way.
proof fn lemma_load_stops<M: MemoryBankController>(cart: M::V, data: Seq<u8>, k: int)
    requires
        0 <= k <= data.len(),
        load_spec::<M>(cart, data.take(k)).1 is Err,
    ensures
        load_spec::<M>(cart, data) == load_spec::<M>(cart, data.take(k)),
    decreases data.len() - k,
{
    if k < data.len() {
        assert(data.take(k + 1).drop_last() =~= data.take(k));
        lemma_load_stops::<M>(cart, data, k + 1);
    } else {
        assert(data.take(k) =~= data);
    }
}

/// Whether an address is a plain storage cell of the bus: video RAM, working
/// RAM or its echo, object attribute memory, I/O registers or high RAM.
pub open spec fn is_storage(address: u16) -> bool {
    match region(address) {
        Region::VideoRam(_) | Region::WorkRam(_) | Region::Oam(_) | Region::Io(_) | Region::HighRam(
            _,
        ) => true,
        _ => false,
    }
}

/// A word written where both its bytes land in plain storage reads back: as
/// a word, and byte by byte with the low byte first.
pub proof fn law_word_round_trip<M: MemoryBankController>(
    s: MemoryState<M::V>,
    address: u16,
    value: u16,
)
    requires
        s.sized(),
        is_storage(address),
        is_storage(next_address(address)),
    ensures
        bus_write_word::<M>(s, address, value).1 is Ok,
        bus_read_word::<M>(bus_write_word::<M>(s, address, value).0, address) == Ok::<
            u16,
            MBCError,
        >(value),
        bus_read::<M>(bus_write_word::<M>(s, address, value).0, address) == Ok::<u8, MBCError>(
            low_byte(value),
        ),
        bus_read::<M>(bus_write_word::<M>(s, address, value).0, next_address(address)) == Ok::<
            u8,
            MBCError,
        >(high_byte(value)),
{
    crate::utils::lemma_word_split(value);
}

/// On a cartridge without bank controller, a word written below `0x7FFF`
/// lands in ROM and reads back, as a word and byte by byte.
pub proof fn law_word_round_trip_rom(s: MemoryState<Seq<u8>>, address: u16, value: u16)
    requires
        s.cart.len() == 0x8000,
        address < 0x7FFF,
    ensures
        bus_write_word::<MbcNone>(s, address, value).1 is Ok,
        bus_read_word::<MbcNone>(bus_write_word::<MbcNone>(s, address, value).0, address) == Ok::<
            u16,
            MBCError,
        >(value),
        bus_read::<MbcNone>(bus_write_word::<MbcNone>(s, address, value).0, address) == Ok::<
            u8,
            MBCError,
        >(low_byte(value)),
        bus_read::<MbcNone>(bus_write_word::<MbcNone>(s, address, value).0, next_address(address))
            == Ok::<u8, MBCError>(high_byte(value)),
{
    crate::utils::lemma_word_split(value);
}

/// The memory bus, generic over the cartridge's bank controller.
pub struct Mmu<M> {
    pub(crate) vram: Vec<u8>,
    pub(crate) wram: Vec<u8>,
    pub(crate) oam: Vec<u8>,
    pub(crate) io_registers: Vec<u8>,
    pub(crate) hram: Vec<u8>,
    pub(crate) interrupt_enable: bool,
    pub(crate) mbc: M,
}

impl<M: MemoryBankController> View for Mmu<M> {
    type V = MemoryState<M::V>;

    closed spec fn view(&self) -> MemoryState<M::V> {
        MemoryState {
            cart: self.mbc@,
            vram: self.vram@,
            wram: self.wram@,
            oam: self.oam@,
            io: self.io_registers@,
            hram: self.hram@,
            ie: self.interrupt_enable,
        }
    }
}

impl Mmu<MbcNone> {
    /// A bus with a cartridge without bank controller, every store zeroed and
    /// interrupts disabled.
    pub fn new() -> (r: Mmu<MbcNone>)
        ensures
            r.wf(),
            r@.cart == Seq::new(0x8000, |i: int| 0u8),
            r@.vram == Seq::new(VRAM_SIZE as nat, |i: int| 0u8),
            r@.wram == Seq::new(WRAM_SIZE as nat, |i: int| 0u8),
            r@.oam == Seq::new(OAM_SIZE as nat, |i: int| 0u8),
            r@.io == Seq::new(REGS_SIZE as nat, |i: int| 0u8),
            r@.hram == Seq::new(HRAM_SIZE as nat, |i: int| 0u8),
            !r@.ie,
    {
        Mmu::with_controller(MbcNone::new())
    }
}

impl<M: MemoryBankController> Mmu<M> {
    /// The stores have their sizes and the controller is well formed.
    pub open(crate) spec fn wf(&self) -> bool {
        self@.sized() && self.mbc.wf()
    }

    /// A bus over the given bank controller, every store zeroed and
    /// interrupts disabled.
    pub fn with_controller(mbc: M) -> (r: Mmu<M>)
        requires
            mbc.wf(),
        ensures
            r.wf(),
            r@.cart == mbc@,
            r@.vram == Seq::new(VRAM_SIZE as nat, |i: int| 0u8),
            r@.wram == Seq::new(WRAM_SIZE as nat, |i: int| 0u8),
            r@.oam == Seq::new(OAM_SIZE as nat, |i: int| 0u8),
            r@.io == Seq::new(REGS_SIZE as nat, |i: int| 0u8),
            r@.hram == Seq::new(HRAM_SIZE as nat, |i: int| 0u8),
            !r@.ie,
    {
        let r = Mmu {
            vram: vec![0u8; VRAM_SIZE],
            wram: vec![0u8; WRAM_SIZE],
            oam: vec![0u8; OAM_SIZE],
            io_registers: vec![0u8; REGS_SIZE],
            hram: vec![0u8; HRAM_SIZE],
            interrupt_enable: false,
            mbc,
        };
        assert(r@.vram =~= Seq::new(VRAM_SIZE as nat, |i: int| 0u8));
        assert(r@.wram =~= Seq::new(WRAM_SIZE as nat, |i: int| 0u8));
        assert(r@.oam =~= Seq::new(OAM_SIZE as nat, |i: int| 0u8));
        assert(r@.io =~= Seq::new(REGS_SIZE as nat, |i: int| 0u8));
        assert(r@.hram =~= Seq::new(HRAM_SIZE as nat, |i: int| 0u8));
        r
    }

    /// Reads a byte from the bus.
    pub fn read_byte(&self, address: u16) -> (r: Result<u8, MBCError>)
        requires
            self.wf(),
        ensures
            r == bus_read::<M>(self@, address),
    {
        if address <= 0x7FFF {
            self.mbc.read_byte(address)
        } else if address <= 0x9FFF {
            Ok(self.vram[(address - 0x8000) as usize])
        } else if address <= 0xBFFF {
            self.mbc.read_byte(address)
        } else if address <= 0xDFFF {
            Ok(self.wram[(address - 0xC000) as usize])
        } else if address <= 0xFDFF {
            Ok(self.wram[(address - 0xE000) as usize])
        } else if address <= 0xFE9F {
            Ok(self.oam[(address - 0xFE00) as usize])
        } else if address <= 0xFEFF {
            Ok(0)
        } else if address <= 0xFF7F {
            Ok(self.io_registers[(address - 0xFF00) as usize])
        } else if address <= 0xFFFE {
            Ok(self.hram[(address - 0xFF80) as usize])
        } else if self.interrupt_enable {
            Ok(1)
        } else {
            Ok(0)
        }
    }

    /// Reads a little-endian word: the low byte at `address`, the high byte at
    /// the next address.
    pub fn read_word(&self, address: u16) -> (r: Result<u16, MBCError>)
        requires
            self.wf(),
        ensures
            r == bus_read_word::<M>(self@, address),
    {
        let low = match self.read_byte(address) {
            Ok(b) => b,
            Err(e) => return Err(e),
        };
        let high = match self.read_byte(address.wrapping_add(1)) {
            Ok(b) => b,
            Err(e) => return Err(e),
        };
        Ok(bytes_to_word(high, low))
    }

    /// Writes a byte to the bus; an error of the bank controller is handed
    /// back.
    pub fn write_byte(&mut self, address: u16, value: u8) -> (r: Result<(), MBCError>)
        requires
            old(self).wf(),
        ensures
            final(self).wf(),
            (final(self)@, r) == bus_write::<M>(old(self)@, address, value),
    {
        if address <= 0x7FFF {
            self.mbc.write_byte(address, value)
        } else if address <= 0x9FFF {
            self.vram.set((address - 0x8000) as usize, value);
            Ok(())
        } else if address <= 0xBFFF {
            self.mbc.write_byte(address, value)
        } else if address <= 0xDFFF {
            self.wram.set((address - 0xC000) as usize, value);
            Ok(())
        } else if address <= 0xFDFF {
            self.wram.set((address - 0xE000) as usize, value);
            Ok(())
        } else if address <= 0xFE9F {
            self.oam.set((address - 0xFE00) as usize, value);
            Ok(())
        } else if address <= 0xFEFF {
            Ok(())
        } else if address <= 0xFF7F {
            self.io_registers.set((address - 0xFF00) as usize, value);
            Ok(())
        } else if address <= 0xFFFE {
            self.hram.set((address - 0xFF80) as usize, value);
            Ok(())
        } else {
            self.interrupt_enable = value & 1 == 1;
            Ok(())
        }
    }

    /// Writes a little-endian word: the low byte at `address`, then the high
    /// byte at the next address.
    pub fn write_word(&mut self, address: u16, value: u16) -> (r: Result<(), MBCError>)
        requires
            old(self).wf(),
        ensures
            final(self).wf(),
            (final(self)@, r) == bus_write_word::<M>(old(self)@, address, value),
    {
        let (high, low) = word_to_bytes(value);
        match self.write_byte(address, low) {
            Ok(_) => {},
            Err(e) => return Err(e),
        }
        self.write_byte(address.wrapping_add(1), high)
    }

    /// Loads a program image: its bytes are written in order from address 0
    /// through the bank controller's write path, stopping at the first error.
    pub fn load_rom(&mut self, data: Vec<u8>) -> (r: Result<(), MBCError>)
        requires
            old(self).wf(),
        ensures
            final(self).wf(),
            final(self)@ == (MemoryState { cart: load_spec::<M>(old(self)@.cart, data@).0, ..old(self)@ }),
            r == load_spec::<M>(old(self)@.cart, data@).1,
    {
        let ghost start = old(self)@;
        let mut i: usize = 0;
        assert(data@.take(0) =~= Seq::<u8>::empty());
        while i < data.len()
            invariant
                self.wf(),
                i <= data.len(),
                start == old(self)@,
                load_spec::<M>(start.cart, data@.take(i as int)).0 == self.mbc@,
                load_spec::<M>(start.cart, data@.take(i as int)).1 is Ok,
                self@ == (MemoryState { cart: self.mbc@, ..start }),
            decreases data.len() - i,
        {
            proof {
                lemma_load_step::<M>(start.cart, data@, i as int);
            }
            if i > 0xFFFF {
                proof {
                    lemma_load_stops::<M>(start.cart, data@, i + 1);
                }
                return Err(MBCError::ROMAccessOutOfRange);
            }
            let res = self.mbc.write_byte(i as u16, data[i]);
            match res {
                Ok(_) => {},
                Err(e) => {
                    proof {
                        lemma_load_stops::<M>(start.cart, data@, i + 1);
                    }
                    return Err(e);
                },
            }
            i += 1;
        }
        assert(data@.take(i as int) =~= data@);
        proof {
            lemma_ok_unit(load_spec::<M>(start.cart, data@).1);
        }
        Ok(())
    }
}

} // verus!
