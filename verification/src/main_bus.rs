//! The processor's view of memory: 2 KiB of work RAM shown four times in the
//! lowest 8 KiB, the cartridge's program ROM in the upper half, and between
//! them a range kept for devices that are not there yet.

use vstd::prelude::*;
use crate::bits::{lemma_ram_mask, lemma_word_bits};
use crate::cartridge::{Cartridge, CartridgeView};
use crate::mapper::{lemma_window_covered, Mapper, MapperView};

verus! {

/// First address past the mirrored work RAM.
pub const RAM_WINDOW_END: u16 = 0x2000;

/// First address answered by the mapper.
pub const ROM_WINDOW_START: u16 = 0x8000;

/// Size of the extended work RAM of cartridges that carry one.
pub const EXT_RAM_SIZE: usize = 0x2000;

/// The 16-bit value whose low byte is `lo` and whose high byte is `hi`.
pub open spec fn word(lo: u8, hi: u8) -> u16 {
    (lo + 256 * hi) as u16
}

/// The address after `addr`, the last one followed by the first.
pub open spec fn next_addr(addr: u16) -> u16 {
    if addr == 0xFFFF {
        0
    } else {
        (addr + 1) as u16
    }
}

/// The work-RAM cell that answers an address below 0x2000: the window shows
/// the 2 KiB four times.
pub open spec fn ram_index(addr: u16) -> int {
    (addr % 0x800) as int
}

/// `bytes` cut or zero-filled to `len` bytes.
pub open spec fn resized(bytes: Seq<u8>, len: nat) -> Seq<u8> {
    Seq::new(len, |i: int| if i < bytes.len() { bytes[i] } else { 0u8 })
}

/// What the bus holds, as mathematical values.
pub struct BusView {
    pub ram: Seq<u8>,
    pub ext_ram: Seq<u8>,
    pub cartridge: CartridgeView,
    pub mapper: MapperView,
}

impl BusView {
    /// Work RAM has its 2 KiB, and the mapper's flags agree with its buffers.
    pub open spec fn wf(self) -> bool {
        &&& self.ram.len() == 0x800
        &&& self.mapper.wf()
    }

    /// Every address can be read: the mapper answers the whole program window.
    pub open spec fn mapped(self) -> bool {
        self.mapper.covers_prg_window()
    }

    /// The byte at `addr` can be read: below the program window every
    /// address can, and inside it those for which program ROM holds a byte.
    pub open spec fn readable(self, addr: u16) -> bool {
        addr >= 0x8000 ==> self.mapper.covers_prg(addr)
    }

    /// The word at `addr` can be read: its low byte at `addr` and its high
    /// byte at the address after it.
    pub open spec fn readable16(self, addr: u16) -> bool {
        self.readable(addr) && self.readable(next_addr(addr))
    }

    /// The byte that a read at `addr` returns. The device range reads as
    /// zero.
    pub open spec fn read(self, addr: u16) -> u8 {
        if addr < 0x2000 {
            self.ram[ram_index(addr)]
        } else if addr >= 0x8000 {
            self.mapper.read_prg(addr)
        } else {
            0
        }
    }

    /// Only work RAM takes a byte. Device registers are not there yet, and
    /// the mapper ignores what is written to program ROM.
    pub open spec fn write(self, addr: u16, value: u8) -> BusView {
        if addr < 0x2000 {
            BusView { ram: self.ram.update(ram_index(addr), value), ..self }
        } else {
            self
        }
    }

    /// Nothing but work RAM tells this bus from `before`: extended RAM,
    /// cartridge and mapper are the same.
    pub open spec fn keeps_devices(self, before: BusView) -> bool {
        &&& self.ext_ram == before.ext_ram
        &&& self.cartridge == before.cartridge
        &&& self.mapper == before.mapper
    }

    /// The little-endian word at `addr` and the address after it.
    pub open spec fn read_address16(self, addr: u16) -> u16 {
        word(self.read(addr), self.read(next_addr(addr)))
    }

    /// The bus after `mapper` is put into it.
    pub open spec fn with_mapper(self, mapper: MapperView) -> BusView {
        BusView {
            mapper,
            ext_ram: if mapper.cartridge.extended_ram {
                resized(self.ext_ram, 0x2000)
            } else {
                self.ext_ram
            },
            ..self
        }
    }
}

/// The bus: work RAM, extended work RAM, and the mapper that answers for
/// the cartridge.
pub struct MainBus {
    m_ram: [u8; 0x800],
    m_ext_ram: Vec<u8>,
    cartridge: Cartridge,
    mapper: Mapper,
}

impl View for MainBus {
    type V = BusView;

    closed spec fn view(&self) -> BusView {
        BusView {
            ram: self.m_ram@,
            ext_ram: self.m_ext_ram@,
            cartridge: self.cartridge@,
            mapper: self.mapper@,
        }
    }
}

impl MainBus {
    /// A bus with zeroed work RAM and a mapper without a cartridge.
    pub fn new() -> (bus: MainBus)
        ensures
            bus@.ram == Seq::new(0x800, |i: int| 0u8),
            bus@.ext_ram == Seq::<u8>::empty(),
            bus@.cartridge == CartridgeView::empty(),
            bus@.mapper == MapperView::empty(),
            bus@.wf(),
    {
        let bus = MainBus {
            m_ram: [0; 0x800],
            m_ext_ram: Vec::new(),
            cartridge: Cartridge::new(),
            mapper: Mapper::new(),
        };
        assert(bus.m_ram@ =~= Seq::new(0x800, |i: int| 0u8));
        bus
    }

    /// Keeps `cartridge` beside the bus. Reads and writes go to the mapper,
    /// not to this cartridge.
    pub fn load(&mut self, cartridge: Cartridge)
        ensures
            final(self)@ == (BusView { cartridge: cartridge@, ..old(self)@ }),
    {
        self.cartridge = cartridge;
    }

    /// Takes the mapper, and makes room for extended work RAM where its
    /// cartridge has some.
    pub fn set_mapper(&mut self, mapper: Mapper) -> (done: bool)
        ensures
            done,
            final(self)@ == old(self)@.with_mapper(mapper@),
    {
        self.mapper = mapper;
        if self.mapper.has_extended_ram() {
            self.m_ext_ram.resize(EXT_RAM_SIZE, 0);
            assert(self.m_ext_ram@ =~= resized(old(self).m_ext_ram@, 0x2000));
        }
        true
    }

    /// Whether every address can be read.
    pub fn is_mapped(&self) -> (b: bool)
        ensures
            b == self@.mapped(),
    {
        self.mapper.covers_prg_window()
    }

    /// Reads the byte at `addr`: from work RAM below 0x2000, from the mapper
    /// from 0x8000 on, and zero between them.
    pub fn read(&self, addr: u16) -> (value: u8)
        requires
            self@.wf(),
            self@.readable(addr),
        ensures
            value == self@.read(addr),
    {
        if addr < RAM_WINDOW_END {
            proof {
                lemma_ram_mask(addr);
            }
            return self.m_ram[(addr & 0x7FF) as usize];
        }
        if addr >= ROM_WINDOW_START {
            return self.mapper.read_prg(addr);
        }
        0
    }

    /// Whether the byte at `addr` can be read.
    pub fn is_readable(&self, addr: u16) -> (b: bool)
        ensures
            b == self@.readable(addr),
    {
        addr < ROM_WINDOW_START || self.mapper.covers_prg(addr)
    }

    /// Writes the byte at `addr`: into work RAM below 0x2000; from 0x8000 on
    /// the mapper is told, keeps its ROM and refuses the byte; between them
    /// nothing listens. Says whether the mapper refused the byte.
    pub fn write(&mut self, addr: u16, value: u8) -> (refused: bool)
        requires
            old(self)@.wf(),
        ensures
            refused == (addr >= 0x8000),
            final(self)@ == old(self)@.write(addr, value),
            final(self)@.wf(),
            final(self)@.keeps_devices(old(self)@),
    {
        if addr < RAM_WINDOW_END {
            proof {
                lemma_ram_mask(addr);
            }
            self.m_ram[(addr & 0x7FF) as usize] = value;
            false
        } else if addr >= ROM_WINDOW_START {
            self.mapper.write_prg(addr, value)
        } else {
            false
        }
    }

    /// Reads the low byte at `addr` and the high byte at the address after it.
    pub fn read_address16(&self, addr: u16) -> (value: u16)
        requires
            self@.wf(),
            self@.readable16(addr),
        ensures
            value == self@.read_address16(addr),
    {
        let lo = self.read(addr);
        let hi = self.read(addr.wrapping_add(1));
        proof {
            lemma_word_bits(lo, hi);
        }
        (lo as u16) | ((hi as u16) << 8)
    }
}

/// On a bus whose mapper answers the whole program window, every byte and
/// every word can be read.
pub proof fn lemma_mapped_readable(bus: BusView, addr: u16)
    requires
        bus.mapped(),
    ensures
        bus.readable(addr),
        bus.readable16(addr),
{
    if addr >= 0x8000 {
        lemma_window_covered(bus.mapper, addr);
    }
    if next_addr(addr) >= 0x8000 {
        lemma_window_covered(bus.mapper, next_addr(addr));
    }
}

/// A byte written below 0x2000 is read back at every address below 0x2000
/// that has the same low eleven bits.
pub proof fn lemma_ram_mirroring(bus: BusView, a1: u16, a2: u16, value: u8)
    requires
        bus.wf(),
        a1 < 0x2000,
        a2 < 0x2000,
        a1 & 0x7FF == a2 & 0x7FF,
    ensures
        bus.write(a1, value).read(a2) == value,
{
    lemma_ram_mask(a1);
    lemma_ram_mask(a2);
}

/// A write changes nothing at an address that is no mirror of the written
/// one.
pub proof fn lemma_write_elsewhere(bus: BusView, a1: u16, a2: u16, value: u8)
    requires
        bus.wf(),
        !(a1 < 0x2000 && a2 < 0x2000 && a1 & 0x7FF == a2 & 0x7FF),
    ensures
        bus.write(a1, value).read(a2) == bus.read(a2),
{
    lemma_ram_mask(a1);
    lemma_ram_mask(a2);
}

} // verus!
