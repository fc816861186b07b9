//! The simplest cartridge mapper: one or two fixed 16 KiB program banks and
//! either graphics ROM or 8 KiB of graphics RAM.

use vstd::prelude::*;
use crate::bits::lemma_bank_mask;
use crate::cartridge::{Cartridge, CartridgeView};

verus! {

/// First address of the window through which the processor sees program ROM.
pub const PRG_WINDOW_START: u16 = 0x8000;

/// Size of the graphics RAM that stands in for a missing graphics ROM.
pub const CHR_RAM_SIZE: usize = 0x2000;

/// What a mapper holds, as mathematical values.
pub struct MapperView {
    pub cartridge: CartridgeView,
    pub one_bank: bool,
    pub uses_character_ram: bool,
    pub character_ram: Seq<u8>,
}

impl MapperView {
    /// The mapper before a cartridge is put into it.
    pub open spec fn empty() -> MapperView {
        MapperView {
            cartridge: CartridgeView::empty(),
            one_bank: false,
            uses_character_ram: false,
            character_ram: Seq::empty(),
        }
    }

    /// The mapper that results from putting `cartridge` into a mapper whose
    /// graphics RAM held `character_ram` before.
    pub open spec fn loaded(cartridge: CartridgeView, character_ram: Seq<u8>) -> MapperView {
        MapperView {
            cartridge,
            one_bank: cartridge.prg_rom.len() == 0x4000,
            uses_character_ram: cartridge.chr_rom.len() == 0,
            character_ram: if cartridge.chr_rom.len() == 0 {
                Seq::new(0x2000, |i: int| 0u8)
            } else {
                character_ram
            },
        }
    }

    /// The flags agree with the buffers they describe.
    pub open spec fn wf(self) -> bool {
        &&& self.one_bank == (self.cartridge.prg_rom.len() == 0x4000)
        &&& self.uses_character_ram ==> self.character_ram.len() == 0x2000
    }

    /// Offset into program ROM that a processor address stands for. A lone
    /// bank shows twice in the window.
    pub open spec fn prg_index(self, addr: u16) -> int {
        if self.one_bank {
            (addr - 0x8000) % 0x4000
        } else {
            addr - 0x8000
        }
    }

    /// The address of the program window stands for a byte that program ROM
    /// holds.
    pub open spec fn covers_prg(self, addr: u16) -> bool {
        0 <= self.prg_index(addr) < self.cartridge.prg_rom.len()
    }

    /// Every address of the window falls inside program ROM.
    pub open spec fn covers_prg_window(self) -> bool {
        if self.one_bank {
            self.cartridge.prg_rom.len() >= 0x4000
        } else {
            self.cartridge.prg_rom.len() >= 0x8000
        }
    }

    /// The byte of program ROM that the processor sees at `addr`.
    pub open spec fn read_prg(self, addr: u16) -> u8 {
        self.cartridge.prg_rom[self.prg_index(addr)]
    }

    /// The graphics address falls inside the buffer that answers it.
    pub open spec fn covers_chr(self, addr: u16) -> bool {
        if self.uses_character_ram {
            addr < self.character_ram.len()
        } else {
            addr < self.cartridge.chr_rom.len()
        }
    }

    /// The byte of graphics RAM or ROM at `addr`.
    pub open spec fn read_chr(self, addr: u16) -> u8 {
        if self.uses_character_ram {
            self.character_ram[addr as int]
        } else {
            self.cartridge.chr_rom[addr as int]
        }
    }

    /// Graphics RAM takes the byte; graphics ROM ignores it.
    pub open spec fn write_chr(self, addr: u16, value: u8) -> MapperView {
        if self.uses_character_ram {
            MapperView { character_ram: self.character_ram.update(addr as int, value), ..self }
        } else {
            self
        }
    }
}

/// The mapper and the cartridge it holds.
pub struct Mapper {
    cartridge: Cartridge,
    one_bank: bool,
    uses_character_ram: bool,
    character_ram: Vec<u8>,
}

impl View for Mapper {
    type V = MapperView;

    closed spec fn view(&self) -> MapperView {
        MapperView {
            cartridge: self.cartridge@,
            one_bank: self.one_bank,
            uses_character_ram: self.uses_character_ram,
            character_ram: self.character_ram@,
        }
    }
}

impl Mapper {
    /// A mapper without a cartridge.
    pub fn new() -> (m: Self)
        ensures
            m@ == MapperView::empty(),
            m@.wf(),
    {
        Mapper {
            cartridge: Cartridge::new(),
            one_bank: false,
            uses_character_ram: false,
            character_ram: Vec::new(),
        }
    }

    /// Takes the cartridge and derives the two flags from its buffers. A
    /// cartridge without graphics ROM gets 8 KiB of zeroed graphics RAM.
    pub fn load(&mut self, cartridge: Cartridge)
        ensures
            final(self)@ == MapperView::loaded(cartridge@, old(self)@.character_ram),
            final(self)@.wf(),
    {
        self.one_bank = cartridge.get_rom().len() == 0x4000;
        if cartridge.get_vrom().len() == 0 {
            self.uses_character_ram = true;
            self.character_ram = vec![0u8; CHR_RAM_SIZE];
            assert(self.character_ram@ =~= Seq::new(0x2000, |i: int| 0u8));
        } else {
            self.uses_character_ram = false;
        }
        self.cartridge = cartridge;
    }

    /// Program ROM cannot be written: the call leaves the mapper as it was
    /// and says that the byte was refused, so that the caller can report it.
    pub fn write_prg(&mut self, addr: u16, value: u8) -> (refused: bool)
        ensures
            refused,
            *final(self) == *old(self),
    {
        true
    }

    /// The byte of program ROM that the processor sees at `addr`.
    pub fn read_prg(&self, addr: u16) -> (value: u8)
        requires
            addr >= 0x8000,
            self@.covers_prg(addr),
        ensures
            value == self@.read_prg(addr),
    {
        let offset: u16 = addr - PRG_WINDOW_START;
        if !self.one_bank {
            self.cartridge.get_rom()[offset as usize]
        } else {
            proof {
                lemma_bank_mask(offset);
            }
            self.cartridge.get_rom()[(offset & 0x3fff) as usize]
        }
    }

    /// Writes to graphics RAM. Graphics ROM refuses the byte, and the call
    /// says so, so that the caller can report it.
    pub fn write_chr(&mut self, addr: u16, value: u8) -> (refused: bool)
        requires
            old(self)@.uses_character_ram ==> addr < old(self)@.character_ram.len(),
        ensures
            refused == !old(self)@.uses_character_ram,
            final(self)@ == old(self)@.write_chr(addr, value),
            old(self)@.wf() ==> final(self)@.wf(),
    {
        if self.uses_character_ram {
            self.character_ram[addr as usize] = value;
            false
        } else {
            true
        }
    }

    /// The byte of graphics RAM or ROM at `addr`.
    pub fn read_chr(&self, addr: u16) -> (value: u8)
        requires
            self@.covers_chr(addr),
        ensures
            value == self@.read_chr(addr),
    {
        if self.uses_character_ram {
            self.character_ram[addr as usize]
        } else {
            self.cartridge.get_vrom()[addr as usize]
        }
    }

    /// Whether program ROM holds a byte for the address `addr` of the
    /// program window.
    pub fn covers_prg(&self, addr: u16) -> (b: bool)
        requires
            addr >= 0x8000,
        ensures
            b == self@.covers_prg(addr),
    {
        let offset: u16 = addr - PRG_WINDOW_START;
        if !self.one_bank {
            (offset as usize) < self.cartridge.get_rom().len()
        } else {
            proof {
                lemma_bank_mask(offset);
            }
            ((offset & 0x3fff) as usize) < self.cartridge.get_rom().len()
        }
    }

    /// Whether program ROM answers every address of the program window.
    pub fn covers_prg_window(&self) -> (b: bool)
        ensures
            b == self@.covers_prg_window(),
    {
        if self.one_bank {
            self.cartridge.get_rom().len() >= 0x4000
        } else {
            self.cartridge.get_rom().len() >= 0x8000
        }
    }

    /// Whether graphics RAM stands in for a graphics ROM that the cartridge
    /// does not have.
    pub fn uses_character_ram(&self) -> (b: bool)
        ensures
            b == self@.uses_character_ram,
    {
        self.uses_character_ram
    }

    /// Whether the cartridge in the mapper carries extended work RAM.
    pub fn has_extended_ram(&self) -> (b: bool)
        ensures
            b == self@.cartridge.extended_ram,
    {
        self.cartridge.has_extended_ram()
    }
}

/// Where program ROM covers the window, every address of the window stands
/// for an offset inside it.
pub proof fn lemma_window_covered(m: MapperView, addr: u16)
    requires
        m.covers_prg_window(),
        addr >= 0x8000,
    ensures
        m.covers_prg(addr),
{
}

/// A cartridge with a single 16 KiB program bank shows the same byte in both
/// halves of the program window.
pub proof fn lemma_single_bank_mirrors(m: MapperView, k: u16)
    requires
        m.wf(),
        m.cartridge.prg_rom.len() == 0x4000,
        k < 0x4000,
    ensures
        m.read_prg((0x8000 + k) as u16) == m.read_prg((0xC000 + k) as u16),
{
}

} // verus!
