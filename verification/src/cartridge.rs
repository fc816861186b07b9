//! Cartridge images: the bytes of a program ROM and a graphics ROM with the
//! few facts the header records about them.

use vstd::prelude::*;
use vstd::slice::{slice_subrange, slice_to_vec};
use crate::bits::lemma_header_bits;

verus! {

/// Size of one program-ROM bank.
pub const PRG_BANK_SIZE: usize = 0x4000;

/// Size of one graphics-ROM bank.
pub const CHR_BANK_SIZE: usize = 0x2000;

/// Length of the image header.
pub const HEADER_SIZE: usize = 16;

/// What a cartridge holds, as mathematical values.
pub struct CartridgeView {
    pub prg_rom: Seq<u8>,
    pub chr_rom: Seq<u8>,
    pub name_table_mirroring: u8,
    pub mapper_number: u8,
    pub extended_ram: bool,
}

impl CartridgeView {
    /// The cartridge before anything is loaded into it.
    pub open spec fn empty() -> CartridgeView {
        CartridgeView {
            prg_rom: Seq::empty(),
            chr_rom: Seq::empty(),
            name_table_mirroring: 0,
            mapper_number: 0,
            extended_ram: false,
        }
    }

    /// Both buffers are made of whole banks.
    pub open spec fn wf(self) -> bool {
        &&& self.prg_rom.len() % 0x4000 == 0
        &&& self.chr_rom.len() % 0x2000 == 0
    }
}

/// Why an image was refused.
#[derive(Clone, Copy, Debug, PartialEq, Eq)]
pub enum LoadError {
    /// The image ends inside its 16-byte header.
    TruncatedHeader,
    /// The image does not begin with the four signature bytes.
    BadSignature,
    /// The header announces no program-ROM bank.
    NoPrgBanks,
    /// The header announces a trainer.
    TrainerUnsupported,
    /// The header announces a television system other than NTSC.
    PalUnsupported,
    /// The image ends inside its program ROM.
    TruncatedPrg,
    /// The image ends inside its graphics ROM.
    TruncatedChr,
}

impl LoadError {
    /// The words that describe the error, as a sequence of characters.
    pub open spec fn text(self) -> Seq<char> {
        match self {
            LoadError::TruncatedHeader => "Reading iNES header failed."@,
            LoadError::BadSignature => "Not a valid iNES image."@,
            LoadError::NoPrgBanks => "ROM has no PRG-ROM banks. Loading ROM failed."@,
            LoadError::TrainerUnsupported => "Trainer is not supported."@,
            LoadError::PalUnsupported => "PAL ROM not supported."@,
            LoadError::TruncatedPrg => "Reading PRG-ROM from image file failed."@,
            LoadError::TruncatedChr => "Reading CHR-ROM from image file failed."@,
        }
    }

    /// The words that describe the error.
    pub fn message(&self) -> (words: String)
        ensures
            words@ == self.text(),
    {
        match self {
            LoadError::TruncatedHeader => "Reading iNES header failed.".to_owned(),
            LoadError::BadSignature => "Not a valid iNES image.".to_owned(),
            LoadError::NoPrgBanks => "ROM has no PRG-ROM banks. Loading ROM failed.".to_owned(),
            LoadError::TrainerUnsupported => "Trainer is not supported.".to_owned(),
            LoadError::PalUnsupported => "PAL ROM not supported.".to_owned(),
            LoadError::TruncatedPrg => "Reading PRG-ROM from image file failed.".to_owned(),
            LoadError::TruncatedChr => "Reading CHR-ROM from image file failed.".to_owned(),
        }
    }
}

/// The image begins with the bytes 4E 45 53 1A.
pub open spec fn has_signature(image: Seq<u8>) -> bool {
    &&& image.len() >= 4
    &&& image[0] == 0x4E
    &&& image[1] == 0x45
    &&& image[2] == 0x53
    &&& image[3] == 0x1A
}

/// Where the program ROM of an image ends: behind the header and as many
/// 16 KiB banks as byte 4 says.
pub open spec fn prg_end(image: Seq<u8>) -> int {
    16 + 0x4000 * image[4]
}

/// Where the graphics ROM of an image ends: behind the program ROM and as
/// many 8 KiB banks as byte 5 says.
pub open spec fn chr_end(image: Seq<u8>) -> int {
    prg_end(image) + 0x2000 * image[5]
}

/// Bit 2 of byte 6: a trainer stands between header and program ROM.
pub open spec fn has_trainer(image: Seq<u8>) -> bool {
    (image[6] / 4) % 2 == 1
}

/// Bits 0 and 1 of byte 10 name the television system; only 0 is NTSC.
pub open spec fn is_ntsc(image: Seq<u8>) -> bool {
    image[10] % 4 == 0
}

/// The first reason to refuse an image, the checks taken in the order of
/// the image's bytes; `None` for an image that loads.
pub open spec fn load_error(image: Seq<u8>) -> Option<LoadError> {
    if image.len() < 16 {
        Some(LoadError::TruncatedHeader)
    } else if !has_signature(image) {
        Some(LoadError::BadSignature)
    } else if image[4] == 0 {
        Some(LoadError::NoPrgBanks)
    } else if has_trainer(image) {
        Some(LoadError::TrainerUnsupported)
    } else if !is_ntsc(image) {
        Some(LoadError::PalUnsupported)
    } else if image.len() < prg_end(image) {
        Some(LoadError::TruncatedPrg)
    } else if image.len() < chr_end(image) {
        Some(LoadError::TruncatedChr)
    } else {
        None
    }
}

/// The cartridge that an image describes. The mirroring mode is bit 0 of
/// byte 6. The mapper number has its low four bits in the high half of byte
/// 6 and its high four bits in the high half of byte 7. Bit 1 of byte 6 says
/// whether there is extended work RAM.
pub open spec fn loaded(image: Seq<u8>) -> CartridgeView {
    CartridgeView {
        prg_rom: image.subrange(16, prg_end(image)),
        chr_rom: image.subrange(prg_end(image), chr_end(image)),
        name_table_mirroring: image[6] % 2,
        mapper_number: (image[6] / 16 + 16 * (image[7] / 16)) as u8,
        extended_ram: (image[6] / 2) % 2 == 1,
    }
}

/// An image that does not begin with the signature is refused, whatever
/// else it holds.
pub proof fn lemma_bad_signature_refused(image: Seq<u8>)
    requires
        !has_signature(image),
    ensures
        load_error(image) == Some(LoadError::TruncatedHeader) || load_error(image) == Some(
            LoadError::BadSignature,
        ),
{
}

/// An image that loads gives whole banks: at least one of program ROM, and
/// as many bytes as the header announces.
pub proof fn lemma_loaded_banks(image: Seq<u8>)
    requires
        load_error(image) is None,
    ensures
        loaded(image).wf(),
        loaded(image).prg_rom.len() == 0x4000 * image[4],
        loaded(image).prg_rom.len() >= 0x4000,
        loaded(image).chr_rom.len() == 0x2000 * image[5],
{
}

/// A cartridge: empty when made, filled once from an image, and read from
/// then on.
pub struct Cartridge {
    prg_rom: Vec<u8>,
    chr_rom: Vec<u8>,
    name_table_mirroring: u8,
    mapper_number: u8,
    extended_ram: bool,
}

impl View for Cartridge {
    type V = CartridgeView;

    closed spec fn view(&self) -> CartridgeView {
        CartridgeView {
            prg_rom: self.prg_rom@,
            chr_rom: self.chr_rom@,
            name_table_mirroring: self.name_table_mirroring,
            mapper_number: self.mapper_number,
            extended_ram: self.extended_ram,
        }
    }
}

impl Clone for Cartridge {
    /// A second cartridge that holds the same.
    fn clone(&self) -> (copy: Self)
        ensures
            copy@ == self@,
    {
        let copy = Cartridge {
            prg_rom: self.prg_rom.clone(),
            chr_rom: self.chr_rom.clone(),
            name_table_mirroring: self.name_table_mirroring,
            mapper_number: self.mapper_number,
            extended_ram: self.extended_ram,
        };
        assert(copy.prg_rom@ =~= self.prg_rom@);
        assert(copy.chr_rom@ =~= self.chr_rom@);
        copy
    }
}

impl Cartridge {
    /// A cartridge that holds nothing yet.
    pub fn new() -> (c: Self)
        ensures
            c@ == CartridgeView::empty(),
    {
        Cartridge {
            prg_rom: Vec::new(),
            chr_rom: Vec::new(),
            name_table_mirroring: 0,
            mapper_number: 0,
            extended_ram: false,
        }
    }

    /// The program ROM.
    pub fn get_rom(&self) -> (rom: &Vec<u8>)
        ensures
            rom@ == self@.prg_rom,
    {
        &self.prg_rom
    }

    /// The graphics ROM, empty where the cartridge has graphics RAM instead.
    pub fn get_vrom(&self) -> (vrom: &Vec<u8>)
        ensures
            vrom@ == self@.chr_rom,
    {
        &self.chr_rom
    }

    /// Whether the cartridge carries extended work RAM.
    pub fn has_extended_ram(&self) -> (b: bool)
        ensures
            b == self@.extended_ram,
    {
        self.extended_ram
    }

    /// The name-table mirroring mode: bit 0 of header byte 6.
    pub fn name_table_mirroring(&self) -> (mode: u8)
        ensures
            mode == self@.name_table_mirroring,
    {
        self.name_table_mirroring
    }

    /// The number of the mapper that the cartridge asks for.
    pub fn mapper_number(&self) -> (number: u8)
        ensures
            number == self@.mapper_number,
    {
        self.mapper_number
    }

    /// Takes the cartridge that `image` describes, or refuses the image and
    /// leaves the cartridge as it was.
    pub fn load_from_bytes(&mut self, image: &[u8]) -> (result: Result<(), LoadError>)
        ensures
            match load_error(image@) {
                Some(e) => result == Err::<(), LoadError>(e) && final(self)@ == old(self)@,
                None => result is Ok && final(self)@ == loaded(image@),
            },
            old(self)@.wf() ==> final(self)@.wf(),
    {
        if image.len() < HEADER_SIZE {
            return Err(LoadError::TruncatedHeader);
        }
        if image[0] != 0x4E || image[1] != 0x45 || image[2] != 0x53 || image[3] != 0x1A {
            return Err(LoadError::BadSignature);
        }
        let prg_rom_banks = image[4] as usize;
        if prg_rom_banks == 0 {
            return Err(LoadError::NoPrgBanks);
        }
        let chr_rom_banks = image[5] as usize;
        proof {
            lemma_header_bits(image[6], image[7], image[10]);
        }
        if image[6] & 0x4 != 0 {
            return Err(LoadError::TrainerUnsupported);
        }
        if (image[0xA] & 0x3) == 0x2 || (image[0xA] & 0x1) != 0 {
            return Err(LoadError::PalUnsupported);
        }
        let prg_start = HEADER_SIZE;
        let prg_stop = prg_start + PRG_BANK_SIZE * prg_rom_banks;
        if image.len() < prg_stop {
            return Err(LoadError::TruncatedPrg);
        }
        let chr_stop = prg_stop + CHR_BANK_SIZE * chr_rom_banks;
        if image.len() < chr_stop {
            return Err(LoadError::TruncatedChr);
        }
        self.name_table_mirroring = image[6] & 0x1;
        self.mapper_number = ((image[6] >> 4) & 0xf) | (image[7] & 0xf0);
        self.extended_ram = image[6] & 0x2 != 0;
        self.prg_rom = slice_to_vec(slice_subrange(image, prg_start, prg_stop));
        self.chr_rom = slice_to_vec(slice_subrange(image, prg_stop, chr_stop));
        Ok(())
    }
}

} // verus!
