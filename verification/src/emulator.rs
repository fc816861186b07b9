//! The whole machine: a processor beside the bus it runs on, and the way a
//! cartridge image is put into it.

use vstd::prelude::*;
use crate::cartridge::{lemma_loaded_banks, load_error, loaded, Cartridge, LoadError};
use crate::cpu::CPU;
use crate::main_bus::{BusView, MainBus};
use crate::mapper::{Mapper, MapperView};

verus! {

/// A processor and its bus.
pub struct Emulator {
    pub m_cpu: CPU,
    pub m_bus: MainBus,
}

impl Emulator {
    /// The bus after the cartridge that `image` describes is put into a
    /// fresh mapper and the mapper into `bus`.
    pub open spec fn wired(bus: BusView, image: Seq<u8>) -> BusView {
        bus.with_mapper(MapperView::loaded(loaded(image), Seq::empty()))
    }

    /// Puts the cartridge that `image` describes into the machine and resets
    /// the processor, which then stands at the address that the cartridge's
    /// reset vector holds. An image that is refused leaves the machine as it
    /// was.
    pub fn run(&mut self, image: &[u8]) -> (result: Result<(), LoadError>)
        requires
            old(self).m_bus@.wf(),
        ensures
            match load_error(image@) {
                Some(e) => {
                    &&& result == Err::<(), LoadError>(e)
                    &&& final(self).m_cpu == old(self).m_cpu
                    &&& final(self).m_bus@ == old(self).m_bus@
                },
                None => {
                    &&& result is Ok
                    &&& final(self).m_bus@ == Self::wired(old(self).m_bus@, image@)
                    &&& final(self).m_cpu == CPU::reset_state(
                        final(self).m_bus@.read_address16(0xFFFC),
                    )
                },
            },
            final(self).m_bus@.wf(),
            result is Ok ==> final(self).m_bus@.mapped(),
    {
        let mut cartridge = Cartridge::new();
        match cartridge.load_from_bytes(image) {
            Err(error) => Err(error),
            Ok(()) => {
                proof {
                    lemma_loaded_banks(image@);
                }
                let mut mapper = Mapper::new();
                mapper.load(cartridge);
                self.m_bus.set_mapper(mapper);
                self.m_cpu.reset(&self.m_bus);
                Ok(())
            },
        }
    }
}

} // verus!
