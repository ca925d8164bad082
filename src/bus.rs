use vstd::prelude::*;
use crate::interrupts::{Interrupt, Interrupts, interrupt_mask};
use crate::lcd::{LCD, LCDMode, LCD_LY_ADDRESS, timing_after, CLOCKS_TRANSFERRING};
use crate::ppu::MEMORY_SIZE;

verus! {

/// Interrupt-request register.
pub const IF_ADDRESS: u16 = 0xFF0F;

/// Interrupt-enable register.
pub const IE_ADDRESS: u16 = 0xFFFF;

/// The bus image after `value` is written at `address`: every address stores
/// what was last written to it, but for the scanline register, which only
/// mirrors the LCD's counter.
pub open spec fn stored(mem: Seq<u8>, address: u16, value: u8) -> Seq<u8> {
    if address == LCD_LY_ADDRESS {
        mem
    } else {
        mem.update(address as int, value)
    }
}

/// The 64KB address space. LCD and interrupt registers are routed to their
/// controllers; every other address is plain storage that reads back the
/// last byte written to it (zero before any write).
pub struct MemoryBus {
    pub memory: Vec<u8>,
    pub lcd: LCD,
    pub interrupts: Interrupts,
}

impl View for MemoryBus {
    type V = Seq<u8>;

    /// What each of the 65536 addresses reads as.
    open spec fn view(&self) -> Seq<u8> {
        Seq::new(MEMORY_SIZE as nat, |i: int| self.read_spec(i as u16))
    }
}

impl MemoryBus {
    pub open spec fn wf(&self) -> bool {
        &&& self.memory@.len() == MEMORY_SIZE
        &&& self.lcd.wf()
    }

    pub open spec fn read_spec(&self, address: u16) -> u8 {
        if LCD::owns(address) {
            self.lcd.register(address)
        } else if address == IF_ADDRESS {
            self.interrupts.request
        } else if address == IE_ADDRESS {
            self.interrupts.enable
        } else {
            self.memory@[address as int]
        }
    }

    /// The LCD state that no bus address shows.
    pub open spec fn same_lcd_timing(&self, other: &MemoryBus) -> bool {
        &&& self.lcd.mode == other.lcd.mode
        &&& self.lcd.clock == other.lcd.clock
        &&& self.lcd.scanline == other.lcd.scanline
        &&& self.lcd.screenbuffer@ == other.lcd.screenbuffer@
    }

    pub fn new() -> (r: MemoryBus)
        ensures
            r.wf(),
            r@ == Seq::new(MEMORY_SIZE as nat, |i: int| 0u8),
            r.lcd.mode == LCDMode::SearchingOAM,
            r.lcd.clock == 0,
            r.lcd.scanline == 0,
            r.lcd.screenbuffer@ == Seq::new(MEMORY_SIZE as nat, |i: int| 0u8),
    {
        let memory = vec![0u8; MEMORY_SIZE];
        let lcd = LCD::new();
        let r = MemoryBus { memory, lcd, interrupts: Interrupts::new() };
        proof {
            crate::palette::lemma_palette_round_trip(0);
            assert(r@ =~= Seq::new(MEMORY_SIZE as nat, |i: int| 0u8));
        }
        r
    }

    pub fn read_byte(&self, address: u16) -> (r: u8)
        requires
            self.wf(),
        ensures
            r == self.read_spec(address),
            r == self@[address as int],
    {
        if address == 0xFF40 || address == 0xFF42 || address == 0xFF43 || address == 0xFF44
            || address == 0xFF47 {
            self.lcd.read_byte(address)
        } else if address == IF_ADDRESS {
            self.interrupts.request
        } else if address == IE_ADDRESS {
            self.interrupts.enable
        } else {
            self.memory[address as usize]
        }
    }

    pub fn write_byte(&mut self, address: u16, value: u8)
        requires
            old(self).wf(),
        ensures
            final(self).wf(),
            final(self)@ == stored(old(self)@, address, value),
            final(self).same_lcd_timing(old(self)),
    {
        let ghost before = old(self)@;
        if address == 0xFF40 || address == 0xFF42 || address == 0xFF43 || address == 0xFF44
            || address == 0xFF47 {
            self.lcd.write_byte(address, value);
        } else if address == IF_ADDRESS {
            self.interrupts.request = value;
        } else if address == IE_ADDRESS {
            self.interrupts.enable = value;
        } else {
            self.memory.set(address as usize, value);
        }
        assert(self@ =~= stored(before, address, value));
    }

    /// Advances the LCD controller by `cycles` and latches its VBlank request.
    pub fn tick(&mut self, cycles: u16) -> (vblank: bool)
        requires
            old(self).wf(),
        ensures
            final(self).wf(),
            ({
                let (t, raised) = timing_after(
                    old(self).lcd.mode,
                    old(self).lcd.clock,
                    old(self).lcd.scanline,
                    cycles,
                );
                &&& final(self).lcd.mode == t.mode
                &&& final(self).lcd.clock == t.clock
                &&& final(self).lcd.scanline == t.scanline
                &&& vblank == raised
            }),
            final(self).lcd.screenbuffer@ == if old(self).lcd.mode == LCDMode::Transferring
                && old(self).lcd.clock + cycles >= CLOCKS_TRANSFERRING {
                old(self).lcd.rendered(old(self).memory@)
            } else {
                old(self).lcd.screenbuffer@
            },
            final(self).interrupts.request == if vblank {
                old(self).interrupts.request | interrupt_mask(Interrupt::VBlank)
            } else {
                old(self).interrupts.request
            },
            final(self).interrupts.enable == old(self).interrupts.enable,
            final(self).memory@ == old(self).memory@,
            final(self).lcd.control == old(self).lcd.control,
            final(self).lcd.scx == old(self).lcd.scx,
            final(self).lcd.scy == old(self).lcd.scy,
            final(self).lcd.bgpalette == old(self).lcd.bgpalette,
    {
        let vblank = self.lcd.tick(cycles, &self.memory);
        if vblank {
            self.interrupts.raise(Interrupt::VBlank);
        }
        vblank
    }
}

} // verus!
