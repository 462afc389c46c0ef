//! The machine as a whole: the processor steps, then timer and pixel
//! processing unit follow by the ticks it took.

use vstd::prelude::*;

use crate::gameboy::cartridge::factory::AnyCartridge;
use crate::gameboy::cartridge::meta::CartridgePlatform;
use crate::gameboy::cartridge::Cartridge;
use crate::gameboy::cpu::cpu::CPU;
use crate::gameboy::cpu::decode::spec_known;
use crate::gameboy::cpu::register::IntReg;
use crate::gameboy::cpu::register::RegisterView;
use crate::gameboy::graphics::gpu::GPU;
use crate::gameboy::joypad::Joypad;
use crate::gameboy::mmu::Mmunit;
use crate::gameboy::mmu::Part;
use crate::gameboy::term::Term;
use crate::gameboy::timer::Timer;

verus! {

/// The console variant that a cartridge written for `platform` runs on.
pub open spec fn spec_term(platform: CartridgePlatform) -> Term {
    match platform {
        CartridgePlatform::GBC => Term::GBC,
        CartridgePlatform::GBC_ONLY => Term::GBC,
        CartridgePlatform::SGB => Term::SGB,
        CartridgePlatform::GB => Term::GB,
    }
}

/// Returns the console variant that a cartridge written for `platform`
/// runs on.
pub fn term_of(platform: CartridgePlatform) -> (r: Term)
    ensures
        r == spec_term(platform),
{
    match platform {
        CartridgePlatform::GBC => Term::GBC,
        CartridgePlatform::GBC_ONLY => Term::GBC,
        CartridgePlatform::SGB => Term::SGB,
        CartridgePlatform::GB => Term::GB,
    }
}

/// The machine: a processor on a memory management unit with a cartridge.
pub struct Emulator {
    pub cpu: CPU<Mmunit>,
}

impl Emulator {
    /// Returns the machine after boot with the cartridge `cart`. The
    /// console variant is the one that the cartridge was written for.
    pub fn new(cart: AnyCartridge, speed_simulation: bool) -> (r: Self)
        ensures
            r.cpu.reg@ == RegisterView::boot(spec_term(cart.spec_meta().platform)),
            r.cpu.ime_flag,
            !r.cpu.is_halt,
            r.cpu.speed_simulation == speed_simulation,
            r.cpu.data_bus.cartridge == cart,
            r.cpu.data_bus.gpu@ == Mmunit::spec_boot_gpu(
                crate::gameboy::graphics::gpu::GpuView::initial(),
            ),
            r.cpu.data_bus.gpu.inv(),
            r.cpu.data_bus.timer == Timer::spec_new(),
            r.cpu.data_bus.joypad.reg == 0xff,
            r.cpu.data_bus.joypad.select_mask == 0xff,
            r.cpu.data_bus.intf.data == 0,
            r.cpu.data_bus.inte == 0,
            forall|i: int| 0 <= i < 0x7f ==> r.cpu.data_bus.hram@[i] == 0,
            forall|i: int| 0 <= i < 0x8000 ==> r.cpu.data_bus.wram@[i] == 0,
            crate::gameboy::mmu::spec_wram_bank(r.cpu.data_bus.wram_bank) == 1,
            r.cpu.step_cycles == 0,
            !r.cpu.step_flip,
    {
        let term = term_of(cart.get_meta().get_platform());
        let mmu = Mmunit::new(cart, GPU::new(), Joypad::new(), Timer::new(), IntReg::new());
        Emulator { cpu: CPU::new_for(term, mmu, speed_simulation) }
    }

    /// Returns whether the next step can run: the processor services an
    /// interrupt or stays halted, or the code at its program counter is an
    /// instruction.
    pub fn can_step(&self) -> (r: bool)
        ensures
            r == (self.cpu.spec_fetches() ==> spec_known(self.cpu.spec_imm())),
    {
        self.cpu.can_step()
    }

    /// Whether `after` is this machine after one step, which took `r` ticks:
    /// the processor has run one step, then the timer and the pixel
    /// processing unit have advanced by the ticks that it took.
    pub open spec fn spec_next(self, after: Self, r: u32) -> bool {
        exists|mid: CPU<Mmunit>| #[trigger]
            self.cpu.spec_next(mid, r) && mid.data_bus.spec_advanced(after.cpu.data_bus, r)
                && after.cpu == (CPU { data_bus: after.cpu.data_bus, ..mid })
    }

    /// One step of the machine: the processor runs one step, then the timer
    /// and the pixel processing unit advance by the ticks that it took.
    /// Returns those ticks.
    pub fn next(&mut self) -> (r: u32)
        requires
            old(self).cpu.spec_fetches() ==> spec_known(old(self).cpu.spec_imm()),
        ensures
            4 <= r <= 36,
            old(self).spec_next(*final(self), r),
    {
        let cycles = self.cpu.next();
        let ghost mid = self.cpu;
        self.cpu.data_bus.next(cycles);
        assert(old(self).cpu.spec_next(mid, cycles) && mid.data_bus.spec_advanced(
            self.cpu.data_bus,
            cycles,
        ) && self.cpu == (CPU { data_bus: self.cpu.data_bus, ..mid }));
        cycles
    }

    /// One step of the machine where it can run, with the ticks it took;
    /// `None`, and nothing changes, where the code at the program counter
    /// is no instruction.
    pub fn try_next(&mut self) -> (r: Option<u32>)
        ensures
            r.is_some() == (old(self).cpu.spec_fetches() ==> spec_known(old(self).cpu.spec_imm())),
            r matches Some(cycles) ==> 4 <= cycles <= 36 && old(self).spec_next(
                *final(self),
                cycles,
            ),
            r.is_none() ==> *final(self) == *old(self),
    {
        if self.can_step() {
            Some(self.next())
        } else {
            None
        }
    }

    /// Returns whether a frame is complete and was not read yet.
    pub fn frame_ready(&self) -> (r: bool)
        ensures
            r == self.cpu.data_bus.gpu@.updated,
    {
        self.cpu.data_bus.gpu.should_updated()
    }

    /// Returns the frame as the pixels of a window and marks it as read.
    pub fn take_pixels(&mut self) -> (r: Vec<u32>)
        ensures
            r@.len() == 160 * 144,
            forall|i: int|
                0 <= i < r@.len() ==> r@[i] == crate::gameboy::graphics::gpu::spec_argb(
                    old(self).cpu.data_bus.gpu@.shades[i],
                ),
            final(self).cpu.data_bus.gpu@ == (crate::gameboy::graphics::gpu::GpuView {
                updated: false,
                ..old(self).cpu.data_bus.gpu@
            }),
            old(self).cpu.data_bus.same_except(final(self).cpu.data_bus, Part::Gpu),
            final(self).cpu == (CPU { data_bus: final(self).cpu.data_bus, ..old(self).cpu }),
    {
        let r = self.cpu.data_bus.gpu.get_pixels();
        self.cpu.data_bus.gpu.reset_updated();
        r
    }

    /// Returns the frame, three bytes of grey for each pixel, and marks it
    /// as read.
    pub fn take_frame(&mut self) -> (r: Vec<u8>)
        ensures
            r@.len() == 3 * 160 * 144,
            forall|i: int| 0 <= i < r@.len() ==> r@[i] == old(self).cpu.data_bus.gpu@.shades[i / 3],
            final(self).cpu.data_bus.gpu@ == (crate::gameboy::graphics::gpu::GpuView {
                updated: false,
                ..old(self).cpu.data_bus.gpu@
            }),
            old(self).cpu.data_bus.same_except(final(self).cpu.data_bus, Part::Gpu),
            final(self).cpu == (CPU { data_bus: final(self).cpu.data_bus, ..old(self).cpu }),
    {
        let r = self.cpu.data_bus.gpu.get_data();
        self.cpu.data_bus.gpu.reset_updated();
        r
    }
}

} // verus!
