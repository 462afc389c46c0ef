//! The address bus: the devices on it, and the memory management unit that
//! decodes the address space.

use vstd::prelude::*;

use crate::gameboy::cartridge::factory::AnyCartridge;
use crate::gameboy::cpu::register::IntReg;
use crate::gameboy::graphics::gpu::GpuView;
use crate::gameboy::graphics::gpu::GPU;
use crate::gameboy::graphics::gpu::OAM_SIZE;
use crate::gameboy::joypad::Joypad;
use crate::gameboy::joypad::JoypadKey;
use crate::gameboy::timer::Timer;
use crate::gameboy::util::high_byte;
use crate::gameboy::util::low_byte;
use crate::gameboy::util::make_word;
use crate::gameboy::util::spec_high;
use crate::gameboy::util::spec_low;
use crate::gameboy::util::spec_set_bit;
use crate::gameboy::util::spec_word;

verus! {

/// A device on the 16-bit address bus.
///
/// A device is described by two specification functions: what a read at an
/// address returns, and which states a write at an address may leave. Words
/// are little-endian: the low byte at the address, the high byte at the next
/// address, wrapping at the end of the address space.
pub trait IOHandler: Sized {
    /// The byte that a read at `a` returns. A device that maps nothing reads
    /// as zero.
    open spec fn byte_at(&self, a: u16) -> u8 {
        0u8
    }

    /// Whether `after` is a state in which a write of `v` at `a` may leave
    /// the device. A device that maps nothing drops every write.
    open spec fn stored(&self, a: u16, v: u8, after: Self) -> bool {
        after == *self
    }

    /// Reads a byte.
    fn read_byte(&self, a: u16) -> (r: u8)
        ensures
            r == self.byte_at(a),
    ;

    /// Writes a byte.
    fn write_byte(&mut self, a: u16, v: u8)
        ensures
            old(self).stored(a, v, *final(self)),
    ;

    /// Reads a word, low byte first.
    fn read_word(&self, a: u16) -> (r: u16)
        ensures
            r == spec_word(self.byte_at(a.wrapping_add(1)), self.byte_at(a)),
    {
        let lo = self.read_byte(a);
        let hi = self.read_byte(a.wrapping_add(1));
        make_word(hi, lo)
    }

    /// Writes a word, low byte first.
    fn write_word(&mut self, a: u16, v: u16)
        ensures
            exists|mid: Self| #[trigger]
                old(self).stored(a, spec_low(v), mid) && mid.stored(
                    a.wrapping_add(1),
                    spec_high(v),
                    *final(self),
                ),
    {
        self.write_byte(a, low_byte(v));
        let ghost mid = *self;
        self.write_byte(a.wrapping_add(1), high_byte(v));
        assert(old(self).stored(a, spec_low(v), mid) && mid.stored(a.wrapping_add(1), spec_high(v), *self));
    }
}

/// The word that a read at `a` returns.
pub open spec fn word_at<M: IOHandler>(m: &M, a: u16) -> u16 {
    spec_word(m.byte_at(a.wrapping_add(1)), m.byte_at(a))
}

/// Whether `after` is a state in which a write of the word `v` at `a` may
/// leave the device `before`: the low byte is written at `a`, then the high
/// byte at the next address.
pub open spec fn word_stored<M: IOHandler>(before: M, a: u16, v: u16, after: M) -> bool {
    exists|mid: M| #[trigger]
        before.stored(a, spec_low(v), mid) && mid.stored(a.wrapping_add(1), spec_high(v), after)
}

/// The parts of the memory management unit.
#[derive(Clone, Copy, Debug, PartialEq, Eq, Structural)]
pub enum Part {
    Cartridge,
    Gpu,
    Joypad,
    Timer,
    Inte,
    Intf,
    Hram,
    Wram,
    WramBank,
}

/// The memory management unit: it decodes the 16-bit address space.
///
/// | Range           | Contents                                  |
/// |-----------------|-------------------------------------------|
/// | 0x0000..=0x7FFF | cartridge ROM                             |
/// | 0x8000..=0x9FFF | video RAM                                 |
/// | 0xA000..=0xBFFF | cartridge RAM                             |
/// | 0xC000..=0xCFFF | work RAM bank 0                           |
/// | 0xD000..=0xDFFF | the work RAM bank selected at 0xFF70      |
/// | 0xE000..=0xFDFF | echo of 0xC000..=0xDDFF                   |
/// | 0xFE00..=0xFE9F | sprite attribute table                    |
/// | 0xFEA0..=0xFEFF | unusable                                  |
/// | 0xFF00..=0xFF7F | I/O registers                             |
/// | 0xFF80..=0xFFFE | high RAM                                  |
/// | 0xFFFF          | interrupt enable                          |
pub struct Mmunit {
    pub cartridge: AnyCartridge,
    pub gpu: GPU,
    pub joypad: Joypad,
    pub timer: Timer,
    /// The interrupt enable register.
    pub inte: u8,
    /// The interrupt flag register.
    pub intf: IntReg,
    /// The high RAM.
    pub hram: [u8; 0x7f],
    /// The work RAM: eight banks of 4 KiB.
    pub wram: [u8; 0x8000],
    /// The byte written last at 0xFF70.
    pub wram_bank: u8,
}

/// The work RAM bank that the byte `v` at 0xFF70 selects: its low three
/// bits, with zero promoted to one.
pub open spec fn spec_wram_bank(v: u8) -> int {
    if v % 8 == 0 {
        1
    } else {
        (v % 8) as int
    }
}

/// Whether the address `a` belongs to the cartridge.
pub open spec fn spec_is_cartridge(a: u16) -> bool {
    a <= 0x7fff || 0xa000 <= a <= 0xbfff
}

/// Whether the address `a` belongs to the pixel processing unit.
pub open spec fn spec_is_gpu(a: u16) -> bool {
    ||| 0x8000 <= a <= 0x9fff
    ||| 0xfe00 <= a <= 0xfe9f
    ||| 0xff40 <= a <= 0xff45
    ||| 0xff47 <= a <= 0xff4b
    ||| 0xff68 <= a <= 0xff6b
}

/// The place in the work RAM that the address `a` maps to, if it maps to
/// one: bank 0 at 0xC000 and at 0xE000, the bank selected by `bank` at
/// 0xD000 and at 0xF000.
pub open spec fn spec_wram_index(a: u16, bank: u8) -> Option<int> {
    if 0xc000 <= a <= 0xcfff {
        Some(a - 0xc000)
    } else if 0xd000 <= a <= 0xdfff {
        Some(a - 0xd000 + 0x1000 * spec_wram_bank(bank))
    } else if 0xe000 <= a <= 0xefff {
        Some(a - 0xe000)
    } else if 0xf000 <= a <= 0xfdff {
        Some(a - 0xf000 + 0x1000 * spec_wram_bank(bank))
    } else {
        None
    }
}

impl Mmunit {
    /// Every part but `part` is the same in `after`.
    pub open spec fn same_except(self, after: Self, part: Part) -> bool {
        &&& part == Part::Cartridge || after.cartridge == self.cartridge
        &&& part == Part::Gpu || after.gpu == self.gpu
        &&& part == Part::Joypad || after.joypad == self.joypad
        &&& part == Part::Timer || after.timer == self.timer
        &&& part == Part::Inte || after.inte == self.inte
        &&& part == Part::Intf || after.intf == self.intf
        &&& part == Part::Hram || after.hram == self.hram
        &&& part == Part::Wram || after.wram == self.wram
        &&& part == Part::WramBank || after.wram_bank == self.wram_bank
    }

    /// The 160 bytes that a DMA transfer started by a write of `v` copies:
    /// those from the address `v * 256` on.
    pub open spec fn spec_dma_source(self, v: u8) -> Seq<u8> {
        Seq::new(OAM_SIZE as nat, |i: int| self.byte_at((v * 256 + i) as u16))
    }

    /// The registers that boot leaves in the timer: TIMA, TMA and TAC zero.
    pub open spec fn spec_boot_timer(timer: Timer) -> Timer {
        timer.spec_set(0xff05, 0x00).spec_set(0xff06, 0x00).spec_set(0xff07, 0x00)
    }

    /// The registers that boot leaves in the pixel processing unit: LCDC
    /// 0x91, BGP 0xFC, both sprite palettes 0xFF, the scroll, the window
    /// and LYC zero.
    pub open spec fn spec_boot_gpu(gpu: GpuView) -> GpuView {
        gpu.written(0xff40, 0x91).written(0xff42, 0x00).written(0xff43, 0x00).written(
            0xff45,
            0x00,
        ).written(0xff47, 0xfc).written(0xff48, 0xff).written(0xff49, 0xff).written(
            0xff4a,
            0x00,
        ).written(0xff4b, 0x00)
    }

    /// Returns the unit after boot, with the parts given: the I/O registers
    /// hold their initial values, the work RAM and the high RAM are zero,
    /// work RAM bank 1 is selected and no interrupt is enabled.
    pub fn new(cart: AnyCartridge, gpu: GPU, joypad: Joypad, timer: Timer, intf: IntReg) -> (r:
        Self)
        ensures
            r.cartridge == cart,
            r.gpu@ == Self::spec_boot_gpu(gpu@),
            r.gpu.inv(),
            r.joypad == joypad,
            r.timer == Self::spec_boot_timer(timer),
            r.intf == intf,
            r.inte == 0,
            forall|i: int| 0 <= i < 0x7f ==> r.hram@[i] == 0,
            forall|i: int| 0 <= i < 0x8000 ==> r.wram@[i] == 0,
            spec_wram_bank(r.wram_bank) == 1,
    {
        let mut r = Mmunit {
            cartridge: cart,
            gpu,
            joypad,
            timer,
            intf,
            inte: 0x00,
            hram: [0x00;0x7f],
            wram: [0x00;0x8000],
            wram_bank: 0x01,
        };
        r.set_initial();
        r
    }

    /// Writes the initial values of the I/O registers.
    fn set_initial(&mut self)
        ensures
            final(self).gpu@ == Self::spec_boot_gpu(old(self).gpu@),
            final(self).gpu.inv(),
            final(self).timer == Self::spec_boot_timer(old(self).timer),
            final(self).cartridge == old(self).cartridge,
            final(self).joypad == old(self).joypad,
            final(self).inte == old(self).inte,
            final(self).intf == old(self).intf,
            final(self).hram == old(self).hram,
            final(self).wram == old(self).wram,
            final(self).wram_bank == old(self).wram_bank,
    {
        self.timer.set(0xff05, 0x00);
        self.timer.set(0xff06, 0x00);
        self.timer.set(0xff07, 0x00);
        self.gpu.write_byte(0xff40, 0x91);
        self.gpu.write_byte(0xff42, 0x00);
        self.gpu.write_byte(0xff43, 0x00);
        self.gpu.write_byte(0xff45, 0x00);
        self.gpu.write_byte(0xff47, 0xfc);
        self.gpu.write_byte(0xff48, 0xff);
        self.gpu.write_byte(0xff49, 0xff);
        self.gpu.write_byte(0xff4a, 0x00);
        self.gpu.write_byte(0xff4b, 0x00);
    }

    /// Whether `after` is the unit after `cycles` clock ticks: the timer
    /// has advanced, then the pixel processing unit, and both have
    /// requested their interrupts in the interrupt flag register.
    pub open spec fn spec_advanced(self, after: Self, cycles: u32) -> bool {
        &&& after.timer == self.timer.spec_next(cycles)
        &&& (after.gpu@, after.intf.data) == self.gpu@.next(
            if self.timer.spec_fires(cycles) {
                spec_set_bit(self.intf.data, 2)
            } else {
                self.intf.data
            },
            cycles,
        )
        &&& after.gpu.inv()
        &&& after.cartridge == self.cartridge
        &&& after.joypad == self.joypad
        &&& after.inte == self.inte
        &&& after.hram == self.hram
        &&& after.wram == self.wram
        &&& after.wram_bank == self.wram_bank
    }

    /// Advances the timer and then the pixel processing unit by `cycles`
    /// clock ticks; both request their interrupts in the interrupt flag
    /// register.
    pub fn next(&mut self, cycles: u32) -> (r: u32)
        ensures
            r == cycles,
            old(self).spec_advanced(*final(self), cycles),
    {
        self.timer.next(cycles, &mut self.intf);
        self.gpu.next(cycles, &mut self.intf);
        cycles
    }

    /// Presses `key`; a key that was not pressed before requests the joypad
    /// interrupt.
    pub fn keydown(&mut self, key: JoypadKey)
        ensures
            final(self).joypad == old(self).joypad.spec_keydown(key),
            final(self).intf.data == (if old(self).joypad.spec_is_down(key) {
                old(self).intf.data
            } else {
                spec_set_bit(old(self).intf.data, 4)
            }),
            final(self).cartridge == old(self).cartridge,
            final(self).gpu == old(self).gpu,
            final(self).timer == old(self).timer,
            final(self).inte == old(self).inte,
            final(self).hram == old(self).hram,
            final(self).wram == old(self).wram,
            final(self).wram_bank == old(self).wram_bank,
    {
        self.joypad.keydown(key, &mut self.intf);
    }

    /// Takes up the state of the keys of a host. `held` tells of each of
    /// the keys Right, Up, Left, Down, A, B, Select and Start, in this
    /// order, whether it is held down.
    pub fn poll_keys(&mut self, held: &[bool; 8])
        ensures
            (final(self).joypad, final(self).intf.data) == old(self).joypad.spec_polled(
                old(self).intf.data,
                held@,
                0,
            ),
            final(self).cartridge == old(self).cartridge,
            final(self).gpu == old(self).gpu,
            final(self).timer == old(self).timer,
            final(self).inte == old(self).inte,
            final(self).hram == old(self).hram,
            final(self).wram == old(self).wram,
            final(self).wram_bank == old(self).wram_bank,
    {
        self.joypad.poll(held, &mut self.intf);
    }

    /// Releases `key`.
    pub fn keyup(&mut self, key: JoypadKey)
        ensures
            final(self).joypad == old(self).joypad.spec_keyup(key),
            old(self).same_except(*final(self), Part::Joypad),
    {
        self.joypad.keyup(key);
    }

    /// Returns the work RAM bank that is mapped at 0xD000.
    pub fn bank(&self) -> (r: usize)
        ensures
            r == spec_wram_bank(self.wram_bank),
            1 <= r <= 7,
    {
        if self.wram_bank % 8 == 0 {
            1
        } else {
            (self.wram_bank % 8) as usize
        }
    }

    /// Returns the place in the work RAM that the address `a` maps to.
    pub fn wram_index(&self, a: u16) -> (r: Option<usize>)
        ensures
            r.is_some() == spec_wram_index(a, self.wram_bank).is_some(),
            r matches Some(i) ==> i == spec_wram_index(a, self.wram_bank).unwrap() && i < 0x8000,
    {
        if 0xc000 <= a && a <= 0xcfff {
            Some((a - 0xc000) as usize)
        } else if 0xd000 <= a && a <= 0xdfff {
            Some((a - 0xd000) as usize + 0x1000 * self.bank())
        } else if 0xe000 <= a && a <= 0xefff {
            Some((a - 0xe000) as usize)
        } else if 0xf000 <= a && a <= 0xfdff {
            Some((a - 0xf000) as usize + 0x1000 * self.bank())
        } else {
            None
        }
    }

    /// Copies the 160 bytes from the address `v * 256` on into the sprite
    /// attribute table.
    fn dma(&mut self, v: u8)
        ensures
            final(self).gpu@ == (GpuView { oam: old(self).spec_dma_source(v), ..old(self).gpu@ }),
            final(self).gpu.inv(),
            old(self).same_except(*final(self), Part::Gpu),
    {
        let base: u16 = (v as u16) * 256;
        let mut bytes: Vec<u8> = Vec::new();
        let mut i: u16 = 0;
        while i < 0xa0
            invariant
                i <= 0xa0,
                base == v * 256,
                bytes@.len() == i,
                forall|k: int| 0 <= k < i ==> bytes@[k] == self.byte_at((v * 256 + k) as u16),
            decreases 0xa0 - i,
        {
            bytes.push(self.read_byte(base + i));
            i = i + 1;
        }
        assert(bytes@ =~= self.spec_dma_source(v));
        self.gpu.load_oam(bytes);
    }
}

impl IOHandler for Mmunit {
    open spec fn byte_at(&self, a: u16) -> u8 {
        if spec_is_cartridge(a) {
            self.cartridge.byte_at(a)
        } else if spec_is_gpu(a) {
            self.gpu.byte_at(a)
        } else if spec_wram_index(a, self.wram_bank).is_some() {
            self.wram@[spec_wram_index(a, self.wram_bank).unwrap()]
        } else if a == 0xff00 {
            self.joypad.byte_at(a)
        } else if 0xff04 <= a <= 0xff07 {
            self.timer.spec_get(a)
        } else if a == 0xff0f {
            self.intf.data
        } else if a == 0xff70 {
            spec_wram_bank(self.wram_bank) as u8
        } else if 0xff80 <= a <= 0xfffe {
            self.hram@[a - 0xff80]
        } else if a == 0xffff {
            self.inte
        } else {
            0
        }
    }

    open spec fn stored(&self, a: u16, v: u8, after: Self) -> bool {
        if spec_is_cartridge(a) {
            self.cartridge.stored(a, v, after.cartridge) && self.same_except(after, Part::Cartridge)
        } else if spec_is_gpu(a) {
            self.gpu.stored(a, v, after.gpu) && self.same_except(after, Part::Gpu)
        } else if spec_wram_index(a, self.wram_bank).is_some() {
            after.wram@ == self.wram@.update(spec_wram_index(a, self.wram_bank).unwrap(), v)
                && self.same_except(after, Part::Wram)
        } else if a == 0xff00 {
            self.joypad.stored(a, v, after.joypad) && self.same_except(after, Part::Joypad)
        } else if 0xff04 <= a <= 0xff07 {
            after.timer == self.timer.spec_set(a, v) && self.same_except(after, Part::Timer)
        } else if a == 0xff0f {
            after.intf.data == v && self.same_except(after, Part::Intf)
        } else if a == 0xff46 {
            &&& after.gpu@ == (GpuView { oam: self.spec_dma_source(v), ..self.gpu@ })
            &&& after.gpu.inv()
            &&& self.same_except(after, Part::Gpu)
        } else if a == 0xff70 {
            spec_wram_bank(after.wram_bank) == spec_wram_bank(v) && self.same_except(
                after,
                Part::WramBank,
            )
        } else if 0xff80 <= a <= 0xfffe {
            after.hram@ == self.hram@.update(a - 0xff80, v) && self.same_except(after, Part::Hram)
        } else if a == 0xffff {
            after.inte == v && self.same_except(after, Part::Inte)
        } else {
            after == *self
        }
    }

    fn read_byte(&self, a: u16) -> (r: u8) {
        if a <= 0x7fff || (0xa000 <= a && a <= 0xbfff) {
            self.cartridge.read_byte(a)
        } else if (0x8000 <= a && a <= 0x9fff) || (0xfe00 <= a && a <= 0xfe9f) || (0xff40 <= a
            && a <= 0xff45) || (0xff47 <= a && a <= 0xff4b) || (0xff68 <= a && a <= 0xff6b) {
            self.gpu.read_byte(a)
        } else if 0xc000 <= a && a <= 0xfdff {
            match self.wram_index(a) {
                Some(i) => self.wram[i],
                None => 0x00,
            }
        } else if a == 0xff00 {
            self.joypad.read_byte(a)
        } else if 0xff04 <= a && a <= 0xff07 {
            self.timer.get(a)
        } else if a == 0xff0f {
            self.intf.data
        } else if a == 0xff70 {
            self.bank() as u8
        } else if 0xff80 <= a && a <= 0xfffe {
            self.hram[(a - 0xff80) as usize]
        } else if a == 0xffff {
            self.inte
        } else {
            0x00
        }
    }

    fn write_byte(&mut self, a: u16, v: u8) {
        if a <= 0x7fff || (0xa000 <= a && a <= 0xbfff) {
            self.cartridge.write_byte(a, v);
        } else if (0x8000 <= a && a <= 0x9fff) || (0xfe00 <= a && a <= 0xfe9f) || (0xff40 <= a
            && a <= 0xff45) || (0xff47 <= a && a <= 0xff4b) || (0xff68 <= a && a <= 0xff6b) {
            self.gpu.write_byte(a, v);
        } else if 0xc000 <= a && a <= 0xfdff {
            match self.wram_index(a) {
                Some(i) => {
                    self.wram[i] = v;
                },
                None => {},
            }
        } else if a == 0xff00 {
            self.joypad.write_byte(a, v);
        } else if 0xff04 <= a && a <= 0xff07 {
            self.timer.set(a, v);
        } else if a == 0xff0f {
            self.intf.data = v;
        } else if a == 0xff46 {
            self.dma(v);
        } else if a == 0xff70 {
            self.wram_bank = v;
        } else if 0xff80 <= a && a <= 0xfffe {
            self.hram[(a - 0xff80) as usize] = v;
        } else if a == 0xffff {
            self.inte = v;
        }
    }
}

/// Whether a word at `a` lies in memory that reads back what is written:
/// the video RAM, the work RAM and its echo, the sprite attribute table, or
/// the high RAM.
pub open spec fn spec_word_writable(a: u16) -> bool {
    ||| 0x8000 <= a <= 0x9ffe
    ||| 0xc000 <= a <= 0xfdfe
    ||| 0xfe00 <= a <= 0xfe9e
    ||| 0xff80 <= a <= 0xfffd
}

/// A word that is written into writable memory is read back.
#[verifier::rlimit(40)]
pub proof fn lemma_word_read_back(m: Mmunit, a: u16, v: u16, after: Mmunit)
    requires
        spec_word_writable(a),
        m.gpu.inv(),
        word_stored(m, a, v, after),
    ensures
        word_at(&after, a) == v,
{
    let mid = choose|mid: Mmunit| #[trigger]
        m.stored(a, spec_low(v), mid) && mid.stored(a.wrapping_add(1), spec_high(v), after);
    assert(m.stored(a, spec_low(v), mid));
    assert(mid.stored((a + 1) as u16, spec_high(v), after));
    m.gpu.lemma_counters();
    if 0xc000 <= a <= 0xfdfe {
        assert(mid.wram_bank == m.wram_bank);
        assert(after.wram_bank == m.wram_bank);
    }
}

/// A DMA transfer copies 160 bytes into the sprite attribute table and
/// changes nothing else: the byte at 0xFE00 + i is afterwards the byte that
/// was at `v * 256 + i`.
pub proof fn lemma_dma_copies(m: Mmunit, v: u8, after: Mmunit, i: int)
    requires
        0 <= i < OAM_SIZE,
        m.gpu.inv(),
        m.stored(0xff46, v, after),
    ensures
        after.byte_at((0xfe00 + i) as u16) == m.byte_at((v * 256 + i) as u16),
        m.same_except(after, Part::Gpu),
        after.gpu@ == (GpuView { oam: after.gpu@.oam, ..m.gpu@ }),
{
}

} // verus!
