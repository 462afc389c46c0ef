//! The joypad register.

use vstd::prelude::*;

use crate::gameboy::cpu::register::IntFlag;
use crate::gameboy::cpu::register::IntReg;
use crate::gameboy::mmu::IOHandler;
use crate::gameboy::util::clear_bit;
use crate::gameboy::util::set_bit;
use crate::gameboy::util::spec_clear_bit;
use crate::gameboy::util::spec_set_bit;
use crate::gameboy::util::spec_test_bit;
use crate::gameboy::util::test_bit;

verus! {

/// The bit of the joypad register that selects the direction keys when it
/// is clear.
pub const SELECT_DIRECTION_BIT: u8 = 4;

/// The bit of the joypad register that selects the button keys when it is
/// clear.
pub const SELECT_FUNC_BIT: u8 = 5;

/// The eight keys.
#[derive(Clone, Copy, PartialEq, Eq, Debug, Structural)]
pub enum JoypadKey {
    Right,
    Left,
    Up,
    Down,
    A,
    B,
    Select,
    Start,
}

impl JoypadKey {
    /// Whether the key is one of the four directions.
    pub open spec fn spec_is_direction(self) -> bool {
        self == JoypadKey::Right || self == JoypadKey::Left || self == JoypadKey::Up || self
            == JoypadKey::Down
    }

    /// The bit of the key within its group: Right and A 0, Left and B 1,
    /// Up and Select 2, Down and Start 3.
    pub open spec fn spec_bit(self) -> u8 {
        match self {
            JoypadKey::Right => 0,
            JoypadKey::Left => 1,
            JoypadKey::Up => 2,
            JoypadKey::Down => 3,
            JoypadKey::A => 0,
            JoypadKey::B => 1,
            JoypadKey::Select => 2,
            JoypadKey::Start => 3,
        }
    }

    /// The bit that selects the group of the key.
    pub open spec fn spec_group_bit(self) -> u8 {
        if self.spec_is_direction() {
            SELECT_DIRECTION_BIT
        } else {
            SELECT_FUNC_BIT
        }
    }

    /// Returns whether the key is one of the four directions.
    pub fn is_direction(self) -> (r: bool)
        ensures
            r == self.spec_is_direction(),
    {
        match self {
            JoypadKey::Right => true,
            JoypadKey::Left => true,
            JoypadKey::Up => true,
            JoypadKey::Down => true,
            _ => false,
        }
    }

    /// Returns the bit of the key within its group.
    pub fn bit(self) -> (r: u8)
        ensures
            r == self.spec_bit(),
            r <= 3,
    {
        match self {
            JoypadKey::Right => 0,
            JoypadKey::Left => 1,
            JoypadKey::Up => 2,
            JoypadKey::Down => 3,
            JoypadKey::A => 0,
            JoypadKey::B => 1,
            JoypadKey::Select => 2,
            JoypadKey::Start => 3,
        }
    }

    /// Returns the bit that selects the group of the key.
    pub fn group_bit(self) -> (r: u8)
        ensures
            r == self.spec_group_bit(),
            r == 4 || r == 5,
    {
        if self.is_direction() {
            SELECT_DIRECTION_BIT
        } else {
            SELECT_FUNC_BIT
        }
    }
}

/// The joypad register at 0xFF00.
///
/// `reg` holds the state of the keys: a clear bit among the low four is a
/// key that is pressed, and a clear bit 4 or 5 tells that a key of that
/// group is. `select_mask` is the byte that the program wrote last: a clear
/// bit 4 or 5 in it selects the group to be read.
#[derive(Debug, Clone, Copy, PartialEq, Eq, Structural)]
pub struct Joypad {
    pub reg: u8,
    pub select_mask: u8,
}

impl Joypad {
    /// Whether `key` counts as pressed: its bit and the bit of its group
    /// are clear.
    pub open spec fn spec_is_down(self, key: JoypadKey) -> bool {
        !spec_test_bit(self.reg, key.spec_bit()) && !spec_test_bit(self.reg, key.spec_group_bit())
    }

    /// The register after `key` went down.
    pub open spec fn spec_keydown(self, key: JoypadKey) -> Joypad {
        Joypad {
            reg: spec_clear_bit(spec_clear_bit(self.reg, key.spec_group_bit()), key.spec_bit()),
            ..self
        }
    }

    /// The register after `key` went up.
    pub open spec fn spec_keyup(self, key: JoypadKey) -> Joypad {
        Joypad {
            reg: spec_set_bit(spec_set_bit(self.reg, key.spec_group_bit()), key.spec_bit()),
            ..self
        }
    }

    /// Returns a joypad with no key pressed and no group selected.
    pub fn new() -> (r: Joypad)
        ensures
            r.reg == 0xff,
            r.select_mask == 0xff,
    {
        Joypad { reg: 0xff, select_mask: 0xff }
    }

    /// Returns whether `key` counts as pressed.
    pub fn is_down(&self, key: JoypadKey) -> (r: bool)
        ensures
            r == self.spec_is_down(key),
    {
        !test_bit(self.reg, key.bit()) && !test_bit(self.reg, key.group_bit())
    }

    /// Presses `key`. A key that was not pressed before requests the joypad
    /// interrupt.
    pub fn keydown(&mut self, key: JoypadKey, intf: &mut IntReg)
        ensures
            *final(self) == old(self).spec_keydown(key),
            final(intf).data == (if old(self).spec_is_down(key) {
                old(intf).data
            } else {
                spec_set_bit(old(intf).data, IntFlag::Joypad.spec_bit())
            }),
    {
        let was_down = self.is_down(key);
        self.reg = clear_bit(clear_bit(self.reg, key.group_bit()), key.bit());
        if !was_down {
            intf.req(IntFlag::Joypad);
        }
    }

    /// Releases `key`.
    pub fn keyup(&mut self, key: JoypadKey)
        ensures
            *final(self) == old(self).spec_keyup(key),
    {
        self.reg = set_bit(set_bit(self.reg, key.group_bit()), key.bit());
    }
}

/// The keys in the order in which a host looks at them.
pub open spec fn spec_key(i: int) -> JoypadKey {
    if i == 0 {
        JoypadKey::Right
    } else if i == 1 {
        JoypadKey::Up
    } else if i == 2 {
        JoypadKey::Left
    } else if i == 3 {
        JoypadKey::Down
    } else if i == 4 {
        JoypadKey::A
    } else if i == 5 {
        JoypadKey::B
    } else if i == 6 {
        JoypadKey::Select
    } else {
        JoypadKey::Start
    }
}

/// Returns the key number `i` in the order in which a host looks at them.
pub fn key(i: usize) -> (r: JoypadKey)
    ensures
        r == spec_key(i as int),
{
    if i == 0 {
        JoypadKey::Right
    } else if i == 1 {
        JoypadKey::Up
    } else if i == 2 {
        JoypadKey::Left
    } else if i == 3 {
        JoypadKey::Down
    } else if i == 4 {
        JoypadKey::A
    } else if i == 5 {
        JoypadKey::B
    } else if i == 6 {
        JoypadKey::Select
    } else {
        JoypadKey::Start
    }
}

impl Joypad {
    /// The joypad and the interrupt flags after a host has looked at the
    /// keys from number `from` on, `held` telling which of them it holds
    /// down: each key that is not held is released, up to the first key
    /// that is held; that key is pressed, and the keys behind it are left
    /// as they are.
    pub open spec fn spec_polled(self, intf: u8, held: Seq<bool>, from: int) -> (Joypad, u8)
        decreases 8 - from,
    {
        if from >= 8 || from < 0 || from >= held.len() {
            (self, intf)
        } else if held[from] {
            (
                self.spec_keydown(spec_key(from)),
                if self.spec_is_down(spec_key(from)) {
                    intf
                } else {
                    spec_set_bit(intf, IntFlag::Joypad.spec_bit())
                },
            )
        } else {
            self.spec_keyup(spec_key(from)).spec_polled(intf, held, from + 1)
        }
    }

    /// Takes up the state of the keys of a host. `held` tells of each of
    /// the keys Right, Up, Left, Down, A, B, Select and Start, in this
    /// order, whether it is held down.
    pub fn poll(&mut self, held: &[bool; 8], intf: &mut IntReg)
        ensures
            (*final(self), final(intf).data) == old(self).spec_polled(old(intf).data, held@, 0),
    {
        let mut i: usize = 0;
        while i < 8
            invariant
                i <= 8,
                held@.len() == 8,
                old(self).spec_polled(old(intf).data, held@, 0) == self.spec_polled(
                    intf.data,
                    held@,
                    i as int,
                ),
            decreases 8 - i,
        {
            if held[i] {
                self.keydown(key(i), intf);
                return ;
            } else {
                self.keyup(key(i));
            }
            i = i + 1;
        }
    }
}

impl IOHandler for Joypad {
    /// A read returns the state of the keys where the group that the
    /// program has selected has a key pressed, the directions before the
    /// buttons; else 0xFF.
    open spec fn byte_at(&self, a: u16) -> u8 {
        if !spec_test_bit(self.select_mask, SELECT_DIRECTION_BIT) {
            if !spec_test_bit(self.reg, SELECT_DIRECTION_BIT) {
                self.reg
            } else {
                0xff
            }
        } else if !spec_test_bit(self.select_mask, SELECT_FUNC_BIT) {
            if !spec_test_bit(self.reg, SELECT_FUNC_BIT) {
                self.reg
            } else {
                0xff
            }
        } else {
            0xff
        }
    }

    /// A write selects the group to be read.
    open spec fn stored(&self, a: u16, v: u8, after: Self) -> bool {
        after == (Joypad { select_mask: v, ..*self })
    }

    fn read_byte(&self, a: u16) -> (r: u8) {
        if !test_bit(self.select_mask, SELECT_DIRECTION_BIT) {
            if !test_bit(self.reg, SELECT_DIRECTION_BIT) {
                self.reg
            } else {
                0xff
            }
        } else if !test_bit(self.select_mask, SELECT_FUNC_BIT) {
            if !test_bit(self.reg, SELECT_FUNC_BIT) {
                self.reg
            } else {
                0xff
            }
        } else {
            0xff
        }
    }

    fn write_byte(&mut self, a: u16, v: u8) {
        self.select_mask = v;
    }
}

} // verus!
