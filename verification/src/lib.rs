//! The core of a Game Boy emulator: CPU interpreter, memory management unit,
//! cartridge bank controllers, pixel processing unit, timer and joypad.
//!
//! Every executable function carries a contract over a mathematical model of
//! the component it belongs to.

pub mod gameboy;
