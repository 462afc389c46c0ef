//! The parts of the machine.

pub mod cartridge;
pub mod config;
pub mod cpu;
pub mod debug;
pub mod emulator;
pub mod graphics;
pub mod joypad;
pub mod mmu;
pub mod term;
pub mod timer;
pub mod util;

pub use config::Config;
pub use cpu::Register;
pub use cpu::CPU;
pub use emulator::Emulator;
pub use graphics::gpu;
pub use mmu::IOHandler;
pub use term::Term;
pub use term::CLOCK_FREQUENCY;
pub use term::SCREEN_H;
pub use term::SCREEN_W;
pub use term::STEP_CYCLES;
pub use term::STEP_TIME;
