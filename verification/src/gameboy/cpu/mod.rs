//! The processor.

pub mod alu;
pub mod cpu;
pub mod decode;
pub mod dispatch;
pub mod laws;
pub mod op_arith;
pub mod op_flow;
pub mod op_load;
pub mod op_misc;
pub mod op_prefix;
pub mod opcode_set;
pub mod register;
pub mod snapshot;
pub mod step;

pub use cpu::CPU;
pub use register::Flag;
pub use register::IntFlag;
pub use register::IntReg;
pub use register::Register;
pub use register::RegisterView;
