//! An instruction-level emulator of the MOS 6502 processor with cycle accounting.
//!
//! The processor (`Cpu`) owns a bus (`Bus`) and runs one whole instruction at a time
//! (`execute_instruction`) or one cycle at a time (`step`). Its behaviour is stated over a
//! mathematical model: `model` gives the registers and memory as values, and
//! `execute::step_spec` says what one instruction does to them and how many cycles it takes.
//! Each instruction family has its own module with the per-instruction rules.
//!
//! Decimal mode is a stored flag only: ADC and SBC are always binary. Illegal opcodes run as
//! two-cycle no-ops. BRK pushes the address two past its opcode (one past the padding byte);
//! PLP and RTI install a pulled status byte except for B, which keeps its current value, and
//! Unused, which is forced on.

pub mod addressing;
pub mod bus;
pub mod status;
pub mod instructions;
pub mod model;
pub mod cpu;
pub mod load_store;
pub mod transfer;
pub mod arithmetic;
pub mod logic;
pub mod shift_rotate;
pub mod inc_dec;
pub mod stack;
pub mod flow_control;
pub mod flags;
pub mod execute;
pub mod interrupts;
pub mod round_trips;

pub use bus::Bus;
pub use cpu::Cpu;
pub use status::StatusRegister;
