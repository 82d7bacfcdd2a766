//! A 16-bit x86 instruction decoder and simulator.
//!
//! The crate decodes a raw byte buffer holding 8086 machine code into a
//! NASM-style assembly listing and, optionally, executes the decoded
//! instructions against a simulated machine (eight 16-bit registers with
//! byte-aliased halves, a 1 MiB memory bank, and a zero flag).

pub mod decode;
pub mod exec;
pub mod laws;
pub mod machine;
pub mod memory;
pub mod render;
pub mod run;
pub mod registers;
pub mod text;

pub use decode::Disp;
pub use decode::EaBase;
pub use decode::Inst;
pub use decode::JumpKind;
pub use decode::Op;
pub use decode::RmOperand;
pub use decode::SimError;
pub use machine::Machine;
pub use machine::MachineView;
pub use memory::MemoryBank;
pub use memory::MEMORY_SIZE;
pub use registers::Register;
pub use registers::RegisterFile;
pub use registers::Registers;
pub use run::disassemble;
pub use run::Disassembly;
pub use run::RunOutcome;
pub use run::StepOutcome;
