//! A disassembler for the 8-bit MOS 6502: a table from opcode bytes to
//! operations and addressing modes, a single-pass decoder from bytes to
//! instruction records, and the renderer of the fixed-column listing.

pub mod address_mode;
pub mod api;
pub mod builder;
pub mod decode;
pub mod frontend;
pub mod instruction;
pub mod mini;
pub mod opcode;
pub mod operation;
pub mod text;

pub use address_mode::AddressMode;
pub use api::Api;
pub use builder::InstructionBuilder;
pub use decode::decode;
pub use frontend::Frontend;
pub use instruction::{disassemble, Instruction};
pub use opcode::decode_opcode;
pub use operation::Operation;
