//! Finds the opcodes that a game client gives to its network packets, by
//! reading the client's executable.
//!
//! The client hands every incoming packet to one dispatch routine, which
//! jumps through a table indexed by the packet's opcode to a block that
//! calls the packet's handler. Given the byte signature of a handler, the
//! analysis finds the handler in the file, the call site in the dispatch
//! routine that reaches it, the block that the call site ends, and the entry
//! of the jump table that leads to that block. The index of the entry, plus
//! the opcode of the first entry, is the handler's opcode.
//!
//! - [`image`]: the bytes of the executable and where its code stands.
//! - [`pattern`]: exact search for a byte sequence.
//! - [`instruction`]: decoded instructions as the analysis reads them.
//! - [`decoder`]: the calls into the instruction decoder.
//! - [`disassemble`]: decoding a byte range and a routine.
//! - [`finder`]: locating the dispatch routine and its jump table, and
//!   resolving handlers to opcodes.
//! - [`first`]: the lowest index at which something holds.
//! - [`error`]: why a step produced no result.

pub mod decoder;
pub mod disassemble;
pub mod error;
pub mod finder;
pub mod first;
pub mod image;
pub mod instruction;
pub mod pattern;
