//! The representation layer of a reflective execution engine: atoms, the
//! 32-bit cells in which programs and objects are written; code objects,
//! which hold atoms and refer to each other; and the trace, which writes
//! them out as text.

pub mod arena;
pub mod atom;
pub mod code;
pub mod code_trace;
pub mod local_object;
pub mod opcode_names;
pub mod payload;
pub mod sink;
pub mod sys_object;
pub mod text;
pub mod time;
pub mod trace;
pub mod u_duration;
pub mod u_timestamp;
pub mod utils;

pub use crate::arena::CodeArena;
pub use crate::atom::Atom;
pub use crate::code::{Code, CodeError, DetailOids};
pub use crate::code_trace::CodeTrace;
pub use crate::local_object::LocalObject;
pub use crate::opcode_names::{get_opcode_name, set_opcode_names, OpcodeNames};
pub use crate::sys_object::SysObject;
pub use crate::trace::TraceContext;
pub use crate::u_duration::UDuration;
pub use crate::u_timestamp::UTimestamp;
pub use crate::utils::Utils;
