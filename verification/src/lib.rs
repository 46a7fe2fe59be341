use vstd::prelude::*;

pub mod bytes_le;
pub mod command;
pub mod context;
pub mod dispatch;
pub mod fixp;
pub mod frame;
pub mod gbk;
pub mod laws;
pub mod scefile;
pub mod scene;
pub mod state;
pub mod ticks;
pub mod vm;

verus! {

/// Errors the virtual machine can surface while decoding or running a
/// procedure's instruction stream.
#[derive(Clone, Copy, Debug, PartialEq, Eq, Structural)]
pub enum SceError {
    /// A read would extend past the end of the procedure's buffer.
    Truncated,
    /// A call referred to a procedure id the file does not contain.
    ProcMissing(u32),
    /// The dispatcher found no handler for this opcode.
    UnknownOpcode(i32),
}

pub fn error_is_truncated(e: &SceError) -> (r: bool)
    ensures
        r == (e is Truncated),
{
    match e {
        SceError::Truncated => true,
        _ => false,
    }
}

} // verus!
