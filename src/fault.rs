use vstd::prelude::*;

verus! {

/// The two fatal conditions of the core. Neither is recoverable: the
/// stepping loop stops and the host shows the diagnostic dump.
#[derive(Clone, Copy, Debug, PartialEq, Eq, Structural)]
pub enum Fault {
    /// The bus has no backing byte for this address (or refuses the write).
    UnmappedAddress { addr: u16 },
    /// The decoder has no operation for this instruction key.
    UnknownOpcode { prefix: u8, opcode: u8 },
}

} // verus!
