//! Error kinds surfaced by the decoder, the engine and the debugger.
use vstd::prelude::*;

verus! {

/// What can go wrong inside the core.
///
/// `InvalidOpcode` carries the unrecognized opcode byte and the byte after it,
/// for diagnostic display. `External` wraps a collaborator's failure as text.
#[derive(Clone, Debug, PartialEq, Eq)]
pub enum Error {
    InvalidOpcode(u8, u8),
    External(String),
}

} // verus!
