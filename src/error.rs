use vstd::prelude::*;

verus! {

/// The ways a decode can end other than with a result.
///
/// `UnknownOpcode` and `InvalidHexCharacter` reach the caller. A push whose
/// operand runs past the input (`TooFewBytesForPush`) and the end of the input
/// (`EndOfStream`) both end a decode normally.
#[derive(Clone, Copy, Debug, PartialEq, Eq, Structural)]
pub enum DisassemblyError {
    UnknownOpcode,
    InvalidHexCharacter,
    TooFewBytesForPush,
    EndOfStream,
}

} // verus!

verus! {

impl From<hex::FromHexError> for DisassemblyError {
    fn from(_e: hex::FromHexError) -> (r: DisassemblyError) {
        DisassemblyError::InvalidHexCharacter
    }
}

impl vstd::std_specs::convert::FromSpecImpl<hex::FromHexError> for DisassemblyError {
    open spec fn obeys_from_spec() -> bool {
        true
    }

    open spec fn from_spec(_e: hex::FromHexError) -> DisassemblyError {
        DisassemblyError::InvalidHexCharacter
    }
}

} // verus!
