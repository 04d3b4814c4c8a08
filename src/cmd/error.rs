//! Why an incoming frame could not be turned into a typed message.
use crate::serde_znp::DecodeError;
use crate::znp_codec::{Subsys, ZpiCmd};
use vstd::prelude::*;

verus! {

#[derive(Debug, Clone, Copy, PartialEq, Eq, Structural)]
pub enum Error {
    /// No message type is registered for this subsystem and command id.
    Unimplemented { subsys: Subsys, cmd_id: u8 },
    /// The frame is not the one that was expected.
    Mismatched { subsys: Subsys, cmd_id: u8 },
    /// The payload does not decode as the registered type.
    Payload(DecodeError),
}

impl Error {
    pub fn unimplemented(cmd: &ZpiCmd) -> (r: Self)
        ensures
            r == (Error::Unimplemented { subsys: cmd.subsys, cmd_id: cmd.cmd_id }),
    {
        Error::Unimplemented { subsys: cmd.subsys(), cmd_id: cmd.cmd_id() }
    }

    pub fn mismatched(cmd: &ZpiCmd) -> (r: Self)
        ensures
            r == (Error::Mismatched { subsys: cmd.subsys, cmd_id: cmd.cmd_id }),
    {
        Error::Mismatched { subsys: cmd.subsys(), cmd_id: cmd.cmd_id() }
    }
}

impl From<DecodeError> for Error {
    fn from(err: DecodeError) -> (r: Self) {
        Error::Payload(err)
    }
}

impl vstd::std_specs::convert::FromSpecImpl<DecodeError> for Error {
    open spec fn obeys_from_spec() -> bool {
        true
    }

    open spec fn from_spec(err: DecodeError) -> Self {
        Error::Payload(err)
    }
}

} // verus!
