//! Temperature measurement cluster: no cluster-specific command is decoded yet.
use super::error::Error;
use crate::zcl::frame::ZclFrame;
use vstd::prelude::*;

verus! {

/// The commands of this cluster. None is decoded yet: `from_cmd` reports
/// each one as unknown, and never yields `Reserved`.
#[derive(Debug)]
pub enum In {
    Reserved,
}

impl In {
    pub fn from_cmd(cmd: ZclFrame) -> (r: Result<Self, Error>)
        ensures
            r == Err::<In, Error>(Error::UnknownCmd { cmd_id: cmd.cmd_id }),
    {
        Err(Error::unknown_cmd(cmd.cmd_id))
    }
}

} // verus!
