//! The command catalogue and the classification of notifications.
pub mod error;
pub mod types;

pub mod af;
pub mod sys;
pub mod util;
pub mod zb;
pub mod zdo;

use crate::znp_codec::{Frame, Subsys, ZpiCmd};
use error::Error;
use vstd::prelude::*;

verus! {

/// A notification, classified by subsystem.
#[derive(Debug)]
pub enum Areq {
    Sys(sys::In),
    Zdo(zdo::In),
    Af(af::In),
}

/// `r` is what classifying `cmd` gives: by subsystem first, then by command
/// id; an unknown subsystem is `Unimplemented`.
pub open spec fn classifies(cmd: Frame, r: Result<Areq, Error>) -> bool {
    &&& cmd.subsys == Subsys::SYS ==> match r {
        Ok(Areq::Sys(m)) => sys::classifies(cmd, Ok(m)),
        Err(e) => sys::classifies(cmd, Err(e)),
        _ => false,
    }
    &&& cmd.subsys == Subsys::ZDO ==> match r {
        Ok(Areq::Zdo(m)) => zdo::classifies(cmd, Ok(m)),
        Err(e) => zdo::classifies(cmd, Err(e)),
        _ => false,
    }
    &&& cmd.subsys == Subsys::AF ==> match r {
        Ok(Areq::Af(m)) => af::classifies(cmd, Ok(m)),
        Err(e) => af::classifies(cmd, Err(e)),
        _ => false,
    }
    &&& !(cmd.subsys == Subsys::SYS || cmd.subsys == Subsys::ZDO || cmd.subsys == Subsys::AF)
        ==> r == Err::<Areq, Error>(
        Error::Unimplemented { subsys: cmd.subsys, cmd_id: cmd.cmd_id },
    )
}

impl Areq {
    /// Classifies a notification: by subsystem first, then by command id.
    pub fn from_subsys(cmd: ZpiCmd) -> (r: Result<Self, Error>)
        ensures
            classifies(cmd@, r),
    {
        match cmd.subsys() {
            Subsys::SYS => match sys::In::from_cmd(cmd) {
                Ok(m) => Ok(Areq::Sys(m)),
                Err(e) => Err(e),
            },
            Subsys::ZDO => match zdo::In::from_cmd(cmd) {
                Ok(m) => Ok(Areq::Zdo(m)),
                Err(e) => Err(e),
            },
            Subsys::AF => match af::In::from_cmd(cmd) {
                Ok(m) => Ok(Areq::Af(m)),
                Err(e) => Err(e),
            },
            _ => Err(Error::unimplemented(&cmd)),
        }
    }
}

} // verus!
