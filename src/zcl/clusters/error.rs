//! Why a cluster frame could not be decoded.
use super::ClusterId;
use crate::serde_znp::DecodeError;
use vstd::prelude::*;

verus! {

#[derive(Debug, Clone, Copy, PartialEq, Eq, Structural)]
pub enum Error {
    UnknownCmd { cmd_id: u8 },
    UnknownCluser { cluster: u16 },
    UnimplementedCluster { cluster: ClusterId },
    Payload(DecodeError),
}

impl Error {
    pub fn unknown_cmd(cmd_id: u8) -> (r: Self)
        ensures
            r == (Error::UnknownCmd { cmd_id }),
    {
        Error::UnknownCmd { cmd_id }
    }

    pub fn unknown_cluster(cluster: u16) -> (r: Self)
        ensures
            r == (Error::UnknownCluser { cluster }),
    {
        Error::UnknownCluser { cluster }
    }

    pub fn unimplemented_cluster(cluster: ClusterId) -> (r: Self)
        ensures
            r == (Error::UnimplementedCluster { cluster }),
    {
        Error::UnimplementedCluster { cluster }
    }
}

} // verus!
