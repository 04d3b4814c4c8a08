//! Cluster ids and the dispatch of cluster frames.
pub mod error;
pub mod general;

pub mod on_off;
pub mod rh_measure;
pub mod temp_measure;

use super::frame::{FrameType, ZclFrame};
use error::Error;
use vstd::prelude::*;

verus! {

#[derive(Debug, Clone, Copy, PartialEq, Eq, Structural)]
pub enum ClusterId {
    GenBasic,
    GenOnOff,
    /// Temperature Measurement
    TempMeasure,
    /// Relative Humidity Measurement
    RHMeasurement,
}

pub open spec fn cluster_of(id: u16) -> Option<ClusterId> {
    if id == 0x0000 {
        Some(ClusterId::GenBasic)
    } else if id == 0x0006 {
        Some(ClusterId::GenOnOff)
    } else if id == 0x0402 {
        Some(ClusterId::TempMeasure)
    } else if id == 0x0405 {
        Some(ClusterId::RHMeasurement)
    } else {
        None
    }
}

impl ClusterId {
    pub fn from(cluster_id: u16) -> (r: Result<Self, Error>)
        ensures
            match cluster_of(cluster_id) {
                Some(c) => r == Ok::<ClusterId, Error>(c),
                None => r == Err::<ClusterId, Error>(Error::UnknownCluser { cluster: cluster_id }),
            },
    {
        if cluster_id == 0x0000 {
            Ok(ClusterId::GenBasic)
        } else if cluster_id == 0x0006 {
            Ok(ClusterId::GenOnOff)
        } else if cluster_id == 0x0402 {
            Ok(ClusterId::TempMeasure)
        } else if cluster_id == 0x0405 {
            Ok(ClusterId::RHMeasurement)
        } else {
            Err(Error::unknown_cluster(cluster_id))
        }
    }
}

#[derive(Debug)]
pub enum In {
    General(general::In),
    GenOnOff(on_off::In),
    TempMeasure(temp_measure::In),
    RHMeasurement(rh_measure::In),
}

impl In {
    /// Decodes a cluster frame: a general frame by its general command id,
    /// a cluster-specific frame by the cluster it came from.
    pub fn parse(cluster: ClusterId, frame: ZclFrame) -> (r: Result<Self, Error>)
        ensures
            frame.frame_control.frame_type == FrameType::General ==> match r {
                Ok(In::General(m)) => general::decodes(frame.cmd_id, frame.payload@, Ok(m)),
                Err(e) => general::decodes(frame.cmd_id, frame.payload@, Err(e)),
                _ => false,
            },
            frame.frame_control.frame_type == FrameType::Cluster ==> r == Err::<In, Error>(
                if cluster == ClusterId::GenBasic {
                    Error::UnimplementedCluster { cluster }
                } else {
                    Error::UnknownCmd { cmd_id: frame.cmd_id }
                },
            ),
    {
        match frame.frame_control.frame_type {
            FrameType::General => match general::In::from_cmd(frame) {
                Ok(m) => Ok(In::General(m)),
                Err(e) => Err(e),
            },
            FrameType::Cluster => match cluster {
                ClusterId::GenOnOff => match on_off::In::from_cmd(frame) {
                    Ok(m) => Ok(In::GenOnOff(m)),
                    Err(e) => Err(e),
                },
                ClusterId::TempMeasure => match temp_measure::In::from_cmd(frame) {
                    Ok(m) => Ok(In::TempMeasure(m)),
                    Err(e) => Err(e),
                },
                ClusterId::RHMeasurement => match rh_measure::In::from_cmd(frame) {
                    Ok(m) => Ok(In::RHMeasurement(m)),
                    Err(e) => Err(e),
                },
                ClusterId::GenBasic => Err(Error::unimplemented_cluster(cluster)),
            },
        }
    }
}

} // verus!
