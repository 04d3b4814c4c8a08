//! The cluster frame header: a bit-packed control byte, an optional
//! manufacturer code, a sequence number and a command id.
use crate::serde_znp::from_le;
use vstd::prelude::*;

verus! {

#[derive(Debug, Clone, Copy, PartialEq, Eq, Structural)]
pub enum FrameType {
    General,
    Cluster,
}

#[derive(Debug, Clone, Copy, PartialEq, Eq, Structural)]
pub enum Direction {
    ServerToClient,
    ClientToServer,
}

/// The control byte, least significant bit first: frame type (2 bits),
/// manufacturer specific, direction, disable default response, reserved (3
/// bits).
#[derive(Debug, Clone, Copy, PartialEq, Eq, Structural)]
pub struct FrameControl {
    pub frame_type: FrameType,
    pub manufacturer_specific: bool,
    pub direction: Direction,
    pub disable_default_rsp: bool,
    pub reserved: u8,
}

/// The control byte `b` unpacked; `None` when its frame type bits name no
/// frame type.
pub open spec fn control_of(b: u8) -> Option<FrameControl> {
    let t = b & 0x03;
    if t > 1 {
        None
    } else {
        Some(
            FrameControl {
                frame_type: if t == 0 {
                    FrameType::General
                } else {
                    FrameType::Cluster
                },
                manufacturer_specific: b & 0x04 != 0,
                direction: if b & 0x08 == 0 {
                    Direction::ServerToClient
                } else {
                    Direction::ClientToServer
                },
                disable_default_rsp: b & 0x10 != 0,
                reserved: b >> 5,
            },
        )
    }
}

impl FrameControl {
    pub fn unpack(b: u8) -> (r: Option<FrameControl>)
        ensures
            r == control_of(b),
    {
        let t = b & 0x03;
        if t > 1 {
            return None;
        }
        Some(
            FrameControl {
                frame_type: if t == 0 {
                    FrameType::General
                } else {
                    FrameType::Cluster
                },
                manufacturer_specific: b & 0x04 != 0,
                direction: if b & 0x08 == 0 {
                    Direction::ServerToClient
                } else {
                    Direction::ClientToServer
                },
                disable_default_rsp: b & 0x10 != 0,
                reserved: b >> 5,
            },
        )
    }
}

#[derive(Debug)]
pub struct ZclFrame {
    pub frame_control: FrameControl,
    pub manufacturer_code: Option<u16>,
    pub trans_seq_num: u8,
    pub cmd_id: u8,
    pub payload: Vec<u8>,
}

/// The length of the header that control byte `c` announces.
pub open spec fn header_len(c: FrameControl) -> int {
    if c.manufacturer_specific {
        5
    } else {
        3
    }
}

impl ZclFrame {
    /// Splits a cluster frame into header and payload. `None` when the bytes
    /// end inside the header or the frame type bits name no frame type.
    pub fn parse(buf: &[u8]) -> (r: Option<ZclFrame>)
        ensures
            r is Some <==> (buf@.len() >= 1 && control_of(buf@[0]) is Some && buf@.len()
                >= header_len(control_of(buf@[0]).unwrap())),
            r matches Some(f) ==> ({
                let c = control_of(buf@[0]).unwrap();
                let h = header_len(c);
                &&& f.frame_control == c
                &&& f.manufacturer_code == if c.manufacturer_specific {
                    Some(from_le(buf@, 1, 2) as u16)
                } else {
                    None::<u16>
                }
                &&& f.trans_seq_num == buf@[h - 2]
                &&& f.cmd_id == buf@[h - 1]
                &&& f.payload@ == buf@.subrange(h, buf@.len() as int)
            }),
    {
        if buf.len() < 1 {
            return None;
        }
        let frame_control = match FrameControl::unpack(buf[0]) {
            Some(c) => c,
            None => {
                return None;
            },
        };
        let ms = frame_control.manufacturer_specific;
        let h: usize = if ms {
            5
        } else {
            3
        };
        if buf.len() < h {
            return None;
        }
        let manufacturer_code = if ms {
            Some(buf[1] as u16 + 256 * buf[2] as u16)
        } else {
            None
        };
        proof {
            reveal_with_fuel(from_le, 3);
        }
        Some(
            ZclFrame {
                frame_control,
                manufacturer_code,
                trans_seq_num: buf[h - 2],
                cmd_id: buf[h - 1],
                payload: crate::znp_codec::slice_range(buf, h, buf.len()),
            },
        )
    }
}

} // verus!
