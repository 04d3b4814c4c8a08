//! Asynchronous messages: notifications from the device, and commands sent
//! without a reply.
use crate::cmd::error::Error;
use crate::serde_znp::{decode_fails, decodes_to, fits, payload_of, serialize, Payload};
use crate::znp_codec::{Frame, Subsys, Type, ZpiCmd};
use vstd::prelude::*;

verus! {

/// A notification type, keyed by subsystem and command id.
pub trait AreqIn: Payload {
    spec fn spec_subsys() -> Subsys;

    spec fn spec_cmd_id() -> u8;

    fn parse(res: ZpiCmd) -> (r: Result<Self, Error>)
        ensures
            match r {
                Ok(v) => decodes_to(res.body@, &v),
                Err(e) => e matches Error::Payload(d) && decode_fails::<Self>(res.body@, d),
            },
    {
        match res.parse::<Self>() {
            Ok(v) => Ok(v),
            Err(d) => Err(Error::Payload(d)),
        }
    }
}

/// A command sent with no reply expected.
pub trait AreqOut: Payload {
    spec fn spec_subsys() -> Subsys;

    spec fn spec_cmd_id() -> u8;

    fn subsys() -> (r: Subsys)
        ensures
            r == Self::spec_subsys(),
    ;

    fn cmd_id() -> (r: u8)
        ensures
            r == Self::spec_cmd_id(),
    ;

    /// Serialized params size; at most 250.
    fn max_size() -> (r: usize)
        ensures
            r <= 250,
    ;

    fn frame(&self) -> (r: ZpiCmd)
        requires
            fits(self),
        ensures
            r@ == (Frame {
                typ: Type::AREQ,
                subsys: Self::spec_subsys(),
                cmd_id: Self::spec_cmd_id(),
                body: payload_of(self),
            }),
    {
        let body = serialize(self);
        ZpiCmd::new(Type::AREQ, Self::subsys(), Self::cmd_id(), body)
    }
}

} // verus!
