//! Synchronous requests: commands answered by exactly one reply.
use crate::cmd::error::Error;
use crate::serde_znp::{decode_fails, decodes_to, fits, payload_of, serialize, Payload};
use crate::znp_codec::{Frame, Subsys, Type, ZpiCmd};
use vstd::prelude::*;

verus! {

/// A command type with its key, its reply type and its payload bound.
pub trait Sreq: Payload {
    type Srsp: Payload;

    spec fn spec_subsys() -> Subsys;

    spec fn spec_cmd_id() -> u8;

    fn subsys() -> (r: Subsys)
        ensures
            r == Self::spec_subsys(),
    ;

    fn cmd_id() -> (r: u8)
        ensures
            r == Self::spec_cmd_id(),
    ;

    /// Serialized params size; at most 250.
    fn max_size() -> (r: usize)
        ensures
            r <= 250,
    ;

    fn frame(&self) -> (r: ZpiCmd)
        requires
            fits(self),
        ensures
            r@ == (Frame {
                typ: Type::SREQ,
                subsys: Self::spec_subsys(),
                cmd_id: Self::spec_cmd_id(),
                body: payload_of(self),
            }),
    {
        let body = serialize(self);
        ZpiCmd::new(Type::SREQ, Self::subsys(), Self::cmd_id(), body)
    }

    fn parse_res(res: ZpiCmd) -> (r: Result<Self::Srsp, Error>)
        ensures
            match r {
                Ok(v) => decodes_to(res.body@, &v),
                Err(e) => e matches Error::Payload(d) && decode_fails::<Self::Srsp>(res.body@, d),
            },
    {
        match res.parse::<Self::Srsp>() {
            Ok(v) => Ok(v),
            Err(d) => Err(Error::Payload(d)),
        }
    }
}

} // verus!
