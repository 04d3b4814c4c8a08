//! Host-side driver logic for a radio coprocessor that speaks a framed
//! serial protocol: the wire codec, the payload codec, the command registry,
//! the reply-correlation state machine and the cluster frame decoder.
#![allow(non_camel_case_types)]

pub mod znp_codec;
pub mod serde_znp;
pub mod areq;
pub mod cmd;
pub mod sreq;
pub mod znp;
pub mod zcl;
