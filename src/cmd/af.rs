//! Application framework commands and notifications.
use super::error::Error;
use super::types::ShortAddr;
use crate::areq::AreqIn;
use crate::serde_znp::{
    copy_bytes, copy_words, decode_fails, decodes_to, get_bool, get_bytes, get_u16, get_u32,
    get_u8, get_words, views, DecodeError, Field, Kind, Payload, Value,
};
use crate::sreq::Sreq;
use crate::znp_codec::{Frame, Subsys, ZpiCmd};
use vstd::prelude::*;

verus! {

/// AF_REGISTER
#[derive(Debug)]
pub struct Register {
    pub ep: u8,
    /// AppProfId
    pub app_prof: u16,
    /// AppDeviceId
    pub dev_type: u16,
    pub dev_ver: u8,
    pub latency_req: u8,
    pub in_clusters: Vec<u16>,
    pub out_clusters: Vec<u16>,
}

impl Payload for Register {
    open spec fn model(&self) -> Seq<Value> {
        seq![
            Value::U8(self.ep),
            Value::U16(self.app_prof),
            Value::U16(self.dev_type),
            Value::U8(self.dev_ver),
            Value::U8(self.latency_req),
            Value::Words(self.in_clusters@),
            Value::RestWords(self.out_clusters@),
        ]
    }

    open spec fn kinds() -> Seq<Kind> {
        seq![
            Kind::U8,
            Kind::U16,
            Kind::U16,
            Kind::U8,
            Kind::U8,
            Kind::Words,
            Kind::RestWords,
        ]
    }

    open spec fn admits(vs: Seq<Value>) -> bool {
        true
    }

    fn schema() -> (r: Vec<Kind>) {
        vec![
            Kind::U8,
            Kind::U16,
            Kind::U16,
            Kind::U8,
            Kind::U8,
            Kind::Words,
            Kind::RestWords,
        ]
    }

    fn to_fields(&self) -> (r: Vec<Field>) {
        let r = vec![
            Field::U8(self.ep),
            Field::U16(self.app_prof),
            Field::U16(self.dev_type),
            Field::U8(self.dev_ver),
            Field::U8(self.latency_req),
            Field::Words(copy_words(&self.in_clusters)),
            Field::RestWords(copy_words(&self.out_clusters)),
        ];
        assert(views(r@) =~= self.model());
        r
    }

    fn from_fields(fs: Vec<Field>) -> (r: Result<Self, DecodeError>) {
        let v = Register {
            ep: get_u8(&fs, 0),
            app_prof: get_u16(&fs, 1),
            dev_type: get_u16(&fs, 2),
            dev_ver: get_u8(&fs, 3),
            latency_req: get_u8(&fs, 4),
            in_clusters: get_words(&fs, 5),
            out_clusters: get_words(&fs, 6),
        };
        assert(v.model() =~= views(fs@));
        Ok(v)
    }

    proof fn lemma_model(&self) {
    }
}

#[derive(Debug)]
pub struct RegisterRsp {
    /// Success 0 or b8 Already Exists
    pub status: u8,
}

impl Payload for RegisterRsp {
    open spec fn model(&self) -> Seq<Value> {
        seq![Value::U8(self.status)]
    }

    open spec fn kinds() -> Seq<Kind> {
        seq![Kind::U8]
    }

    open spec fn admits(vs: Seq<Value>) -> bool {
        true
    }

    fn schema() -> (r: Vec<Kind>) {
        vec![Kind::U8]
    }

    fn to_fields(&self) -> (r: Vec<Field>) {
        let r = vec![Field::U8(self.status)];
        assert(views(r@) =~= self.model());
        r
    }

    fn from_fields(fs: Vec<Field>) -> (r: Result<Self, DecodeError>) {
        let v = RegisterRsp {
            status: get_u8(&fs, 0),
        };
        assert(v.model() =~= views(fs@));
        Ok(v)
    }

    proof fn lemma_model(&self) {
    }
}

impl Sreq for Register {
    type Srsp = RegisterRsp;

    open spec fn spec_subsys() -> Subsys {
        Subsys::AF
    }

    open spec fn spec_cmd_id() -> u8 {
        0x00
    }

    fn subsys() -> (r: Subsys) {
        Subsys::AF
    }

    fn cmd_id() -> (r: u8) {
        0x00
    }

    fn max_size() -> (r: usize) {
        0x49
    }
}

/// AF_INCOMING_MSG
///
/// This callback message is in response to incoming data to any of the registered endpoints on this device.
#[derive(Debug)]
pub struct IncomingMsg {
    pub group: u16,
    pub cluster: u16,
    /// Source network address
    pub addr: ShortAddr,
    pub src_ep: u8,
    pub dest_ep: u8,
    pub was_broadcast: bool,
    pub link_quality: u8,
    pub security_used: bool,
    pub timestamp: u32,
    pub tr_seq: u8,
    pub data: Vec<u8>,
}

impl Payload for IncomingMsg {
    open spec fn model(&self) -> Seq<Value> {
        seq![
            Value::U16(self.group),
            Value::U16(self.cluster),
            Value::U16(self.addr.0),
            Value::U8(self.src_ep),
            Value::U8(self.dest_ep),
            Value::Bool(self.was_broadcast),
            Value::U8(self.link_quality),
            Value::Bool(self.security_used),
            Value::U32(self.timestamp),
            Value::U8(self.tr_seq),
            Value::RestBytes(self.data@),
        ]
    }

    open spec fn kinds() -> Seq<Kind> {
        seq![
            Kind::U16,
            Kind::U16,
            Kind::U16,
            Kind::U8,
            Kind::U8,
            Kind::Bool,
            Kind::U8,
            Kind::Bool,
            Kind::U32,
            Kind::U8,
            Kind::RestBytes,
        ]
    }

    open spec fn admits(vs: Seq<Value>) -> bool {
        true
    }

    fn schema() -> (r: Vec<Kind>) {
        vec![
            Kind::U16,
            Kind::U16,
            Kind::U16,
            Kind::U8,
            Kind::U8,
            Kind::Bool,
            Kind::U8,
            Kind::Bool,
            Kind::U32,
            Kind::U8,
            Kind::RestBytes,
        ]
    }

    fn to_fields(&self) -> (r: Vec<Field>) {
        let r = vec![
            Field::U16(self.group),
            Field::U16(self.cluster),
            Field::U16(self.addr.0),
            Field::U8(self.src_ep),
            Field::U8(self.dest_ep),
            Field::Bool(self.was_broadcast),
            Field::U8(self.link_quality),
            Field::Bool(self.security_used),
            Field::U32(self.timestamp),
            Field::U8(self.tr_seq),
            Field::RestBytes(copy_bytes(&self.data)),
        ];
        assert(views(r@) =~= self.model());
        r
    }

    fn from_fields(fs: Vec<Field>) -> (r: Result<Self, DecodeError>) {
        let v = IncomingMsg {
            group: get_u16(&fs, 0),
            cluster: get_u16(&fs, 1),
            addr: ShortAddr(get_u16(&fs, 2)),
            src_ep: get_u8(&fs, 3),
            dest_ep: get_u8(&fs, 4),
            was_broadcast: get_bool(&fs, 5),
            link_quality: get_u8(&fs, 6),
            security_used: get_bool(&fs, 7),
            timestamp: get_u32(&fs, 8),
            tr_seq: get_u8(&fs, 9),
            data: get_bytes(&fs, 10),
        };
        assert(v.model() =~= views(fs@));
        Ok(v)
    }

    proof fn lemma_model(&self) {
    }
}

impl AreqIn for IncomingMsg {
    open spec fn spec_subsys() -> Subsys {
        Subsys::AF
    }

    open spec fn spec_cmd_id() -> u8 {
        0x81
    }
}

#[derive(Debug)]
pub enum In {
    IncomingMsg(IncomingMsg),
}

/// `r` is what classifying `cmd` by its command id gives: the registered
/// message decoded from the payload, the payload error, or `Unimplemented`.
pub open spec fn classifies(cmd: Frame, r: Result<In, Error>) -> bool {
    &&& cmd.cmd_id == 0x81 ==> match r {
        Ok(In::IncomingMsg(m)) => decodes_to(cmd.body, &m),
        Err(Error::Payload(e)) => decode_fails::<IncomingMsg>(cmd.body, e),
        _ => false,
    }
    &&& !(cmd.cmd_id == 0x81) ==> r == Err::<In, Error>(
        Error::Unimplemented { subsys: cmd.subsys, cmd_id: cmd.cmd_id },
    )
}

impl In {
    /// Classifies a notification of this subsystem by its command id.
    pub fn from_cmd(cmd: ZpiCmd) -> (r: Result<Self, Error>)
        ensures
            classifies(cmd@, r),
    {
        match cmd.cmd_id() {
            0x81 => match IncomingMsg::parse(cmd) {
                Ok(m) => Ok(In::IncomingMsg(m)),
                Err(e) => Err(e),
            },
            _ => Err(Error::unimplemented(&cmd)),
        }
    }
}

} // verus!
