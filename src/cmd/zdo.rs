//! Device discovery and network management commands and notifications.
use super::error::Error;
use super::types::{addr_words, addrs_of_words, words_of_addrs, Endpoint, IEEEAddr, ShortAddr};
use crate::areq::AreqIn;
use crate::serde_znp::{
    byte_of, copy_bytes, copy_words, decode_fails, decodes_to, get_bool, get_bytes, get_u16,
    get_u64, get_u8, get_words, views, DecodeError, Field, Kind, Payload, Value,
};
use crate::sreq::Sreq;
use crate::znp_codec::{Frame, Subsys, ZpiCmd};
use vstd::prelude::*;

verus! {

/// ZDO_NODE_DESC_REQ
#[derive(Debug)]
pub struct NodeDescReq {
    /// Address to respond to
    pub dest_addr: ShortAddr,
    /// NWKAddrOfInterest - Specifies NWK address of the destination device being queried
    pub query_addr: ShortAddr,
}

impl Payload for NodeDescReq {
    open spec fn model(&self) -> Seq<Value> {
        seq![Value::U16(self.dest_addr.0), Value::U16(self.query_addr.0)]
    }

    open spec fn kinds() -> Seq<Kind> {
        seq![Kind::U16, Kind::U16]
    }

    open spec fn admits(vs: Seq<Value>) -> bool {
        true
    }

    fn schema() -> (r: Vec<Kind>) {
        vec![Kind::U16, Kind::U16]
    }

    fn to_fields(&self) -> (r: Vec<Field>) {
        let r = vec![Field::U16(self.dest_addr.0), Field::U16(self.query_addr.0)];
        assert(views(r@) =~= self.model());
        r
    }

    fn from_fields(fs: Vec<Field>) -> (r: Result<Self, DecodeError>) {
        let v = NodeDescReq {
            dest_addr: ShortAddr(get_u16(&fs, 0)),
            query_addr: ShortAddr(get_u16(&fs, 1)),
        };
        assert(v.model() =~= views(fs@));
        Ok(v)
    }

    proof fn lemma_model(&self) {
    }
}

#[derive(Debug)]
pub struct NodeDescReqRsp {
    /// Success 0 or Failure 1
    pub status: u8,
}

impl Payload for NodeDescReqRsp {
    open spec fn model(&self) -> Seq<Value> {
        seq![Value::U8(self.status)]
    }

    open spec fn kinds() -> Seq<Kind> {
        seq![Kind::U8]
    }

    open spec fn admits(vs: Seq<Value>) -> bool {
        true
    }

    fn schema() -> (r: Vec<Kind>) {
        vec![Kind::U8]
    }

    fn to_fields(&self) -> (r: Vec<Field>) {
        let r = vec![Field::U8(self.status)];
        assert(views(r@) =~= self.model());
        r
    }

    fn from_fields(fs: Vec<Field>) -> (r: Result<Self, DecodeError>) {
        let v = NodeDescReqRsp {
            status: get_u8(&fs, 0),
        };
        assert(v.model() =~= views(fs@));
        Ok(v)
    }

    proof fn lemma_model(&self) {
    }
}

impl Sreq for NodeDescReq {
    type Srsp = NodeDescReqRsp;

    open spec fn spec_subsys() -> Subsys {
        Subsys::ZDO
    }

    open spec fn spec_cmd_id() -> u8 {
        0x02
    }

    fn subsys() -> (r: Subsys) {
        Subsys::ZDO
    }

    fn cmd_id() -> (r: u8) {
        0x02
    }

    fn max_size() -> (r: usize) {
        0x04
    }
}

/// ZDO_NODE_DESC_RSP
#[derive(Debug)]
pub struct NodeDescRsp {
    pub src_addr: ShortAddr,
    /// Success 0 or Failure 1
    pub status: u8,
    pub query_addr: ShortAddr,
    /// LogicalType/ComplexDescriptorAvailable/UserDescriptorAvailable
    pub field1: u8,
    /// APSFlags/FrequencyBand
    pub field2: u8,
    pub mac_capabilities: u8,
    pub manuf_code: u16,
    pub max_buffer_size: u8,
    pub max_in_transfer_size: u16,
    pub server_mask: u16,
    pub max_out_transfer_size: u16,
    pub descriptor_capabilities: u8,
}

impl Payload for NodeDescRsp {
    open spec fn model(&self) -> Seq<Value> {
        seq![
            Value::U16(self.src_addr.0),
            Value::U8(self.status),
            Value::U16(self.query_addr.0),
            Value::U8(self.field1),
            Value::U8(self.field2),
            Value::U8(self.mac_capabilities),
            Value::U16(self.manuf_code),
            Value::U8(self.max_buffer_size),
            Value::U16(self.max_in_transfer_size),
            Value::U16(self.server_mask),
            Value::U16(self.max_out_transfer_size),
            Value::U8(self.descriptor_capabilities),
        ]
    }

    open spec fn kinds() -> Seq<Kind> {
        seq![
            Kind::U16,
            Kind::U8,
            Kind::U16,
            Kind::U8,
            Kind::U8,
            Kind::U8,
            Kind::U16,
            Kind::U8,
            Kind::U16,
            Kind::U16,
            Kind::U16,
            Kind::U8,
        ]
    }

    open spec fn admits(vs: Seq<Value>) -> bool {
        true
    }

    fn schema() -> (r: Vec<Kind>) {
        vec![
            Kind::U16,
            Kind::U8,
            Kind::U16,
            Kind::U8,
            Kind::U8,
            Kind::U8,
            Kind::U16,
            Kind::U8,
            Kind::U16,
            Kind::U16,
            Kind::U16,
            Kind::U8,
        ]
    }

    fn to_fields(&self) -> (r: Vec<Field>) {
        let r = vec![
            Field::U16(self.src_addr.0),
            Field::U8(self.status),
            Field::U16(self.query_addr.0),
            Field::U8(self.field1),
            Field::U8(self.field2),
            Field::U8(self.mac_capabilities),
            Field::U16(self.manuf_code),
            Field::U8(self.max_buffer_size),
            Field::U16(self.max_in_transfer_size),
            Field::U16(self.server_mask),
            Field::U16(self.max_out_transfer_size),
            Field::U8(self.descriptor_capabilities),
        ];
        assert(views(r@) =~= self.model());
        r
    }

    fn from_fields(fs: Vec<Field>) -> (r: Result<Self, DecodeError>) {
        let v = NodeDescRsp {
            src_addr: ShortAddr(get_u16(&fs, 0)),
            status: get_u8(&fs, 1),
            query_addr: ShortAddr(get_u16(&fs, 2)),
            field1: get_u8(&fs, 3),
            field2: get_u8(&fs, 4),
            mac_capabilities: get_u8(&fs, 5),
            manuf_code: get_u16(&fs, 6),
            max_buffer_size: get_u8(&fs, 7),
            max_in_transfer_size: get_u16(&fs, 8),
            server_mask: get_u16(&fs, 9),
            max_out_transfer_size: get_u16(&fs, 10),
            descriptor_capabilities: get_u8(&fs, 11),
        };
        assert(v.model() =~= views(fs@));
        Ok(v)
    }

    proof fn lemma_model(&self) {
    }
}

impl AreqIn for NodeDescRsp {
    open spec fn spec_subsys() -> Subsys {
        Subsys::ZDO
    }

    open spec fn spec_cmd_id() -> u8 {
        0x82
    }
}

/// ZDO_POWER_DESC_REQ
#[derive(Debug)]
pub struct PowerDescReq {
    /// Address to respond to
    pub dest_addr: ShortAddr,
    /// NWKAddrOfInterest - Specifies NWK address of the destination device being queried
    pub query_addr: ShortAddr,
}

impl Payload for PowerDescReq {
    open spec fn model(&self) -> Seq<Value> {
        seq![Value::U16(self.dest_addr.0), Value::U16(self.query_addr.0)]
    }

    open spec fn kinds() -> Seq<Kind> {
        seq![Kind::U16, Kind::U16]
    }

    open spec fn admits(vs: Seq<Value>) -> bool {
        true
    }

    fn schema() -> (r: Vec<Kind>) {
        vec![Kind::U16, Kind::U16]
    }

    fn to_fields(&self) -> (r: Vec<Field>) {
        let r = vec![Field::U16(self.dest_addr.0), Field::U16(self.query_addr.0)];
        assert(views(r@) =~= self.model());
        r
    }

    fn from_fields(fs: Vec<Field>) -> (r: Result<Self, DecodeError>) {
        let v = PowerDescReq {
            dest_addr: ShortAddr(get_u16(&fs, 0)),
            query_addr: ShortAddr(get_u16(&fs, 1)),
        };
        assert(v.model() =~= views(fs@));
        Ok(v)
    }

    proof fn lemma_model(&self) {
    }
}

#[derive(Debug)]
pub struct PowerDescReqRsp {
    /// Success 0 or Failure 1
    pub status: u8,
}

impl Payload for PowerDescReqRsp {
    open spec fn model(&self) -> Seq<Value> {
        seq![Value::U8(self.status)]
    }

    open spec fn kinds() -> Seq<Kind> {
        seq![Kind::U8]
    }

    open spec fn admits(vs: Seq<Value>) -> bool {
        true
    }

    fn schema() -> (r: Vec<Kind>) {
        vec![Kind::U8]
    }

    fn to_fields(&self) -> (r: Vec<Field>) {
        let r = vec![Field::U8(self.status)];
        assert(views(r@) =~= self.model());
        r
    }

    fn from_fields(fs: Vec<Field>) -> (r: Result<Self, DecodeError>) {
        let v = PowerDescReqRsp {
            status: get_u8(&fs, 0),
        };
        assert(v.model() =~= views(fs@));
        Ok(v)
    }

    proof fn lemma_model(&self) {
    }
}

impl Sreq for PowerDescReq {
    type Srsp = PowerDescReqRsp;

    open spec fn spec_subsys() -> Subsys {
        Subsys::ZDO
    }

    open spec fn spec_cmd_id() -> u8 {
        0x03
    }

    fn subsys() -> (r: Subsys) {
        Subsys::ZDO
    }

    fn cmd_id() -> (r: u8) {
        0x03
    }

    fn max_size() -> (r: usize) {
        0x04
    }
}

/// ZDO_POWER_DESC_RSP
#[derive(Debug)]
pub struct PowerDescRsp {
    pub src_addr: ShortAddr,
    /// Success 0 or Failure 1
    pub status: u8,
    pub query_addr: ShortAddr,
    /// CurrentPowerMode/AvailablePowerSources
    pub field1: u8,
    /// CurrentPowerSource/CurrentPowerSourceLevel
    pub field2: u8,
}

impl Payload for PowerDescRsp {
    open spec fn model(&self) -> Seq<Value> {
        seq![
            Value::U16(self.src_addr.0),
            Value::U8(self.status),
            Value::U16(self.query_addr.0),
            Value::U8(self.field1),
            Value::U8(self.field2),
        ]
    }

    open spec fn kinds() -> Seq<Kind> {
        seq![
            Kind::U16,
            Kind::U8,
            Kind::U16,
            Kind::U8,
            Kind::U8,
        ]
    }

    open spec fn admits(vs: Seq<Value>) -> bool {
        true
    }

    fn schema() -> (r: Vec<Kind>) {
        vec![
            Kind::U16,
            Kind::U8,
            Kind::U16,
            Kind::U8,
            Kind::U8,
        ]
    }

    fn to_fields(&self) -> (r: Vec<Field>) {
        let r = vec![
            Field::U16(self.src_addr.0),
            Field::U8(self.status),
            Field::U16(self.query_addr.0),
            Field::U8(self.field1),
            Field::U8(self.field2),
        ];
        assert(views(r@) =~= self.model());
        r
    }

    fn from_fields(fs: Vec<Field>) -> (r: Result<Self, DecodeError>) {
        let v = PowerDescRsp {
            src_addr: ShortAddr(get_u16(&fs, 0)),
            status: get_u8(&fs, 1),
            query_addr: ShortAddr(get_u16(&fs, 2)),
            field1: get_u8(&fs, 3),
            field2: get_u8(&fs, 4),
        };
        assert(v.model() =~= views(fs@));
        Ok(v)
    }

    proof fn lemma_model(&self) {
    }
}

impl AreqIn for PowerDescRsp {
    open spec fn spec_subsys() -> Subsys {
        Subsys::ZDO
    }

    open spec fn spec_cmd_id() -> u8 {
        0x83
    }
}

/// ZDO_SIMPLE_DESC_REQ
#[derive(Debug)]
pub struct SimpleDescReq {
    /// Address to respond to
    pub dest_addr: ShortAddr,
    /// NWKAddrOfInterest - Specifies NWK address of the destination device being queried
    pub query_addr: ShortAddr,
    /// Specifies the application endpoint the data is from
    pub endpoint: Endpoint,
}

impl Payload for SimpleDescReq {
    open spec fn model(&self) -> Seq<Value> {
        seq![
            Value::U16(self.dest_addr.0),
            Value::U16(self.query_addr.0),
            Value::U8(self.endpoint.0),
        ]
    }

    open spec fn kinds() -> Seq<Kind> {
        seq![Kind::U16, Kind::U16, Kind::U8]
    }

    open spec fn admits(vs: Seq<Value>) -> bool {
        true
    }

    fn schema() -> (r: Vec<Kind>) {
        vec![Kind::U16, Kind::U16, Kind::U8]
    }

    fn to_fields(&self) -> (r: Vec<Field>) {
        let r = vec![
            Field::U16(self.dest_addr.0),
            Field::U16(self.query_addr.0),
            Field::U8(self.endpoint.0),
        ];
        assert(views(r@) =~= self.model());
        r
    }

    fn from_fields(fs: Vec<Field>) -> (r: Result<Self, DecodeError>) {
        let v = SimpleDescReq {
            dest_addr: ShortAddr(get_u16(&fs, 0)),
            query_addr: ShortAddr(get_u16(&fs, 1)),
            endpoint: Endpoint(get_u8(&fs, 2)),
        };
        assert(v.model() =~= views(fs@));
        Ok(v)
    }

    proof fn lemma_model(&self) {
    }
}

#[derive(Debug)]
pub struct SimpleDescReqRsp {
    /// Success 0 or Failure 1
    pub status: u8,
}

impl Payload for SimpleDescReqRsp {
    open spec fn model(&self) -> Seq<Value> {
        seq![Value::U8(self.status)]
    }

    open spec fn kinds() -> Seq<Kind> {
        seq![Kind::U8]
    }

    open spec fn admits(vs: Seq<Value>) -> bool {
        true
    }

    fn schema() -> (r: Vec<Kind>) {
        vec![Kind::U8]
    }

    fn to_fields(&self) -> (r: Vec<Field>) {
        let r = vec![Field::U8(self.status)];
        assert(views(r@) =~= self.model());
        r
    }

    fn from_fields(fs: Vec<Field>) -> (r: Result<Self, DecodeError>) {
        let v = SimpleDescReqRsp {
            status: get_u8(&fs, 0),
        };
        assert(v.model() =~= views(fs@));
        Ok(v)
    }

    proof fn lemma_model(&self) {
    }
}

impl Sreq for SimpleDescReq {
    type Srsp = SimpleDescReqRsp;

    open spec fn spec_subsys() -> Subsys {
        Subsys::ZDO
    }

    open spec fn spec_cmd_id() -> u8 {
        0x04
    }

    fn subsys() -> (r: Subsys) {
        Subsys::ZDO
    }

    fn cmd_id() -> (r: u8) {
        0x04
    }

    fn max_size() -> (r: usize) {
        0x04
    }
}

/// ZDO_SIMPLE_DESC_RSP
#[derive(Debug)]
pub struct SimpleDescRsp {
    pub src_addr: ShortAddr,
    /// Success 0 or Failure 1
    pub status: u8,
    pub query_addr: ShortAddr,
    /// Specifies the length of the simple descriptor
    pub len: u8,
    pub endpoint: Endpoint,
    /// Profile Id for endpoint
    pub profile_id: u16,
    /// Device Description Id for endpoint
    pub device_id: u16,
    /// 0 = Version 1.00, 0x01-0x0F = Reserved
    pub device_version: u8,
    pub input_clusters: Vec<u16>,
    pub output_clusters: Vec<u16>,
}

impl Payload for SimpleDescRsp {
    open spec fn model(&self) -> Seq<Value> {
        seq![
            Value::U16(self.src_addr.0),
            Value::U8(self.status),
            Value::U16(self.query_addr.0),
            Value::U8(self.len),
            Value::U8(self.endpoint.0),
            Value::U16(self.profile_id),
            Value::U16(self.device_id),
            Value::U8(self.device_version),
            Value::Words(self.input_clusters@),
            Value::RestWords(self.output_clusters@),
        ]
    }

    open spec fn kinds() -> Seq<Kind> {
        seq![
            Kind::U16,
            Kind::U8,
            Kind::U16,
            Kind::U8,
            Kind::U8,
            Kind::U16,
            Kind::U16,
            Kind::U8,
            Kind::Words,
            Kind::RestWords,
        ]
    }

    open spec fn admits(vs: Seq<Value>) -> bool {
        true
    }

    fn schema() -> (r: Vec<Kind>) {
        vec![
            Kind::U16,
            Kind::U8,
            Kind::U16,
            Kind::U8,
            Kind::U8,
            Kind::U16,
            Kind::U16,
            Kind::U8,
            Kind::Words,
            Kind::RestWords,
        ]
    }

    fn to_fields(&self) -> (r: Vec<Field>) {
        let r = vec![
            Field::U16(self.src_addr.0),
            Field::U8(self.status),
            Field::U16(self.query_addr.0),
            Field::U8(self.len),
            Field::U8(self.endpoint.0),
            Field::U16(self.profile_id),
            Field::U16(self.device_id),
            Field::U8(self.device_version),
            Field::Words(copy_words(&self.input_clusters)),
            Field::RestWords(copy_words(&self.output_clusters)),
        ];
        assert(views(r@) =~= self.model());
        r
    }

    fn from_fields(fs: Vec<Field>) -> (r: Result<Self, DecodeError>) {
        let v = SimpleDescRsp {
            src_addr: ShortAddr(get_u16(&fs, 0)),
            status: get_u8(&fs, 1),
            query_addr: ShortAddr(get_u16(&fs, 2)),
            len: get_u8(&fs, 3),
            endpoint: Endpoint(get_u8(&fs, 4)),
            profile_id: get_u16(&fs, 5),
            device_id: get_u16(&fs, 6),
            device_version: get_u8(&fs, 7),
            input_clusters: get_words(&fs, 8),
            output_clusters: get_words(&fs, 9),
        };
        assert(v.model() =~= views(fs@));
        Ok(v)
    }

    proof fn lemma_model(&self) {
    }
}

impl AreqIn for SimpleDescRsp {
    open spec fn spec_subsys() -> Subsys {
        Subsys::ZDO
    }

    open spec fn spec_cmd_id() -> u8 {
        0x84
    }
}

/// ZDO_ACTIVE_EP_REQ
#[derive(Debug)]
pub struct ActiveEpReq {
    /// Address to respond to
    pub dest_addr: ShortAddr,
    /// NWKAddrOfInterest - Specifies NWK address of the destination device being queried
    pub query_addr: ShortAddr,
}

impl Payload for ActiveEpReq {
    open spec fn model(&self) -> Seq<Value> {
        seq![Value::U16(self.dest_addr.0), Value::U16(self.query_addr.0)]
    }

    open spec fn kinds() -> Seq<Kind> {
        seq![Kind::U16, Kind::U16]
    }

    open spec fn admits(vs: Seq<Value>) -> bool {
        true
    }

    fn schema() -> (r: Vec<Kind>) {
        vec![Kind::U16, Kind::U16]
    }

    fn to_fields(&self) -> (r: Vec<Field>) {
        let r = vec![Field::U16(self.dest_addr.0), Field::U16(self.query_addr.0)];
        assert(views(r@) =~= self.model());
        r
    }

    fn from_fields(fs: Vec<Field>) -> (r: Result<Self, DecodeError>) {
        let v = ActiveEpReq {
            dest_addr: ShortAddr(get_u16(&fs, 0)),
            query_addr: ShortAddr(get_u16(&fs, 1)),
        };
        assert(v.model() =~= views(fs@));
        Ok(v)
    }

    proof fn lemma_model(&self) {
    }
}

#[derive(Debug)]
pub struct ActiveEpReqRsp {
    /// Success 0 or Failure 1
    pub status: u8,
}

impl Payload for ActiveEpReqRsp {
    open spec fn model(&self) -> Seq<Value> {
        seq![Value::U8(self.status)]
    }

    open spec fn kinds() -> Seq<Kind> {
        seq![Kind::U8]
    }

    open spec fn admits(vs: Seq<Value>) -> bool {
        true
    }

    fn schema() -> (r: Vec<Kind>) {
        vec![Kind::U8]
    }

    fn to_fields(&self) -> (r: Vec<Field>) {
        let r = vec![Field::U8(self.status)];
        assert(views(r@) =~= self.model());
        r
    }

    fn from_fields(fs: Vec<Field>) -> (r: Result<Self, DecodeError>) {
        let v = ActiveEpReqRsp {
            status: get_u8(&fs, 0),
        };
        assert(v.model() =~= views(fs@));
        Ok(v)
    }

    proof fn lemma_model(&self) {
    }
}

impl Sreq for ActiveEpReq {
    type Srsp = ActiveEpReqRsp;

    open spec fn spec_subsys() -> Subsys {
        Subsys::ZDO
    }

    open spec fn spec_cmd_id() -> u8 {
        0x05
    }

    fn subsys() -> (r: Subsys) {
        Subsys::ZDO
    }

    fn cmd_id() -> (r: u8) {
        0x05
    }

    fn max_size() -> (r: usize) {
        0x04
    }
}

/// ZDO_ACTIVE_EP_RSP
#[derive(Debug)]
pub struct ActiveEpRsp {
    pub src_addr: ShortAddr,
    /// Success 0 or Failure 1
    pub status: u8,
    pub query_addr: ShortAddr,
    pub active_eps: Vec<u8>,
}

impl Payload for ActiveEpRsp {
    open spec fn model(&self) -> Seq<Value> {
        seq![
            Value::U16(self.src_addr.0),
            Value::U8(self.status),
            Value::U16(self.query_addr.0),
            Value::RestBytes(self.active_eps@),
        ]
    }

    open spec fn kinds() -> Seq<Kind> {
        seq![
            Kind::U16,
            Kind::U8,
            Kind::U16,
            Kind::RestBytes,
        ]
    }

    open spec fn admits(vs: Seq<Value>) -> bool {
        true
    }

    fn schema() -> (r: Vec<Kind>) {
        vec![
            Kind::U16,
            Kind::U8,
            Kind::U16,
            Kind::RestBytes,
        ]
    }

    fn to_fields(&self) -> (r: Vec<Field>) {
        let r = vec![
            Field::U16(self.src_addr.0),
            Field::U8(self.status),
            Field::U16(self.query_addr.0),
            Field::RestBytes(copy_bytes(&self.active_eps)),
        ];
        assert(views(r@) =~= self.model());
        r
    }

    fn from_fields(fs: Vec<Field>) -> (r: Result<Self, DecodeError>) {
        let v = ActiveEpRsp {
            src_addr: ShortAddr(get_u16(&fs, 0)),
            status: get_u8(&fs, 1),
            query_addr: ShortAddr(get_u16(&fs, 2)),
            active_eps: get_bytes(&fs, 3),
        };
        assert(v.model() =~= views(fs@));
        Ok(v)
    }

    proof fn lemma_model(&self) {
    }
}

impl AreqIn for ActiveEpRsp {
    open spec fn spec_subsys() -> Subsys {
        Subsys::ZDO
    }

    open spec fn spec_cmd_id() -> u8 {
        0x85
    }
}

/// ZDO_COMPLEX_DESC_REQ
#[derive(Debug)]
pub struct ComplexDescReq {
    /// Address to respond to
    pub dest_addr: ShortAddr,
    /// NWKAddrOfInterest - Specifies NWK address of the destination device being queried
    pub query_addr: ShortAddr,
}

impl Payload for ComplexDescReq {
    open spec fn model(&self) -> Seq<Value> {
        seq![Value::U16(self.dest_addr.0), Value::U16(self.query_addr.0)]
    }

    open spec fn kinds() -> Seq<Kind> {
        seq![Kind::U16, Kind::U16]
    }

    open spec fn admits(vs: Seq<Value>) -> bool {
        true
    }

    fn schema() -> (r: Vec<Kind>) {
        vec![Kind::U16, Kind::U16]
    }

    fn to_fields(&self) -> (r: Vec<Field>) {
        let r = vec![Field::U16(self.dest_addr.0), Field::U16(self.query_addr.0)];
        assert(views(r@) =~= self.model());
        r
    }

    fn from_fields(fs: Vec<Field>) -> (r: Result<Self, DecodeError>) {
        let v = ComplexDescReq {
            dest_addr: ShortAddr(get_u16(&fs, 0)),
            query_addr: ShortAddr(get_u16(&fs, 1)),
        };
        assert(v.model() =~= views(fs@));
        Ok(v)
    }

    proof fn lemma_model(&self) {
    }
}

#[derive(Debug)]
pub struct ComplexDescReqRsp {
    /// Success 0 or Failure 1
    pub status: u8,
}

impl Payload for ComplexDescReqRsp {
    open spec fn model(&self) -> Seq<Value> {
        seq![Value::U8(self.status)]
    }

    open spec fn kinds() -> Seq<Kind> {
        seq![Kind::U8]
    }

    open spec fn admits(vs: Seq<Value>) -> bool {
        true
    }

    fn schema() -> (r: Vec<Kind>) {
        vec![Kind::U8]
    }

    fn to_fields(&self) -> (r: Vec<Field>) {
        let r = vec![Field::U8(self.status)];
        assert(views(r@) =~= self.model());
        r
    }

    fn from_fields(fs: Vec<Field>) -> (r: Result<Self, DecodeError>) {
        let v = ComplexDescReqRsp {
            status: get_u8(&fs, 0),
        };
        assert(v.model() =~= views(fs@));
        Ok(v)
    }

    proof fn lemma_model(&self) {
    }
}

impl Sreq for ComplexDescReq {
    type Srsp = ComplexDescReqRsp;

    open spec fn spec_subsys() -> Subsys {
        Subsys::ZDO
    }

    open spec fn spec_cmd_id() -> u8 {
        0x07
    }

    fn subsys() -> (r: Subsys) {
        Subsys::ZDO
    }

    fn cmd_id() -> (r: u8) {
        0x07
    }

    fn max_size() -> (r: usize) {
        0x04
    }
}

/// ZDO_COMPLEX_DESC_RSP
#[derive(Debug)]
pub struct ComplexDescRsp {
    pub src_addr: ShortAddr,
    /// Success 0 or Failure 1
    pub status: u8,
    pub query_addr: ShortAddr,
    /// Array of bytes contains the complex descriptor
    pub complex_descriptor: Vec<u8>,
}

impl Payload for ComplexDescRsp {
    open spec fn model(&self) -> Seq<Value> {
        seq![
            Value::U16(self.src_addr.0),
            Value::U8(self.status),
            Value::U16(self.query_addr.0),
            Value::RestBytes(self.complex_descriptor@),
        ]
    }

    open spec fn kinds() -> Seq<Kind> {
        seq![
            Kind::U16,
            Kind::U8,
            Kind::U16,
            Kind::RestBytes,
        ]
    }

    open spec fn admits(vs: Seq<Value>) -> bool {
        true
    }

    fn schema() -> (r: Vec<Kind>) {
        vec![
            Kind::U16,
            Kind::U8,
            Kind::U16,
            Kind::RestBytes,
        ]
    }

    fn to_fields(&self) -> (r: Vec<Field>) {
        let r = vec![
            Field::U16(self.src_addr.0),
            Field::U8(self.status),
            Field::U16(self.query_addr.0),
            Field::RestBytes(copy_bytes(&self.complex_descriptor)),
        ];
        assert(views(r@) =~= self.model());
        r
    }

    fn from_fields(fs: Vec<Field>) -> (r: Result<Self, DecodeError>) {
        let v = ComplexDescRsp {
            src_addr: ShortAddr(get_u16(&fs, 0)),
            status: get_u8(&fs, 1),
            query_addr: ShortAddr(get_u16(&fs, 2)),
            complex_descriptor: get_bytes(&fs, 3),
        };
        assert(v.model() =~= views(fs@));
        Ok(v)
    }

    proof fn lemma_model(&self) {
    }
}

impl AreqIn for ComplexDescRsp {
    open spec fn spec_subsys() -> Subsys {
        Subsys::ZDO
    }

    open spec fn spec_cmd_id() -> u8 {
        0x87
    }
}

/// ZDO_MGMT_PERMIT_JOIN_REQ
#[derive(Debug)]
pub struct MgmtPermitJoinReq {
    /// Destination address type: 0x02 - Address 16 bit, 0xFF - Broadcast
    pub addr_mode: u8,
    pub dest_addr: ShortAddr,
    /// seconds, 0xff = forever
    pub duration: u8,
    pub tc_significance: u8,
}

impl Payload for MgmtPermitJoinReq {
    open spec fn model(&self) -> Seq<Value> {
        seq![
            Value::U8(self.addr_mode),
            Value::U16(self.dest_addr.0),
            Value::U8(self.duration),
            Value::U8(self.tc_significance),
        ]
    }

    open spec fn kinds() -> Seq<Kind> {
        seq![
            Kind::U8,
            Kind::U16,
            Kind::U8,
            Kind::U8,
        ]
    }

    open spec fn admits(vs: Seq<Value>) -> bool {
        true
    }

    fn schema() -> (r: Vec<Kind>) {
        vec![
            Kind::U8,
            Kind::U16,
            Kind::U8,
            Kind::U8,
        ]
    }

    fn to_fields(&self) -> (r: Vec<Field>) {
        let r = vec![
            Field::U8(self.addr_mode),
            Field::U16(self.dest_addr.0),
            Field::U8(self.duration),
            Field::U8(self.tc_significance),
        ];
        assert(views(r@) =~= self.model());
        r
    }

    fn from_fields(fs: Vec<Field>) -> (r: Result<Self, DecodeError>) {
        let v = MgmtPermitJoinReq {
            addr_mode: get_u8(&fs, 0),
            dest_addr: ShortAddr(get_u16(&fs, 1)),
            duration: get_u8(&fs, 2),
            tc_significance: get_u8(&fs, 3),
        };
        assert(v.model() =~= views(fs@));
        Ok(v)
    }

    proof fn lemma_model(&self) {
    }
}

#[derive(Debug)]
pub struct MgmtPermitJoinReqRsp {
    /// Success 0 or Failure 1
    pub status: u8,
}

impl Payload for MgmtPermitJoinReqRsp {
    open spec fn model(&self) -> Seq<Value> {
        seq![Value::U8(self.status)]
    }

    open spec fn kinds() -> Seq<Kind> {
        seq![Kind::U8]
    }

    open spec fn admits(vs: Seq<Value>) -> bool {
        true
    }

    fn schema() -> (r: Vec<Kind>) {
        vec![Kind::U8]
    }

    fn to_fields(&self) -> (r: Vec<Field>) {
        let r = vec![Field::U8(self.status)];
        assert(views(r@) =~= self.model());
        r
    }

    fn from_fields(fs: Vec<Field>) -> (r: Result<Self, DecodeError>) {
        let v = MgmtPermitJoinReqRsp {
            status: get_u8(&fs, 0),
        };
        assert(v.model() =~= views(fs@));
        Ok(v)
    }

    proof fn lemma_model(&self) {
    }
}

impl Sreq for MgmtPermitJoinReq {
    type Srsp = MgmtPermitJoinReqRsp;

    open spec fn spec_subsys() -> Subsys {
        Subsys::ZDO
    }

    open spec fn spec_cmd_id() -> u8 {
        0x36
    }

    fn subsys() -> (r: Subsys) {
        Subsys::ZDO
    }

    fn cmd_id() -> (r: u8) {
        0x36
    }

    fn max_size() -> (r: usize) {
        0x05
    }
}

/// ZDO_MGMT_PERMIT_JOIN_RSP
#[derive(Debug)]
pub struct MgmtPermitJoinRsp {
    pub src_addr: ShortAddr,
    /// Success 0 or Failure 1
    pub status: u8,
}

impl Payload for MgmtPermitJoinRsp {
    open spec fn model(&self) -> Seq<Value> {
        seq![Value::U16(self.src_addr.0), Value::U8(self.status)]
    }

    open spec fn kinds() -> Seq<Kind> {
        seq![Kind::U16, Kind::U8]
    }

    open spec fn admits(vs: Seq<Value>) -> bool {
        true
    }

    fn schema() -> (r: Vec<Kind>) {
        vec![Kind::U16, Kind::U8]
    }

    fn to_fields(&self) -> (r: Vec<Field>) {
        let r = vec![Field::U16(self.src_addr.0), Field::U8(self.status)];
        assert(views(r@) =~= self.model());
        r
    }

    fn from_fields(fs: Vec<Field>) -> (r: Result<Self, DecodeError>) {
        let v = MgmtPermitJoinRsp {
            src_addr: ShortAddr(get_u16(&fs, 0)),
            status: get_u8(&fs, 1),
        };
        assert(v.model() =~= views(fs@));
        Ok(v)
    }

    proof fn lemma_model(&self) {
    }
}

impl AreqIn for MgmtPermitJoinRsp {
    open spec fn spec_subsys() -> Subsys {
        Subsys::ZDO
    }

    open spec fn spec_cmd_id() -> u8 {
        0xB6
    }
}

/// ZDO_MGMT_PERMIT_JOIN_IND
#[derive(Debug)]
pub struct MgmtPermitJoinInd {
    /// seconds
    pub duration: u8,
}

impl Payload for MgmtPermitJoinInd {
    open spec fn model(&self) -> Seq<Value> {
        seq![Value::U8(self.duration)]
    }

    open spec fn kinds() -> Seq<Kind> {
        seq![Kind::U8]
    }

    open spec fn admits(vs: Seq<Value>) -> bool {
        true
    }

    fn schema() -> (r: Vec<Kind>) {
        vec![Kind::U8]
    }

    fn to_fields(&self) -> (r: Vec<Field>) {
        let r = vec![Field::U8(self.duration)];
        assert(views(r@) =~= self.model());
        r
    }

    fn from_fields(fs: Vec<Field>) -> (r: Result<Self, DecodeError>) {
        let v = MgmtPermitJoinInd {
            duration: get_u8(&fs, 0),
        };
        assert(v.model() =~= views(fs@));
        Ok(v)
    }

    proof fn lemma_model(&self) {
    }
}

impl AreqIn for MgmtPermitJoinInd {
    open spec fn spec_subsys() -> Subsys {
        Subsys::ZDO
    }

    open spec fn spec_cmd_id() -> u8 {
        0xCB
    }
}

#[derive(Debug, Clone, Copy, PartialEq, Eq, Structural)]
pub enum StartupFromAppStatus {
    /// Restored network state
    Restored,
    /// New network state
    New,
    /// Leave and not Started
    Leave,
}

impl StartupFromAppStatus {
    pub open spec fn spec_code(self) -> u8 {
        match self {
            StartupFromAppStatus::Restored => 0x00,
            StartupFromAppStatus::New => 0x01,
            StartupFromAppStatus::Leave => 0x02,
        }
    }

    pub open spec fn spec_from_code(c: u8) -> Option<Self> {
        match c {
            0x00 => Some(StartupFromAppStatus::Restored),
            0x01 => Some(StartupFromAppStatus::New),
            0x02 => Some(StartupFromAppStatus::Leave),
            _ => None,
        }
    }

    pub fn code(self) -> (r: u8)
        ensures
            r == self.spec_code(),
    {
        match self {
            StartupFromAppStatus::Restored => 0x00,
            StartupFromAppStatus::New => 0x01,
            StartupFromAppStatus::Leave => 0x02,
        }
    }

    pub fn from_u8(c: u8) -> (r: Option<Self>)
        ensures
            r == Self::spec_from_code(c),
            r matches Some(e) ==> e.spec_code() == c,
    {
        match c {
            0x00 => Some(StartupFromAppStatus::Restored),
            0x01 => Some(StartupFromAppStatus::New),
            0x02 => Some(StartupFromAppStatus::Leave),
            _ => None,
        }
    }
}

/// ZDO_STARTUP_FROM_APP
#[derive(Debug)]
pub struct StartupFromApp {
    /// StartDelay: time before device starts
    pub delay: u16,
}

impl Payload for StartupFromApp {
    open spec fn model(&self) -> Seq<Value> {
        seq![Value::U16(self.delay)]
    }

    open spec fn kinds() -> Seq<Kind> {
        seq![Kind::U16]
    }

    open spec fn admits(vs: Seq<Value>) -> bool {
        true
    }

    fn schema() -> (r: Vec<Kind>) {
        vec![Kind::U16]
    }

    fn to_fields(&self) -> (r: Vec<Field>) {
        let r = vec![Field::U16(self.delay)];
        assert(views(r@) =~= self.model());
        r
    }

    fn from_fields(fs: Vec<Field>) -> (r: Result<Self, DecodeError>) {
        let v = StartupFromApp {
            delay: get_u16(&fs, 0),
        };
        assert(v.model() =~= views(fs@));
        Ok(v)
    }

    proof fn lemma_model(&self) {
    }
}

#[derive(Debug)]
pub struct StartupFromAppRsp {
    pub status: StartupFromAppStatus,
}

impl Payload for StartupFromAppRsp {
    open spec fn model(&self) -> Seq<Value> {
        seq![Value::U8(self.status.spec_code())]
    }

    open spec fn kinds() -> Seq<Kind> {
        seq![Kind::U8]
    }

    open spec fn admits(vs: Seq<Value>) -> bool {
        StartupFromAppStatus::spec_from_code(byte_of(vs[0])) is Some
    }

    fn schema() -> (r: Vec<Kind>) {
        vec![Kind::U8]
    }

    fn to_fields(&self) -> (r: Vec<Field>) {
        let r = vec![Field::U8(self.status.code())];
        assert(views(r@) =~= self.model());
        r
    }

    fn from_fields(fs: Vec<Field>) -> (r: Result<Self, DecodeError>) {
        let status = match StartupFromAppStatus::from_u8(get_u8(&fs, 0)) {
            Some(e) => e,
            None => {
                return Err(DecodeError::InvalidValue);
            },
        };
        let v = StartupFromAppRsp {
            status,
        };
        assert(v.model() =~= views(fs@));
        Ok(v)
    }

    proof fn lemma_model(&self) {
    }
}

impl Sreq for StartupFromApp {
    type Srsp = StartupFromAppRsp;

    open spec fn spec_subsys() -> Subsys {
        Subsys::ZDO
    }

    open spec fn spec_cmd_id() -> u8 {
        0x40
    }

    fn subsys() -> (r: Subsys) {
        Subsys::ZDO
    }

    fn cmd_id() -> (r: u8) {
        0x40
    }

    fn max_size() -> (r: usize) {
        2
    }
}

/// ZDO_STATE_CHANGE_IND
#[derive(Debug)]
pub struct StateChange {
    pub state: u8,
}

impl Payload for StateChange {
    open spec fn model(&self) -> Seq<Value> {
        seq![Value::U8(self.state)]
    }

    open spec fn kinds() -> Seq<Kind> {
        seq![Kind::U8]
    }

    open spec fn admits(vs: Seq<Value>) -> bool {
        true
    }

    fn schema() -> (r: Vec<Kind>) {
        vec![Kind::U8]
    }

    fn to_fields(&self) -> (r: Vec<Field>) {
        let r = vec![Field::U8(self.state)];
        assert(views(r@) =~= self.model());
        r
    }

    fn from_fields(fs: Vec<Field>) -> (r: Result<Self, DecodeError>) {
        let v = StateChange {
            state: get_u8(&fs, 0),
        };
        assert(v.model() =~= views(fs@));
        Ok(v)
    }

    proof fn lemma_model(&self) {
    }
}

impl AreqIn for StateChange {
    open spec fn spec_subsys() -> Subsys {
        Subsys::ZDO
    }

    open spec fn spec_cmd_id() -> u8 {
        0xC0
    }
}

/// ZDO_END_DEVICE_ANNCE_IND
#[derive(Debug)]
pub struct EndDevAnnce {
    pub src_addr: ShortAddr,
    pub nwk_addr: ShortAddr,
    pub ieee_addr: IEEEAddr,
    pub capabilities: u8,
}

impl Payload for EndDevAnnce {
    open spec fn model(&self) -> Seq<Value> {
        seq![
            Value::U16(self.src_addr.0),
            Value::U16(self.nwk_addr.0),
            Value::U64(self.ieee_addr.0),
            Value::U8(self.capabilities),
        ]
    }

    open spec fn kinds() -> Seq<Kind> {
        seq![
            Kind::U16,
            Kind::U16,
            Kind::U64,
            Kind::U8,
        ]
    }

    open spec fn admits(vs: Seq<Value>) -> bool {
        true
    }

    fn schema() -> (r: Vec<Kind>) {
        vec![
            Kind::U16,
            Kind::U16,
            Kind::U64,
            Kind::U8,
        ]
    }

    fn to_fields(&self) -> (r: Vec<Field>) {
        let r = vec![
            Field::U16(self.src_addr.0),
            Field::U16(self.nwk_addr.0),
            Field::U64(self.ieee_addr.0),
            Field::U8(self.capabilities),
        ];
        assert(views(r@) =~= self.model());
        r
    }

    fn from_fields(fs: Vec<Field>) -> (r: Result<Self, DecodeError>) {
        let v = EndDevAnnce {
            src_addr: ShortAddr(get_u16(&fs, 0)),
            nwk_addr: ShortAddr(get_u16(&fs, 1)),
            ieee_addr: IEEEAddr(get_u64(&fs, 2)),
            capabilities: get_u8(&fs, 3),
        };
        assert(v.model() =~= views(fs@));
        Ok(v)
    }

    proof fn lemma_model(&self) {
    }
}

impl AreqIn for EndDevAnnce {
    open spec fn spec_subsys() -> Subsys {
        Subsys::ZDO
    }

    open spec fn spec_cmd_id() -> u8 {
        0xC1
    }
}

/// ZDO_SRC_RTG_IND
#[derive(Debug)]
pub struct SourceRoute {
    pub dst_addr: ShortAddr,
    pub relay_list: Vec<ShortAddr>,
}

impl Payload for SourceRoute {
    open spec fn model(&self) -> Seq<Value> {
        seq![
            Value::U16(self.dst_addr.0),
            Value::RestWords(addr_words(self.relay_list@)),
        ]
    }

    open spec fn kinds() -> Seq<Kind> {
        seq![Kind::U16, Kind::RestWords]
    }

    open spec fn admits(vs: Seq<Value>) -> bool {
        true
    }

    fn schema() -> (r: Vec<Kind>) {
        vec![Kind::U16, Kind::RestWords]
    }

    fn to_fields(&self) -> (r: Vec<Field>) {
        let r = vec![
            Field::U16(self.dst_addr.0),
            Field::RestWords(words_of_addrs(&self.relay_list)),
        ];
        assert(views(r@) =~= self.model());
        r
    }

    fn from_fields(fs: Vec<Field>) -> (r: Result<Self, DecodeError>) {
        let v = SourceRoute {
            dst_addr: ShortAddr(get_u16(&fs, 0)),
            relay_list: addrs_of_words(get_words(&fs, 1)),
        };
        assert(v.model() =~= views(fs@));
        Ok(v)
    }

    proof fn lemma_model(&self) {
    }
}

impl AreqIn for SourceRoute {
    open spec fn spec_subsys() -> Subsys {
        Subsys::ZDO
    }

    open spec fn spec_cmd_id() -> u8 {
        0xC4
    }
}

/// ZDO_LEAVE_IND
///
/// A device is leaving the network
#[derive(Debug)]
pub struct Leaving {
    /// Source network address
    pub addr: ShortAddr,
    /// Source IEEE address
    pub ieee_addr: IEEEAddr,
    /// true: request, false: indication
    pub request: bool,
    /// true: remove children
    pub children: bool,
    /// true: rejoin
    pub rejoin: bool,
}

impl Payload for Leaving {
    open spec fn model(&self) -> Seq<Value> {
        seq![
            Value::U16(self.addr.0),
            Value::U64(self.ieee_addr.0),
            Value::Bool(self.request),
            Value::Bool(self.children),
            Value::Bool(self.rejoin),
        ]
    }

    open spec fn kinds() -> Seq<Kind> {
        seq![
            Kind::U16,
            Kind::U64,
            Kind::Bool,
            Kind::Bool,
            Kind::Bool,
        ]
    }

    open spec fn admits(vs: Seq<Value>) -> bool {
        true
    }

    fn schema() -> (r: Vec<Kind>) {
        vec![
            Kind::U16,
            Kind::U64,
            Kind::Bool,
            Kind::Bool,
            Kind::Bool,
        ]
    }

    fn to_fields(&self) -> (r: Vec<Field>) {
        let r = vec![
            Field::U16(self.addr.0),
            Field::U64(self.ieee_addr.0),
            Field::Bool(self.request),
            Field::Bool(self.children),
            Field::Bool(self.rejoin),
        ];
        assert(views(r@) =~= self.model());
        r
    }

    fn from_fields(fs: Vec<Field>) -> (r: Result<Self, DecodeError>) {
        let v = Leaving {
            addr: ShortAddr(get_u16(&fs, 0)),
            ieee_addr: IEEEAddr(get_u64(&fs, 1)),
            request: get_bool(&fs, 2),
            children: get_bool(&fs, 3),
            rejoin: get_bool(&fs, 4),
        };
        assert(v.model() =~= views(fs@));
        Ok(v)
    }

    proof fn lemma_model(&self) {
    }
}

impl AreqIn for Leaving {
    open spec fn spec_subsys() -> Subsys {
        Subsys::ZDO
    }

    open spec fn spec_cmd_id() -> u8 {
        0xC9
    }
}

/// ZDO_TC_DEV_IND
///
/// ZDO callback for Trust Center Device Indication
#[derive(Debug)]
pub struct TrustCntDev {
    /// Source network address
    pub addr: ShortAddr,
    /// Source IEEE address
    pub ieee_addr: IEEEAddr,
    /// Parent network address
    pub parent_addr: ShortAddr,
}

impl Payload for TrustCntDev {
    open spec fn model(&self) -> Seq<Value> {
        seq![
            Value::U16(self.addr.0),
            Value::U64(self.ieee_addr.0),
            Value::U16(self.parent_addr.0),
        ]
    }

    open spec fn kinds() -> Seq<Kind> {
        seq![Kind::U16, Kind::U64, Kind::U16]
    }

    open spec fn admits(vs: Seq<Value>) -> bool {
        true
    }

    fn schema() -> (r: Vec<Kind>) {
        vec![Kind::U16, Kind::U64, Kind::U16]
    }

    fn to_fields(&self) -> (r: Vec<Field>) {
        let r = vec![
            Field::U16(self.addr.0),
            Field::U64(self.ieee_addr.0),
            Field::U16(self.parent_addr.0),
        ];
        assert(views(r@) =~= self.model());
        r
    }

    fn from_fields(fs: Vec<Field>) -> (r: Result<Self, DecodeError>) {
        let v = TrustCntDev {
            addr: ShortAddr(get_u16(&fs, 0)),
            ieee_addr: IEEEAddr(get_u64(&fs, 1)),
            parent_addr: ShortAddr(get_u16(&fs, 2)),
        };
        assert(v.model() =~= views(fs@));
        Ok(v)
    }

    proof fn lemma_model(&self) {
    }
}

impl AreqIn for TrustCntDev {
    open spec fn spec_subsys() -> Subsys {
        Subsys::ZDO
    }

    open spec fn spec_cmd_id() -> u8 {
        0xCA
    }
}

#[derive(Debug)]
pub enum In {
    MgmtPermitJoinRsp(MgmtPermitJoinRsp),
    MgmtPermitJoinInd(MgmtPermitJoinInd),
    NodeDescRsp(NodeDescRsp),
    PowerDescRsp(PowerDescRsp),
    SimpleDescRsp(SimpleDescRsp),
    ActiveEpRsp(ActiveEpRsp),
    ComplexDescRsp(ComplexDescRsp),
    StateChange(StateChange),
    SourceRoute(SourceRoute),
    EndDevAnnce(EndDevAnnce),
    Leaving(Leaving),
    TrustCntDev(TrustCntDev),
}

/// `r` is what classifying `cmd` by its command id gives: the registered
/// message decoded from the payload, the payload error, or `Unimplemented`.
pub open spec fn classifies(cmd: Frame, r: Result<In, Error>) -> bool {
    &&& cmd.cmd_id == 0xB6 ==> match r {
        Ok(In::MgmtPermitJoinRsp(m)) => decodes_to(cmd.body, &m),
        Err(Error::Payload(e)) => decode_fails::<MgmtPermitJoinRsp>(cmd.body, e),
        _ => false,
    }
    &&& cmd.cmd_id == 0xCB ==> match r {
        Ok(In::MgmtPermitJoinInd(m)) => decodes_to(cmd.body, &m),
        Err(Error::Payload(e)) => decode_fails::<MgmtPermitJoinInd>(cmd.body, e),
        _ => false,
    }
    &&& cmd.cmd_id == 0x82 ==> match r {
        Ok(In::NodeDescRsp(m)) => decodes_to(cmd.body, &m),
        Err(Error::Payload(e)) => decode_fails::<NodeDescRsp>(cmd.body, e),
        _ => false,
    }
    &&& cmd.cmd_id == 0x83 ==> match r {
        Ok(In::PowerDescRsp(m)) => decodes_to(cmd.body, &m),
        Err(Error::Payload(e)) => decode_fails::<PowerDescRsp>(cmd.body, e),
        _ => false,
    }
    &&& cmd.cmd_id == 0x84 ==> match r {
        Ok(In::SimpleDescRsp(m)) => decodes_to(cmd.body, &m),
        Err(Error::Payload(e)) => decode_fails::<SimpleDescRsp>(cmd.body, e),
        _ => false,
    }
    &&& cmd.cmd_id == 0x85 ==> match r {
        Ok(In::ActiveEpRsp(m)) => decodes_to(cmd.body, &m),
        Err(Error::Payload(e)) => decode_fails::<ActiveEpRsp>(cmd.body, e),
        _ => false,
    }
    &&& cmd.cmd_id == 0x87 ==> match r {
        Ok(In::ComplexDescRsp(m)) => decodes_to(cmd.body, &m),
        Err(Error::Payload(e)) => decode_fails::<ComplexDescRsp>(cmd.body, e),
        _ => false,
    }
    &&& cmd.cmd_id == 0xC0 ==> match r {
        Ok(In::StateChange(m)) => decodes_to(cmd.body, &m),
        Err(Error::Payload(e)) => decode_fails::<StateChange>(cmd.body, e),
        _ => false,
    }
    &&& cmd.cmd_id == 0xC4 ==> match r {
        Ok(In::SourceRoute(m)) => decodes_to(cmd.body, &m),
        Err(Error::Payload(e)) => decode_fails::<SourceRoute>(cmd.body, e),
        _ => false,
    }
    &&& cmd.cmd_id == 0xC1 ==> match r {
        Ok(In::EndDevAnnce(m)) => decodes_to(cmd.body, &m),
        Err(Error::Payload(e)) => decode_fails::<EndDevAnnce>(cmd.body, e),
        _ => false,
    }
    &&& cmd.cmd_id == 0xC9 ==> match r {
        Ok(In::Leaving(m)) => decodes_to(cmd.body, &m),
        Err(Error::Payload(e)) => decode_fails::<Leaving>(cmd.body, e),
        _ => false,
    }
    &&& cmd.cmd_id == 0xCA ==> match r {
        Ok(In::TrustCntDev(m)) => decodes_to(cmd.body, &m),
        Err(Error::Payload(e)) => decode_fails::<TrustCntDev>(cmd.body, e),
        _ => false,
    }
    &&& !(cmd.cmd_id == 0xB6 || cmd.cmd_id == 0xCB || cmd.cmd_id == 0x82 || cmd.cmd_id == 0x83 || cmd.cmd_id == 0x84 || cmd.cmd_id == 0x85 || cmd.cmd_id == 0x87 || cmd.cmd_id == 0xC0 || cmd.cmd_id == 0xC4 || cmd.cmd_id == 0xC1 || cmd.cmd_id == 0xC9 || cmd.cmd_id == 0xCA) ==> r == Err::<In, Error>(
        Error::Unimplemented { subsys: cmd.subsys, cmd_id: cmd.cmd_id },
    )
}

impl In {
    /// Classifies a notification of this subsystem by its command id.
    pub fn from_cmd(cmd: ZpiCmd) -> (r: Result<Self, Error>)
        ensures
            classifies(cmd@, r),
    {
        match cmd.cmd_id() {
            0xB6 => match MgmtPermitJoinRsp::parse(cmd) {
                Ok(m) => Ok(In::MgmtPermitJoinRsp(m)),
                Err(e) => Err(e),
            },
            0xCB => match MgmtPermitJoinInd::parse(cmd) {
                Ok(m) => Ok(In::MgmtPermitJoinInd(m)),
                Err(e) => Err(e),
            },
            0x82 => match NodeDescRsp::parse(cmd) {
                Ok(m) => Ok(In::NodeDescRsp(m)),
                Err(e) => Err(e),
            },
            0x83 => match PowerDescRsp::parse(cmd) {
                Ok(m) => Ok(In::PowerDescRsp(m)),
                Err(e) => Err(e),
            },
            0x84 => match SimpleDescRsp::parse(cmd) {
                Ok(m) => Ok(In::SimpleDescRsp(m)),
                Err(e) => Err(e),
            },
            0x85 => match ActiveEpRsp::parse(cmd) {
                Ok(m) => Ok(In::ActiveEpRsp(m)),
                Err(e) => Err(e),
            },
            0x87 => match ComplexDescRsp::parse(cmd) {
                Ok(m) => Ok(In::ComplexDescRsp(m)),
                Err(e) => Err(e),
            },
            0xC0 => match StateChange::parse(cmd) {
                Ok(m) => Ok(In::StateChange(m)),
                Err(e) => Err(e),
            },
            0xC4 => match SourceRoute::parse(cmd) {
                Ok(m) => Ok(In::SourceRoute(m)),
                Err(e) => Err(e),
            },
            0xC1 => match EndDevAnnce::parse(cmd) {
                Ok(m) => Ok(In::EndDevAnnce(m)),
                Err(e) => Err(e),
            },
            0xC9 => match Leaving::parse(cmd) {
                Ok(m) => Ok(In::Leaving(m)),
                Err(e) => Err(e),
            },
            0xCA => match TrustCntDev::parse(cmd) {
                Ok(m) => Ok(In::TrustCntDev(m)),
                Err(e) => Err(e),
            },
            _ => Err(Error::unimplemented(&cmd)),
        }
    }
}

} // verus!
