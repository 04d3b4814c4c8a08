//! System commands and notifications.
use super::error::Error;
use crate::areq::{AreqIn, AreqOut};
use crate::serde_znp::{
    byte_of, copy_bytes, decode_fails, decodes_to, get_bytes, get_u16, get_u8, views,
    DecodeError, Field, Kind, Payload, Value,
};
use crate::sreq::Sreq;
use crate::znp_codec::{Frame, Subsys, ZpiCmd};
use vstd::prelude::*;

verus! {

/// SYS_OSAL_START_TIMER
#[derive(Debug)]
pub struct StartTimer {
    /// 0-3
    pub timer_id: u8,
    /// ms
    pub timeout: u16,
}

impl Payload for StartTimer {
    open spec fn model(&self) -> Seq<Value> {
        seq![Value::U8(self.timer_id), Value::U16(self.timeout)]
    }

    open spec fn kinds() -> Seq<Kind> {
        seq![Kind::U8, Kind::U16]
    }

    open spec fn admits(vs: Seq<Value>) -> bool {
        true
    }

    fn schema() -> (r: Vec<Kind>) {
        vec![Kind::U8, Kind::U16]
    }

    fn to_fields(&self) -> (r: Vec<Field>) {
        let r = vec![Field::U8(self.timer_id), Field::U16(self.timeout)];
        assert(views(r@) =~= self.model());
        r
    }

    fn from_fields(fs: Vec<Field>) -> (r: Result<Self, DecodeError>) {
        let v = StartTimer {
            timer_id: get_u8(&fs, 0),
            timeout: get_u16(&fs, 1),
        };
        assert(v.model() =~= views(fs@));
        Ok(v)
    }

    proof fn lemma_model(&self) {
    }
}

#[derive(Debug)]
pub struct StartTimerRsp {
    pub status: u8,
}

impl Payload for StartTimerRsp {
    open spec fn model(&self) -> Seq<Value> {
        seq![Value::U8(self.status)]
    }

    open spec fn kinds() -> Seq<Kind> {
        seq![Kind::U8]
    }

    open spec fn admits(vs: Seq<Value>) -> bool {
        true
    }

    fn schema() -> (r: Vec<Kind>) {
        vec![Kind::U8]
    }

    fn to_fields(&self) -> (r: Vec<Field>) {
        let r = vec![Field::U8(self.status)];
        assert(views(r@) =~= self.model());
        r
    }

    fn from_fields(fs: Vec<Field>) -> (r: Result<Self, DecodeError>) {
        let v = StartTimerRsp {
            status: get_u8(&fs, 0),
        };
        assert(v.model() =~= views(fs@));
        Ok(v)
    }

    proof fn lemma_model(&self) {
    }
}

impl Sreq for StartTimer {
    type Srsp = StartTimerRsp;

    open spec fn spec_subsys() -> Subsys {
        Subsys::SYS
    }

    open spec fn spec_cmd_id() -> u8 {
        0x0A
    }

    fn subsys() -> (r: Subsys) {
        Subsys::SYS
    }

    fn cmd_id() -> (r: u8) {
        0x0A
    }

    fn max_size() -> (r: usize) {
        3
    }
}

#[derive(Debug, Clone, Copy, PartialEq, Eq, Structural)]
pub enum ResetReason {
    PowerUp,
    External,
    Watchdog,
}

impl ResetReason {
    pub open spec fn spec_code(self) -> u8 {
        match self {
            ResetReason::PowerUp => 0x00,
            ResetReason::External => 0x01,
            ResetReason::Watchdog => 0x02,
        }
    }

    pub open spec fn spec_from_code(c: u8) -> Option<Self> {
        match c {
            0x00 => Some(ResetReason::PowerUp),
            0x01 => Some(ResetReason::External),
            0x02 => Some(ResetReason::Watchdog),
            _ => None,
        }
    }

    pub fn code(self) -> (r: u8)
        ensures
            r == self.spec_code(),
    {
        match self {
            ResetReason::PowerUp => 0x00,
            ResetReason::External => 0x01,
            ResetReason::Watchdog => 0x02,
        }
    }

    pub fn from_u8(c: u8) -> (r: Option<Self>)
        ensures
            r == Self::spec_from_code(c),
            r matches Some(e) ==> e.spec_code() == c,
    {
        match c {
            0x00 => Some(ResetReason::PowerUp),
            0x01 => Some(ResetReason::External),
            0x02 => Some(ResetReason::Watchdog),
            _ => None,
        }
    }
}

/// SYS_RESET_IND
#[derive(Debug)]
pub struct Reset {
    /// Reason for the reset
    pub reason: ResetReason,
    /// Transport protocol revision
    pub transport_rev: u8,
    pub product_id: u8,
    /// Major release number
    pub major_rel: u8,
    /// Minor release number
    pub minor_rel: u8,
    /// Hardware revision number
    pub hw_rev: u8,
}

impl Payload for Reset {
    open spec fn model(&self) -> Seq<Value> {
        seq![
            Value::U8(self.reason.spec_code()),
            Value::U8(self.transport_rev),
            Value::U8(self.product_id),
            Value::U8(self.major_rel),
            Value::U8(self.minor_rel),
            Value::U8(self.hw_rev),
        ]
    }

    open spec fn kinds() -> Seq<Kind> {
        seq![
            Kind::U8,
            Kind::U8,
            Kind::U8,
            Kind::U8,
            Kind::U8,
            Kind::U8,
        ]
    }

    open spec fn admits(vs: Seq<Value>) -> bool {
        ResetReason::spec_from_code(byte_of(vs[0])) is Some
    }

    fn schema() -> (r: Vec<Kind>) {
        vec![
            Kind::U8,
            Kind::U8,
            Kind::U8,
            Kind::U8,
            Kind::U8,
            Kind::U8,
        ]
    }

    fn to_fields(&self) -> (r: Vec<Field>) {
        let r = vec![
            Field::U8(self.reason.code()),
            Field::U8(self.transport_rev),
            Field::U8(self.product_id),
            Field::U8(self.major_rel),
            Field::U8(self.minor_rel),
            Field::U8(self.hw_rev),
        ];
        assert(views(r@) =~= self.model());
        r
    }

    fn from_fields(fs: Vec<Field>) -> (r: Result<Self, DecodeError>) {
        let reason = match ResetReason::from_u8(get_u8(&fs, 0)) {
            Some(e) => e,
            None => {
                return Err(DecodeError::InvalidValue);
            },
        };
        let v = Reset {
            reason,
            transport_rev: get_u8(&fs, 1),
            product_id: get_u8(&fs, 2),
            major_rel: get_u8(&fs, 3),
            minor_rel: get_u8(&fs, 4),
            hw_rev: get_u8(&fs, 5),
        };
        assert(v.model() =~= views(fs@));
        Ok(v)
    }

    proof fn lemma_model(&self) {
    }
}

impl AreqIn for Reset {
    open spec fn spec_subsys() -> Subsys {
        Subsys::SYS
    }

    open spec fn spec_cmd_id() -> u8 {
        0x80
    }
}

/// SYS_OSAL_TIMER_EXPIRED
#[derive(Debug)]
pub struct TimerExpired {
    pub timer_id: u8,
}

impl Payload for TimerExpired {
    open spec fn model(&self) -> Seq<Value> {
        seq![Value::U8(self.timer_id)]
    }

    open spec fn kinds() -> Seq<Kind> {
        seq![Kind::U8]
    }

    open spec fn admits(vs: Seq<Value>) -> bool {
        true
    }

    fn schema() -> (r: Vec<Kind>) {
        vec![Kind::U8]
    }

    fn to_fields(&self) -> (r: Vec<Field>) {
        let r = vec![Field::U8(self.timer_id)];
        assert(views(r@) =~= self.model());
        r
    }

    fn from_fields(fs: Vec<Field>) -> (r: Result<Self, DecodeError>) {
        let v = TimerExpired {
            timer_id: get_u8(&fs, 0),
        };
        assert(v.model() =~= views(fs@));
        Ok(v)
    }

    proof fn lemma_model(&self) {
    }
}

impl AreqIn for TimerExpired {
    open spec fn spec_subsys() -> Subsys {
        Subsys::SYS
    }

    open spec fn spec_cmd_id() -> u8 {
        0x81
    }
}

/// SYS_OSAL_NV_READ
#[derive(Debug)]
pub struct NvRead {
    /// memory item ID
    pub id: u16,
    /// bytes offset from the beginning or the NV value
    pub offset: u8,
}

impl Payload for NvRead {
    open spec fn model(&self) -> Seq<Value> {
        seq![Value::U16(self.id), Value::U8(self.offset)]
    }

    open spec fn kinds() -> Seq<Kind> {
        seq![Kind::U16, Kind::U8]
    }

    open spec fn admits(vs: Seq<Value>) -> bool {
        true
    }

    fn schema() -> (r: Vec<Kind>) {
        vec![Kind::U16, Kind::U8]
    }

    fn to_fields(&self) -> (r: Vec<Field>) {
        let r = vec![Field::U16(self.id), Field::U8(self.offset)];
        assert(views(r@) =~= self.model());
        r
    }

    fn from_fields(fs: Vec<Field>) -> (r: Result<Self, DecodeError>) {
        let v = NvRead {
            id: get_u16(&fs, 0),
            offset: get_u8(&fs, 1),
        };
        assert(v.model() =~= views(fs@));
        Ok(v)
    }

    proof fn lemma_model(&self) {
    }
}

#[derive(Debug)]
pub struct NvReadRsp {
    /// Success 0 or Failure 1
    pub status: u8,
    pub value: Vec<u8>,
}

impl Payload for NvReadRsp {
    open spec fn model(&self) -> Seq<Value> {
        seq![Value::U8(self.status), Value::RestBytes(self.value@)]
    }

    open spec fn kinds() -> Seq<Kind> {
        seq![Kind::U8, Kind::RestBytes]
    }

    open spec fn admits(vs: Seq<Value>) -> bool {
        true
    }

    fn schema() -> (r: Vec<Kind>) {
        vec![Kind::U8, Kind::RestBytes]
    }

    fn to_fields(&self) -> (r: Vec<Field>) {
        let r = vec![Field::U8(self.status), Field::RestBytes(copy_bytes(&self.value))];
        assert(views(r@) =~= self.model());
        r
    }

    fn from_fields(fs: Vec<Field>) -> (r: Result<Self, DecodeError>) {
        let v = NvReadRsp {
            status: get_u8(&fs, 0),
            value: get_bytes(&fs, 1),
        };
        assert(v.model() =~= views(fs@));
        Ok(v)
    }

    proof fn lemma_model(&self) {
    }
}

impl Sreq for NvRead {
    type Srsp = NvReadRsp;

    open spec fn spec_subsys() -> Subsys {
        Subsys::SYS
    }

    open spec fn spec_cmd_id() -> u8 {
        0x08
    }

    fn subsys() -> (r: Subsys) {
        Subsys::SYS
    }

    fn cmd_id() -> (r: u8) {
        0x08
    }

    fn max_size() -> (r: usize) {
        0xFA
    }
}

#[derive(Debug, Clone, Copy, PartialEq, Eq, Structural)]
pub enum ResetType {
    /// Hardware/Watchdog reset
    Hard,
    /// Jump to reset vector
    Soft,
}

impl ResetType {
    pub open spec fn spec_code(self) -> u8 {
        match self {
            ResetType::Hard => 0x00,
            ResetType::Soft => 0x01,
        }
    }

    pub open spec fn spec_from_code(c: u8) -> Option<Self> {
        match c {
            0x00 => Some(ResetType::Hard),
            0x01 => Some(ResetType::Soft),
            _ => None,
        }
    }

    pub fn code(self) -> (r: u8)
        ensures
            r == self.spec_code(),
    {
        match self {
            ResetType::Hard => 0x00,
            ResetType::Soft => 0x01,
        }
    }

    pub fn from_u8(c: u8) -> (r: Option<Self>)
        ensures
            r == Self::spec_from_code(c),
            r matches Some(e) ==> e.spec_code() == c,
    {
        match c {
            0x00 => Some(ResetType::Hard),
            0x01 => Some(ResetType::Soft),
            _ => None,
        }
    }
}

/// SYS_RESET_REQ
#[derive(Debug)]
pub struct ResetReq {
    pub typ: ResetType,
}

impl Payload for ResetReq {
    open spec fn model(&self) -> Seq<Value> {
        seq![Value::U8(self.typ.spec_code())]
    }

    open spec fn kinds() -> Seq<Kind> {
        seq![Kind::U8]
    }

    open spec fn admits(vs: Seq<Value>) -> bool {
        ResetType::spec_from_code(byte_of(vs[0])) is Some
    }

    fn schema() -> (r: Vec<Kind>) {
        vec![Kind::U8]
    }

    fn to_fields(&self) -> (r: Vec<Field>) {
        let r = vec![Field::U8(self.typ.code())];
        assert(views(r@) =~= self.model());
        r
    }

    fn from_fields(fs: Vec<Field>) -> (r: Result<Self, DecodeError>) {
        let typ = match ResetType::from_u8(get_u8(&fs, 0)) {
            Some(e) => e,
            None => {
                return Err(DecodeError::InvalidValue);
            },
        };
        let v = ResetReq {
            typ,
        };
        assert(v.model() =~= views(fs@));
        Ok(v)
    }

    proof fn lemma_model(&self) {
    }
}

impl AreqOut for ResetReq {
    open spec fn spec_subsys() -> Subsys {
        Subsys::SYS
    }

    open spec fn spec_cmd_id() -> u8 {
        0x00
    }

    fn subsys() -> (r: Subsys) {
        Subsys::SYS
    }

    fn cmd_id() -> (r: u8) {
        0x00
    }

    fn max_size() -> (r: usize) {
        1
    }
}

#[derive(Debug)]
pub enum In {
    Reset(Reset),
    TimerExpired(TimerExpired),
}

/// `r` is what classifying `cmd` by its command id gives: the registered
/// message decoded from the payload, the payload error, or `Unimplemented`.
pub open spec fn classifies(cmd: Frame, r: Result<In, Error>) -> bool {
    &&& cmd.cmd_id == 0x80 ==> match r {
        Ok(In::Reset(m)) => decodes_to(cmd.body, &m),
        Err(Error::Payload(e)) => decode_fails::<Reset>(cmd.body, e),
        _ => false,
    }
    &&& cmd.cmd_id == 0x81 ==> match r {
        Ok(In::TimerExpired(m)) => decodes_to(cmd.body, &m),
        Err(Error::Payload(e)) => decode_fails::<TimerExpired>(cmd.body, e),
        _ => false,
    }
    &&& !(cmd.cmd_id == 0x80 || cmd.cmd_id == 0x81) ==> r == Err::<In, Error>(
        Error::Unimplemented { subsys: cmd.subsys, cmd_id: cmd.cmd_id },
    )
}

impl In {
    /// Classifies a notification of this subsystem by its command id.
    pub fn from_cmd(cmd: ZpiCmd) -> (r: Result<Self, Error>)
        ensures
            classifies(cmd@, r),
    {
        match cmd.cmd_id() {
            0x80 => match Reset::parse(cmd) {
                Ok(m) => Ok(In::Reset(m)),
                Err(e) => Err(e),
            },
            0x81 => match TimerExpired::parse(cmd) {
                Ok(m) => Ok(In::TimerExpired(m)),
                Err(e) => Err(e),
            },
            _ => Err(Error::unimplemented(&cmd)),
        }
    }
}

} // verus!
