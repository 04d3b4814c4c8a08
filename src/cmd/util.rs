//! Utility commands.
use crate::serde_znp::{get_bool, get_u8, views, DecodeError, Field, Kind, Payload, Value};
use crate::sreq::Sreq;
use crate::znp_codec::Subsys;
use vstd::prelude::*;

verus! {

#[derive(Debug)]
pub struct UtilLedControl {
    pub led_id: u8,
    pub mode: bool,
}

impl Payload for UtilLedControl {
    open spec fn model(&self) -> Seq<Value> {
        seq![Value::U8(self.led_id), Value::Bool(self.mode)]
    }

    open spec fn kinds() -> Seq<Kind> {
        seq![Kind::U8, Kind::Bool]
    }

    open spec fn admits(vs: Seq<Value>) -> bool {
        true
    }

    fn schema() -> (r: Vec<Kind>) {
        vec![Kind::U8, Kind::Bool]
    }

    fn to_fields(&self) -> (r: Vec<Field>) {
        let r = vec![Field::U8(self.led_id), Field::Bool(self.mode)];
        assert(views(r@) =~= self.model());
        r
    }

    fn from_fields(fs: Vec<Field>) -> (r: Result<Self, DecodeError>) {
        let v = UtilLedControl {
            led_id: get_u8(&fs, 0),
            mode: get_bool(&fs, 1),
        };
        assert(v.model() =~= views(fs@));
        Ok(v)
    }

    proof fn lemma_model(&self) {
    }
}

#[derive(Debug)]
pub struct UtilLedControlRsp {
    pub status: u8,
}

impl Payload for UtilLedControlRsp {
    open spec fn model(&self) -> Seq<Value> {
        seq![Value::U8(self.status)]
    }

    open spec fn kinds() -> Seq<Kind> {
        seq![Kind::U8]
    }

    open spec fn admits(vs: Seq<Value>) -> bool {
        true
    }

    fn schema() -> (r: Vec<Kind>) {
        vec![Kind::U8]
    }

    fn to_fields(&self) -> (r: Vec<Field>) {
        let r = vec![Field::U8(self.status)];
        assert(views(r@) =~= self.model());
        r
    }

    fn from_fields(fs: Vec<Field>) -> (r: Result<Self, DecodeError>) {
        let v = UtilLedControlRsp {
            status: get_u8(&fs, 0),
        };
        assert(v.model() =~= views(fs@));
        Ok(v)
    }

    proof fn lemma_model(&self) {
    }
}

impl Sreq for UtilLedControl {
    type Srsp = UtilLedControlRsp;

    open spec fn spec_subsys() -> Subsys {
        Subsys::UTIL
    }

    open spec fn spec_cmd_id() -> u8 {
        0x0A
    }

    fn subsys() -> (r: Subsys) {
        Subsys::UTIL
    }

    fn cmd_id() -> (r: u8) {
        0x0A
    }

    fn max_size() -> (r: usize) {
        2
    }
}

} // verus!
