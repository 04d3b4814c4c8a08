//! General commands, common to every cluster: attribute reports and
//! command discovery.
use super::error::Error;
use crate::serde_znp::{from_le, lemma_from_le_bound, pow256, read_le, DecodeError};
use crate::zcl::frame::ZclFrame;
use std::collections::HashMap;
use vstd::prelude::*;

verus! {

broadcast use vstd::std_specs::vec::axiom_vec_index_decreases, vstd::std_specs::hash::group_hash_axioms;

/// A type tag of an attribute value.
#[derive(Debug, Clone, Copy, PartialEq, Eq, Structural)]
pub enum VarType {
    Uint8,
    Uint16,
    Uint40,
    Int8,
    Int16,
    Bool,
    Octstr,
    String,
    Struct,
}

impl VarType {
    pub open spec fn spec_code(self) -> u8 {
        match self {
            VarType::Uint8 => 0x20,
            VarType::Uint16 => 0x21,
            VarType::Uint40 => 0x24,
            VarType::Int8 => 0x28,
            VarType::Int16 => 0x29,
            VarType::Bool => 0x10,
            VarType::Octstr => 0x41,
            VarType::String => 0x42,
            VarType::Struct => 0x4c,
        }
    }

    pub open spec fn spec_from_code(c: u8) -> Option<Self> {
        match c {
            0x20 => Some(VarType::Uint8),
            0x21 => Some(VarType::Uint16),
            0x24 => Some(VarType::Uint40),
            0x28 => Some(VarType::Int8),
            0x29 => Some(VarType::Int16),
            0x10 => Some(VarType::Bool),
            0x41 => Some(VarType::Octstr),
            0x42 => Some(VarType::String),
            0x4c => Some(VarType::Struct),
            _ => None,
        }
    }

    pub fn code(self) -> (r: u8)
        ensures
            r == self.spec_code(),
    {
        match self {
            VarType::Uint8 => 0x20,
            VarType::Uint16 => 0x21,
            VarType::Uint40 => 0x24,
            VarType::Int8 => 0x28,
            VarType::Int16 => 0x29,
            VarType::Bool => 0x10,
            VarType::Octstr => 0x41,
            VarType::String => 0x42,
            VarType::Struct => 0x4c,
        }
    }

    pub fn from_u8(c: u8) -> (r: Option<Self>)
        ensures
            r == Self::spec_from_code(c),
            r matches Some(e) ==> e.spec_code() == c,
    {
        match c {
            0x20 => Some(VarType::Uint8),
            0x21 => Some(VarType::Uint16),
            0x24 => Some(VarType::Uint40),
            0x28 => Some(VarType::Int8),
            0x29 => Some(VarType::Int16),
            0x10 => Some(VarType::Bool),
            0x41 => Some(VarType::Octstr),
            0x42 => Some(VarType::String),
            0x4c => Some(VarType::Struct),
            _ => None,
        }
    }
}

/// An attribute value, tagged by its type.
#[derive(Debug)]
pub enum VarTypeVal {
    Uint8(u8),
    Uint16(u16),
    Uint40(u64),
    Int8(i8),
    Int16(i16),
    Bool(bool),
    Octstr(Vec<u8>),
    String(Vec<u8>),
    Struct(Vec<VarTypeVal>),
}

/// The mathematical value of an attribute value.
pub ghost enum AttrValue {
    Uint8(u8),
    Uint16(u16),
    Uint40(u64),
    Int8(i8),
    Int16(i16),
    Bool(bool),
    Octstr(Seq<u8>),
    String(Seq<u8>),
    Struct(Seq<AttrValue>),
}

pub open spec fn attr_view(v: &VarTypeVal) -> AttrValue
    decreases v, 0int,
{
    match v {
        VarTypeVal::Uint8(x) => AttrValue::Uint8(*x),
        VarTypeVal::Uint16(x) => AttrValue::Uint16(*x),
        VarTypeVal::Uint40(x) => AttrValue::Uint40(*x),
        VarTypeVal::Int8(x) => AttrValue::Int8(*x),
        VarTypeVal::Int16(x) => AttrValue::Int16(*x),
        VarTypeVal::Bool(x) => AttrValue::Bool(*x),
        VarTypeVal::Octstr(s) => AttrValue::Octstr(s@),
        VarTypeVal::String(s) => AttrValue::String(s@),
        VarTypeVal::Struct(items) => AttrValue::Struct(attr_views(items, items@.len() as int)),
    }
}

/// The values of the first `n` items.
pub open spec fn attr_views(items: &Vec<VarTypeVal>, n: int) -> Seq<AttrValue>
    decreases items, n,
{
    if n <= 0 || n > items@.len() {
        seq![]
    } else {
        attr_views(items, n - 1).push(attr_view(&items[n - 1]))
    }
}

/// Why an attribute value could not be read.
#[derive(Debug, Clone, Copy, PartialEq, Eq, Structural)]
pub enum ReadError {
    /// The bytes end inside the value.
    UnexpectedEnd,
    /// The type tag names no known type.
    UnknownType(u8),
}

pub open spec fn to_i8(x: u8) -> i8 {
    if x < 128 {
        x as i8
    } else {
        (x - 256) as i8
    }
}

pub open spec fn to_i16(x: u16) -> i16 {
    if x < 32768 {
        x as i16
    } else {
        (x - 65536) as i16
    }
}

/// Reading a value of type `t` at `b[p..]`: the value and where it ends.
pub open spec fn read_spec(t: VarType, b: Seq<u8>, p: int) -> Result<(AttrValue, int), ReadError>
    decreases b.len() - p, 0int, 0int,
{
    let rem = b.len() - p;
    if p < 0 {
        Err(ReadError::UnexpectedEnd)
    } else {
        match t {
            VarType::Uint8 => if rem < 1 {
                Err(ReadError::UnexpectedEnd)
            } else {
                Ok((AttrValue::Uint8(b[p]), p + 1))
            },
            VarType::Uint16 => if rem < 2 {
                Err(ReadError::UnexpectedEnd)
            } else {
                Ok((AttrValue::Uint16(from_le(b, p, 2) as u16), p + 2))
            },
            VarType::Uint40 => if rem < 5 {
                Err(ReadError::UnexpectedEnd)
            } else {
                Ok((AttrValue::Uint40(from_le(b, p, 5) as u64), p + 5))
            },
            VarType::Int8 => if rem < 1 {
                Err(ReadError::UnexpectedEnd)
            } else {
                Ok((AttrValue::Int8(to_i8(b[p])), p + 1))
            },
            VarType::Int16 => if rem < 2 {
                Err(ReadError::UnexpectedEnd)
            } else {
                Ok((AttrValue::Int16(to_i16(from_le(b, p, 2) as u16)), p + 2))
            },
            VarType::Bool => if rem < 1 {
                Err(ReadError::UnexpectedEnd)
            } else {
                Ok((AttrValue::Bool(b[p] != 0), p + 1))
            },
            VarType::Octstr => if rem < 1 || rem < 1 + b[p] {
                Err(ReadError::UnexpectedEnd)
            } else {
                Ok((AttrValue::Octstr(b.subrange(p + 1, p + 1 + b[p])), p + 1 + b[p]))
            },
            VarType::String => if rem < 1 || rem < 1 + b[p] {
                Err(ReadError::UnexpectedEnd)
            } else {
                Ok((AttrValue::String(b.subrange(p + 1, p + 1 + b[p])), p + 1 + b[p]))
            },
            VarType::Struct => if rem < 2 {
                Err(ReadError::UnexpectedEnd)
            } else {
                let (vs, n) = elems_spec(b, p + 2, from_le(b, p, 2));
                Ok((AttrValue::Struct(vs), n))
            },
        }
    }
}

/// Reading a type tag and a value of that type at `b[pos..]`.
pub open spec fn value_spec(b: Seq<u8>, pos: int) -> Result<(AttrValue, int), ReadError>
    decreases b.len() - pos, 0int, 1int,
{
    if pos < 0 || pos >= b.len() {
        Err(ReadError::UnexpectedEnd)
    } else {
        match VarType::spec_from_code(b[pos]) {
            None => Err(ReadError::UnknownType(b[pos])),
            Some(t) => read_spec(t, b, pos + 1),
        }
    }
}

/// Reading at most `c` tagged values one after another at `b[q..]`: the
/// longest run of well-formed values, and where it ends. A value that does
/// not read (unknown tag, too few bytes) ends the run without an error.
pub open spec fn elems_spec(b: Seq<u8>, q: int, c: nat) -> (Seq<AttrValue>, int)
    decreases b.len() - q, 1int, c,
{
    if c == 0 || q < 0 || q >= b.len() {
        (seq![], q)
    } else {
        match value_spec(b, q) {
            Ok((v, n)) => if q < n <= b.len() {
                let (vs, n2) = elems_spec(b, n, (c - 1) as nat);
                (seq![v] + vs, n2)
            } else {
                (seq![], q)
            },
            Err(_) => (seq![], q),
        }
    }
}

pub open spec fn prepend_elems(pre: Seq<AttrValue>, r: (Seq<AttrValue>, int)) -> (
    Seq<AttrValue>,
    int,
) {
    (pre + r.0, r.1)
}

proof fn lemma_views_push(items: Vec<VarTypeVal>, longer: Vec<VarTypeVal>, n: int)
    requires
        longer@.len() == items@.len() + 1,
        forall|k: int| 0 <= k < items@.len() ==> longer@[k] == items@[k],
        0 <= n <= items@.len(),
    ensures
        attr_views(&longer, n) == attr_views(&items, n),
    decreases n,
{
    if n > 0 {
        lemma_views_push(items, longer, n - 1);
        assert(longer[n - 1] == items[n - 1]);
    }
}

impl VarType {
    /// Reads a value of this type at `b[p..]`; on success also where it ends.
    /// A `Struct` holds the elements read before the first one that does
    /// not read, and ends after the last element kept.
    pub fn read(&self, b: &[u8], p: usize) -> (r: Result<(VarTypeVal, usize), ReadError>)
        requires
            p <= b@.len(),
        ensures
            match r {
                Ok((v, n)) => read_spec(*self, b@, p as int) == Ok::<(AttrValue, int), ReadError>(
                    (attr_view(&v), n as int),
                ) && p < n <= b@.len(),
                Err(e) => read_spec(*self, b@, p as int) == Err::<(AttrValue, int), ReadError>(e),
            },
        decreases b@.len() - p,
    {
        let len = b.len();
        let rem = len - p;
        match self {
            VarType::Uint8 => {
                if rem < 1 {
                    return Err(ReadError::UnexpectedEnd);
                }
                Ok((VarTypeVal::Uint8(b[p]), p + 1))
            },
            VarType::Uint16 => {
                if rem < 2 {
                    return Err(ReadError::UnexpectedEnd);
                }
                let x = read_le(b, p, 2);
                proof {
                    lemma_from_le_bound(b@, p as int, 2);
                    reveal_with_fuel(pow256, 3);
                }
                Ok((VarTypeVal::Uint16(x as u16), p + 2))
            },
            VarType::Uint40 => {
                if rem < 5 {
                    return Err(ReadError::UnexpectedEnd);
                }
                let x = read_le(b, p, 5);
                proof {
                    lemma_from_le_bound(b@, p as int, 5);
                    reveal_with_fuel(pow256, 6);
                }
                Ok((VarTypeVal::Uint40(x), p + 5))
            },
            VarType::Int8 => {
                if rem < 1 {
                    return Err(ReadError::UnexpectedEnd);
                }
                let x = b[p];
                let v: i8 = if x < 128 {
                    x as i8
                } else {
                    (x as i16 - 256) as i8
                };
                assert(v == to_i8(x));
                Ok((VarTypeVal::Int8(v), p + 1))
            },
            VarType::Int16 => {
                if rem < 2 {
                    return Err(ReadError::UnexpectedEnd);
                }
                let x = read_le(b, p, 2);
                proof {
                    lemma_from_le_bound(b@, p as int, 2);
                    reveal_with_fuel(pow256, 3);
                }
                let w = x as u16;
                let v: i16 = if w < 32768 {
                    w as i16
                } else {
                    (w as i32 - 65536) as i16
                };
                assert(v == to_i16(w));
                Ok((VarTypeVal::Int16(v), p + 2))
            },
            VarType::Bool => {
                if rem < 1 {
                    return Err(ReadError::UnexpectedEnd);
                }
                Ok((VarTypeVal::Bool(b[p] != 0), p + 1))
            },
            VarType::Octstr => {
                if rem < 1 || rem - 1 < b[p] as usize {
                    return Err(ReadError::UnexpectedEnd);
                }
                let c = b[p] as usize;
                Ok((VarTypeVal::Octstr(crate::znp_codec::slice_range(b, p + 1, p + 1 + c)), p + 1 + c))
            },
            VarType::String => {
                if rem < 1 || rem - 1 < b[p] as usize {
                    return Err(ReadError::UnexpectedEnd);
                }
                let c = b[p] as usize;
                Ok((VarTypeVal::String(crate::znp_codec::slice_range(b, p + 1, p + 1 + c)), p + 1 + c))
            },
            VarType::Struct => {
                if rem < 2 {
                    return Err(ReadError::UnexpectedEnd);
                }
                let c = read_le(b, p, 2);
                proof {
                    lemma_from_le_bound(b@, p as int, 2);
                    reveal_with_fuel(pow256, 3);
                }
                let ghost total = from_le(b@, p as int, 2);
                let mut out: Vec<VarTypeVal> = Vec::new();
                let mut q: usize = p + 2;
                let mut i: u64 = 0;
                while i < c
                    invariant
                        len == b@.len(),
                        p + 2 <= q <= len,
                        i <= c,
                        c == total,
                        total == from_le(b@, p as int, 2),
                        *self == VarType::Struct,
                        elems_spec(b@, p + 2, total) == prepend_elems(
                            attr_views(&out, out@.len() as int),
                            elems_spec(b@, q as int, (total - i) as nat),
                        ),
                    decreases c - i,
                {
                    let ghost pre = attr_views(&out, out@.len() as int);
                    if q >= len {
                        // the bytes end before the next element: the run ends here
                        i = c;
                        continue;
                    }
                    match VarTypeVal::parse(b, q) {
                        Ok((v, n)) => {
                            let ghost av = attr_view(&v);
                            let ghost old_out = out;
                            proof {
                                let (vs, n2) = elems_spec(b@, n as int, (total - i - 1) as nat);
                                assert(pre + (seq![av] + vs) =~= pre.push(av) + vs);
                            }
                            out.push(v);
                            proof {
                                lemma_views_push(old_out, out, old_out@.len() as int);
                                assert(out[old_out@.len() as int] == v);
                            }
                            q = n;
                            i = i + 1;
                        },
                        Err(_) => {
                            // a malformed element ends the run; what was read is kept
                            i = c;
                        },
                    }
                }
                proof {
                    assert(attr_views(&out, out@.len() as int) + seq![] =~= attr_views(
                        &out,
                        out@.len() as int,
                    ));
                }
                Ok((VarTypeVal::Struct(out), q))
            },
        }
    }
}

impl VarTypeVal {
    /// Reads a type tag and a value of that type at `b[pos..]`.
    pub fn parse(b: &[u8], pos: usize) -> (r: Result<(VarTypeVal, usize), ReadError>)
        requires
            pos <= b@.len(),
        ensures
            match r {
                Ok((v, n)) => value_spec(b@, pos as int) == Ok::<(AttrValue, int), ReadError>(
                    (attr_view(&v), n as int),
                ) && pos < n <= b@.len(),
                Err(e) => value_spec(b@, pos as int) == Err::<(AttrValue, int), ReadError>(e),
            },
        decreases b@.len() - pos,
    {
        if pos >= b.len() {
            return Err(ReadError::UnexpectedEnd);
        }
        let tag = b[pos];
        match VarType::from_u8(tag) {
            None => Err(ReadError::UnknownType(tag)),
            Some(t) => t.read(b, pos + 1),
        }
    }
}

/// A report of attribute values, keyed by attribute index.
#[derive(Debug)]
pub struct AttrReport {
    pub attrs: HashMap<u16, VarTypeVal>,
}

/// The attribute values of a report.
pub open spec fn report_view(r: &AttrReport) -> Map<u16, AttrValue> {
    r.attrs@.map_values(|v: VarTypeVal| attr_view(&v))
}

/// The entries of an attribute report at `b[pos..]`: `{u16 index}{tagged
/// value}` until the bytes run out; an entry that does not read ends the
/// report.
pub open spec fn report_from(b: Seq<u8>, pos: int) -> Seq<(u16, AttrValue)>
    decreases b.len() - pos,
{
    if pos < 0 || b.len() - pos < 2 {
        seq![]
    } else {
        match value_spec(b, pos + 2) {
            Ok((v, n)) => if pos < n <= b.len() {
                seq![(from_le(b, pos, 2) as u16, v)] + report_from(b, n)
            } else {
                seq![]
            },
            Err(_) => seq![],
        }
    }
}

/// The map that the entries build, a later entry replacing an earlier one
/// with the same index.
pub open spec fn report_map(es: Seq<(u16, AttrValue)>) -> Map<u16, AttrValue>
    decreases es.len(),
{
    if es.len() == 0 {
        Map::empty()
    } else {
        report_map(es.drop_last()).insert(es.last().0, es.last().1)
    }
}

/// General command ids.
#[derive(Debug, Clone, Copy, PartialEq, Eq, Structural)]
pub enum CmdId {
    AttrReport,
    DiscoverCmdsRecRsp,
}

impl CmdId {
    pub open spec fn spec_code(self) -> u8 {
        match self {
            CmdId::AttrReport => 0x0a,
            CmdId::DiscoverCmdsRecRsp => 0x12,
        }
    }

    pub open spec fn spec_from_code(c: u8) -> Option<Self> {
        match c {
            0x0a => Some(CmdId::AttrReport),
            0x12 => Some(CmdId::DiscoverCmdsRecRsp),
            _ => None,
        }
    }

    pub fn code(self) -> (r: u8)
        ensures
            r == self.spec_code(),
    {
        match self {
            CmdId::AttrReport => 0x0a,
            CmdId::DiscoverCmdsRecRsp => 0x12,
        }
    }

    pub fn from_u8(c: u8) -> (r: Option<Self>)
        ensures
            r == Self::spec_from_code(c),
            r matches Some(e) ==> e.spec_code() == c,
    {
        match c {
            0x0a => Some(CmdId::AttrReport),
            0x12 => Some(CmdId::DiscoverCmdsRecRsp),
            _ => None,
        }
    }
}

#[derive(Debug)]
pub struct DiscoverCmdsRecRsp {
    pub discovery_complete: bool,
    pub cmd_ids: Vec<u8>,
}

#[derive(Debug)]
pub enum In {
    AttrReport(AttrReport),
    DiscoverCmdsRecRsp(DiscoverCmdsRecRsp),
}

/// `r` is what decoding a general command `cmd_id` with `payload` gives.
pub open spec fn decodes(cmd_id: u8, payload: Seq<u8>, r: Result<In, Error>) -> bool {
    &&& cmd_id == 0x0a ==> (r matches Ok(In::AttrReport(rep)) && report_view(&rep)
        == report_map(report_from(payload, 0)))
    &&& cmd_id == 0x12 ==> if payload.len() == 0 {
        r == Err::<In, Error>(Error::Payload(DecodeError::UnexpectedEnd))
    } else {
        (r matches Ok(In::DiscoverCmdsRecRsp(d)) && d.discovery_complete == (payload[0] != 0)
            && d.cmd_ids@ == payload.subrange(1, payload.len() as int))
    }
    &&& !(cmd_id == 0x0a || cmd_id == 0x12) ==> r == Err::<In, Error>(
        Error::UnknownCmd { cmd_id },
    )
}

/// Reads the entries of an attribute report.
pub fn parse_report(b: &[u8]) -> (r: AttrReport)
    ensures
        report_view(&r) == report_map(report_from(b@, 0)),
{
    let len = b.len();
    let mut attrs: HashMap<u16, VarTypeVal> = HashMap::new();
    let mut pos: usize = 0;
    let ghost mut done: Seq<(u16, AttrValue)> = seq![];
    assert(attrs@.map_values(|v: VarTypeVal| attr_view(&v)) =~= report_map(done));
    while pos < len
        invariant
            len == b@.len(),
            pos <= len,
            report_from(b@, 0) == done + report_from(b@, pos as int),
            attrs@.map_values(|v: VarTypeVal| attr_view(&v)) == report_map(done),
        decreases len - pos,
    {
        if len - pos < 2 {
            proof {
                assert(done + seq![] =~= done);
            }
            pos = len;
        } else {
            let index = read_le(b, pos, 2);
            proof {
                lemma_from_le_bound(b@, pos as int, 2);
                reveal_with_fuel(pow256, 3);
            }
            match VarTypeVal::parse(b, pos + 2) {
                Ok((v, n)) => {
                    let ghost e = (index as u16, attr_view(&v));
                    let ghost prev = attrs@;
                    proof {
                        assert(done + (seq![e] + report_from(b@, n as int)) =~= done.push(e)
                            + report_from(b@, n as int));
                        assert(done.push(e).drop_last() =~= done);
                    }
                    attrs.insert(index as u16, v);
                    proof {
                        assert(attrs@.map_values(|v: VarTypeVal| attr_view(&v)) =~= prev.map_values(
                            |v: VarTypeVal| attr_view(&v),
                        ).insert(e.0, e.1));
                        done = done.push(e);
                    }
                    pos = n;
                },
                Err(_) => {
                    proof {
                        assert(done + seq![] =~= done);
                    }
                    pos = len;
                },
            }
        }
    }
    proof {
        assert(done + seq![] =~= done);
    }
    AttrReport { attrs }
}

impl In {
    /// Decodes a general command by its command id.
    pub fn from_cmd(frame: ZclFrame) -> (r: Result<Self, Error>)
        ensures
            decodes(frame.cmd_id, frame.payload@, r),
    {
        let cmd_id = match CmdId::from_u8(frame.cmd_id) {
            Some(c) => c,
            None => {
                return Err(Error::unknown_cmd(frame.cmd_id));
            },
        };
        let b = frame.payload.as_slice();
        match cmd_id {
            CmdId::AttrReport => Ok(In::AttrReport(parse_report(b))),
            CmdId::DiscoverCmdsRecRsp => {
                if b.len() < 1 {
                    return Err(Error::Payload(DecodeError::UnexpectedEnd));
                }
                let discovery_complete = b[0] != 0;
                let cmd_ids = crate::znp_codec::slice_range(b, 1, b.len());
                Ok(In::DiscoverCmdsRecRsp(DiscoverCmdsRecRsp { discovery_complete, cmd_ids }))
            },
        }
    }
}

} // verus!
