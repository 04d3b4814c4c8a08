//! Byte-level framing: `[SOF][length][cmd0][cmd1][payload][fcs]`.
use crate::serde_znp::{decode_fails, decodes_to, deserialize, DecodeError, Payload};
use vstd::prelude::*;

verus! {

/// Start-of-frame marker.
pub const SOF: u8 = 0xFE;

/// The largest payload a frame can carry (single-byte length field).
pub const MAX_BODY: usize = 250;

/// Frame type, carried in the high nibble of `cmd0`.
#[derive(Debug, Clone, Copy, PartialEq, Eq, Structural)]
pub enum Type {
    POLL,
    SREQ,
    AREQ,
    SRSP,
}

/// Subsystem, carried in the low nibble of `cmd0`.
#[derive(Debug, Clone, Copy, PartialEq, Eq, Structural)]
pub enum Subsys {
    Reserved,
    SYS,
    MAC,
    NWK,
    AF,
    ZDO,
    SAPI,
    UTIL,
    DEBUG,
    APP,
}

pub open spec fn type_code(t: Type) -> u8 {
    match t {
        Type::POLL => 0x00,
        Type::SREQ => 0x20,
        Type::AREQ => 0x40,
        Type::SRSP => 0x60,
    }
}

pub open spec fn type_of_code(c: u8) -> Option<Type> {
    if c == 0x00 {
        Some(Type::POLL)
    } else if c == 0x20 {
        Some(Type::SREQ)
    } else if c == 0x40 {
        Some(Type::AREQ)
    } else if c == 0x60 {
        Some(Type::SRSP)
    } else {
        None
    }
}

pub open spec fn subsys_code(s: Subsys) -> u8 {
    match s {
        Subsys::Reserved => 0x00,
        Subsys::SYS => 0x01,
        Subsys::MAC => 0x02,
        Subsys::NWK => 0x03,
        Subsys::AF => 0x04,
        Subsys::ZDO => 0x05,
        Subsys::SAPI => 0x06,
        Subsys::UTIL => 0x07,
        Subsys::DEBUG => 0x08,
        Subsys::APP => 0x09,
    }
}

pub open spec fn subsys_of_code(c: u8) -> Option<Subsys> {
    if c == 0x00 {
        Some(Subsys::Reserved)
    } else if c == 0x01 {
        Some(Subsys::SYS)
    } else if c == 0x02 {
        Some(Subsys::MAC)
    } else if c == 0x03 {
        Some(Subsys::NWK)
    } else if c == 0x04 {
        Some(Subsys::AF)
    } else if c == 0x05 {
        Some(Subsys::ZDO)
    } else if c == 0x06 {
        Some(Subsys::SAPI)
    } else if c == 0x07 {
        Some(Subsys::UTIL)
    } else if c == 0x08 {
        Some(Subsys::DEBUG)
    } else if c == 0x09 {
        Some(Subsys::APP)
    } else {
        None
    }
}

impl Type {
    pub fn code(self) -> (r: u8)
        ensures
            r == type_code(self),
    {
        match self {
            Type::POLL => 0x00,
            Type::SREQ => 0x20,
            Type::AREQ => 0x40,
            Type::SRSP => 0x60,
        }
    }

    pub fn from_u8(c: u8) -> (r: Option<Type>)
        ensures
            r == type_of_code(c),
    {
        if c == 0x00 {
            Some(Type::POLL)
        } else if c == 0x20 {
            Some(Type::SREQ)
        } else if c == 0x40 {
            Some(Type::AREQ)
        } else if c == 0x60 {
            Some(Type::SRSP)
        } else {
            None
        }
    }
}

impl Subsys {
    pub fn code(self) -> (r: u8)
        ensures
            r == subsys_code(self),
    {
        match self {
            Subsys::Reserved => 0x00,
            Subsys::SYS => 0x01,
            Subsys::MAC => 0x02,
            Subsys::NWK => 0x03,
            Subsys::AF => 0x04,
            Subsys::ZDO => 0x05,
            Subsys::SAPI => 0x06,
            Subsys::UTIL => 0x07,
            Subsys::DEBUG => 0x08,
            Subsys::APP => 0x09,
        }
    }

    pub fn from_u8(c: u8) -> (r: Option<Subsys>)
        ensures
            r == subsys_of_code(c),
    {
        if c == 0x00 {
            Some(Subsys::Reserved)
        } else if c == 0x01 {
            Some(Subsys::SYS)
        } else if c == 0x02 {
            Some(Subsys::MAC)
        } else if c == 0x03 {
            Some(Subsys::NWK)
        } else if c == 0x04 {
            Some(Subsys::AF)
        } else if c == 0x05 {
            Some(Subsys::ZDO)
        } else if c == 0x06 {
            Some(Subsys::SAPI)
        } else if c == 0x07 {
            Some(Subsys::UTIL)
        } else if c == 0x08 {
            Some(Subsys::DEBUG)
        } else if c == 0x09 {
            Some(Subsys::APP)
        } else {
            None
        }
    }
}

/// Running XOR of a byte sequence.
pub open spec fn xor_all(s: Seq<u8>) -> u8
    decreases s.len(),
{
    if s.len() == 0 {
        0
    } else {
        xor_all(s.drop_last()) ^ s.last()
    }
}

pub fn xor(buf: &[u8]) -> (r: u8)
    ensures
        r == xor_all(buf@),
{
    let mut acc: u8 = 0;
    let mut i: usize = 0;
    while i < buf.len()
        invariant
            i <= buf@.len(),
            acc == xor_all(buf@.subrange(0, i as int)),
        decreases buf@.len() - i,
    {
        assert(buf@.subrange(0, i + 1).drop_last() =~= buf@.subrange(0, i as int));
        acc = acc ^ buf[i];
        i = i + 1;
    }
    assert(buf@.subrange(0, i as int) =~= buf@);
    acc
}

/// One decoded frame: type, subsystem, command id and payload.
#[derive(Debug)]
pub struct ZpiCmd {
    pub typ: Type,
    pub subsys: Subsys,
    pub cmd_id: u8,
    pub body: Vec<u8>,
}

/// The mathematical value of a frame.
pub ghost struct Frame {
    pub typ: Type,
    pub subsys: Subsys,
    pub cmd_id: u8,
    pub body: Seq<u8>,
}

impl View for ZpiCmd {
    type V = Frame;

    open spec fn view(&self) -> Frame {
        Frame { typ: self.typ, subsys: self.subsys, cmd_id: self.cmd_id, body: self.body@ }
    }
}

impl ZpiCmd {
    pub fn new(typ: Type, subsys: Subsys, cmd_id: u8, body: Vec<u8>) -> (r: Self)
        ensures
            r@ == (Frame { typ, subsys, cmd_id, body: body@ }),
    {
        ZpiCmd { typ, subsys, cmd_id, body }
    }

    pub fn typ(&self) -> (r: Type)
        ensures
            r == self.typ,
    {
        self.typ
    }

    pub fn subsys(&self) -> (r: Subsys)
        ensures
            r == self.subsys,
    {
        self.subsys
    }

    pub fn cmd_id(&self) -> (r: u8)
        ensures
            r == self.cmd_id,
    {
        self.cmd_id
    }

    /// Reads the payload as a `T`.
    pub fn parse<T: Payload>(&self) -> (r: Result<T, DecodeError>)
        ensures
            match r {
                Ok(v) => decodes_to(self.body@, &v),
                Err(e) => decode_fails::<T>(self.body@, e),
            },
    {
        deserialize(self.body.as_slice())
    }
}

/// `length`, `cmd0`, `cmd1` and the payload: the bytes the checksum covers.
pub open spec fn checked_part(f: Frame) -> Seq<u8> {
    seq![f.body.len() as u8, (type_code(f.typ) + subsys_code(f.subsys)) as u8, f.cmd_id] + f.body
}

/// The bytes of a frame on the wire.
pub open spec fn frame_bytes(f: Frame) -> Seq<u8> {
    seq![SOF] + checked_part(f) + seq![xor_all(checked_part(f))]
}

/// Why a byte stream or a frame cannot be framed.
#[derive(Debug, Clone, Copy, PartialEq, Eq, Structural)]
pub enum CodecError {
    /// The first buffered byte is not the start-of-frame marker.
    BadSof,
    /// The frame check sequence does not match.
    FcsMismatch,
    /// The high nibble of `cmd0` names no frame type.
    UnknownType(u8),
    /// The low nibble of `cmd0` names no subsystem.
    UnknownSubsys(u8),
    /// The payload is longer than a frame can carry.
    TooLong(usize),
}

/// What decoding a buffer yields: a frame and the number of bytes it took,
/// a wait for more bytes (`None`), or a fatal error.
pub open spec fn decoded(b: Seq<u8>) -> Result<Option<(Frame, nat)>, CodecError> {
    if b.len() < 5 {
        Ok(None)
    } else if b[0] != SOF {
        Err(CodecError::BadSof)
    } else if b.len() < 5 + b[1] {
        Ok(None)
    } else {
        let n = 5 + b[1];
        if xor_all(b.subrange(1, n)) != 0 {
            Err(CodecError::FcsMismatch)
        } else if type_of_code(b[2] & 0xf0) is None {
            Err(CodecError::UnknownType(b[2] & 0xf0))
        } else if subsys_of_code(b[2] & 0x0f) is None {
            Err(CodecError::UnknownSubsys(b[2] & 0x0f))
        } else {
            Ok(
                Some(
                    (
                        Frame {
                            typ: type_of_code(b[2] & 0xf0).unwrap(),
                            subsys: subsys_of_code(b[2] & 0x0f).unwrap(),
                            cmd_id: b[3],
                            body: b.subrange(4, n - 1),
                        },
                        n as nat,
                    ),
                ),
            )
        }
    }
}

/// Frame codec over a byte stream.
pub struct ZnpCodec;

impl ZnpCodec {
    /// Takes the frame at the head of `buf`, if a whole one is there.
    /// On `Ok(Some((frame, n)))` the frame used the first `n` bytes; on any
    /// other outcome no byte is used.
    pub fn decode(&mut self, buf: &[u8]) -> (r: Result<Option<(ZpiCmd, usize)>, CodecError>)
        ensures
            match r {
                Ok(Some((c, n))) => decoded(buf@) == Ok::<Option<(Frame, nat)>, CodecError>(
                    Some((c@, n as nat)),
                ),
                Ok(None) => decoded(buf@) == Ok::<Option<(Frame, nat)>, CodecError>(None),
                Err(e) => decoded(buf@) == Err::<Option<(Frame, nat)>, CodecError>(e),
            },
    {
        let len = buf.len();
        if len < 5 {
            return Ok(None);
        }
        if buf[0] != SOF {
            return Err(CodecError::BadSof);
        }
        let frame_len: usize = 5 + buf[1] as usize;
        if len < frame_len {
            return Ok(None);
        }
        let checked = slice_range(buf, 1, frame_len);
        if xor(checked.as_slice()) != 0 {
            return Err(CodecError::FcsMismatch);
        }
        let cmd0 = buf[2];
        let typ = match Type::from_u8(cmd0 & 0xf0) {
            Some(t) => t,
            None => {
                return Err(CodecError::UnknownType(cmd0 & 0xf0));
            },
        };
        let subsys = match Subsys::from_u8(cmd0 & 0x0f) {
            Some(s) => s,
            None => {
                return Err(CodecError::UnknownSubsys(cmd0 & 0x0f));
            },
        };
        let body = slice_range(buf, 4, frame_len - 1);
        Ok(Some((ZpiCmd { typ, subsys, cmd_id: buf[3], body }, frame_len)))
    }

    /// Appends the frame for `item` to `buf`; a payload over 250 bytes is
    /// refused and `buf` is left as it was.
    pub fn encode(&mut self, item: ZpiCmd, buf: &mut Vec<u8>) -> (r: Result<(), CodecError>)
        ensures
            item.body@.len() > MAX_BODY ==> r == Err::<(), CodecError>(
                CodecError::TooLong(item.body@.len() as usize),
            ) && final(buf)@ == old(buf)@,
            item.body@.len() <= MAX_BODY ==> r is Ok && final(buf)@ == old(buf)@ + frame_bytes(
                item@,
            ),
    {
        let length = item.body.len();
        if length > MAX_BODY {
            return Err(CodecError::TooLong(length));
        }
        let ghost start = buf@;
        let cmd0: u8 = item.typ.code() + item.subsys.code();
        let mut checked: Vec<u8> = Vec::new();
        checked.push(length as u8);
        checked.push(cmd0);
        checked.push(item.cmd_id);
        let mut i: usize = 0;
        while i < length
            invariant
                i <= length,
                length == item.body@.len(),
                checked@ == seq![length as u8, cmd0, item.cmd_id] + item.body@.subrange(
                    0,
                    i as int,
                ),
            decreases length - i,
        {
            checked.push(item.body[i]);
            i = i + 1;
        }
        assert(item.body@.subrange(0, length as int) =~= item.body@);
        assert(checked@ =~= checked_part(item@));
        let fcs = xor(checked.as_slice());
        buf.push(SOF);
        let mut j: usize = 0;
        while j < checked.len()
            invariant
                j <= checked@.len(),
                buf@ == start + seq![SOF] + checked@.subrange(0, j as int),
            decreases checked@.len() - j,
        {
            buf.push(checked[j]);
            j = j + 1;
        }
        assert(checked@.subrange(0, j as int) =~= checked@);
        buf.push(fcs);
        assert(buf@ =~= start + frame_bytes(item@));
        Ok(())
    }
}

/// The bytes `buf[lo..hi]` as a new vector.
pub fn slice_range(buf: &[u8], lo: usize, hi: usize) -> (r: Vec<u8>)
    requires
        lo <= hi <= buf@.len(),
    ensures
        r@ == buf@.subrange(lo as int, hi as int),
{
    let mut out: Vec<u8> = Vec::new();
    let mut i: usize = lo;
    while i < hi
        invariant
            lo <= i <= hi <= buf@.len(),
            out@ == buf@.subrange(lo as int, i as int),
        decreases hi - i,
    {
        out.push(buf[i]);
        i = i + 1;
    }
    out
}

proof fn lemma_xor_push(s: Seq<u8>, x: u8)
    ensures
        xor_all(s.push(x)) == xor_all(s) ^ x,
{
    assert(s.push(x).drop_last() =~= s);
}

proof fn lemma_xor_update(s: Seq<u8>, k: int, x: u8)
    requires
        0 <= k < s.len(),
    ensures
        xor_all(s.update(k, x)) == xor_all(s) ^ s[k] ^ x,
    decreases s.len(),
{
    let t = s.update(k, x);
    let a = xor_all(s.drop_last());
    let l = s.last();
    if k == s.len() - 1 {
        assert(t.drop_last() =~= s.drop_last());
        assert(a ^ x == a ^ l ^ l ^ x) by (bit_vector);
    } else {
        assert(t.drop_last() =~= s.drop_last().update(k, x));
        lemma_xor_update(s.drop_last(), k, x);
        let y = s[k];
        assert((a ^ y ^ x) ^ l == (a ^ l) ^ y ^ x) by (bit_vector);
    }
}

proof fn lemma_cmd0(t: Type, s: Subsys)
    ensures
        ((type_code(t) + subsys_code(s)) as u8) & 0xf0 == type_code(t),
        ((type_code(t) + subsys_code(s)) as u8) & 0x0f == subsys_code(s),
        type_of_code(type_code(t)) == Some(t),
        subsys_of_code(subsys_code(s)) == Some(s),
{
    let tc = type_code(t);
    let sc = subsys_code(s);
    assert(0x00u8 & 0x0f == 0 && 0x20u8 & 0x0f == 0 && 0x40u8 & 0x0f == 0 && 0x60u8 & 0x0f == 0)
        by (bit_vector);
    assert(tc & 0x0f == 0 && tc < 0x80);
    assert(sc < 0x10);
    assert(tc & 0x0f == 0 && tc < 0x80 && sc < 0x10 ==> (((tc + sc) as u8) & 0xf0 == tc && ((tc
        + sc) as u8) & 0x0f == sc)) by (bit_vector);
}

/// The checksum of every encoded frame XORs to zero over `length..=fcs`.
pub proof fn lemma_checksum_zero(f: Frame)
    requires
        f.body.len() <= MAX_BODY,
    ensures
        xor_all(frame_bytes(f).subrange(1, f.body.len() + 5int)) == 0,
{
    let c = checked_part(f);
    assert(frame_bytes(f).subrange(1, f.body.len() + 5int) =~= c.push(xor_all(c)));
    lemma_xor_push(c, xor_all(c));
    let x = xor_all(c);
    assert(x ^ x == 0) by (bit_vector);
}

/// Decoding the bytes of an encoded frame, whatever follows them, yields that
/// frame and the number of bytes it spans.
pub proof fn lemma_frame_round_trip(f: Frame, rest: Seq<u8>)
    requires
        f.body.len() <= MAX_BODY,
    ensures
        decoded(frame_bytes(f) + rest) == Ok::<Option<(Frame, nat)>, CodecError>(
            Some((f, (f.body.len() + 5) as nat)),
        ),
{
    let b = frame_bytes(f) + rest;
    let n = f.body.len() + 5int;
    lemma_checksum_zero(f);
    assert(b.subrange(1, n) =~= frame_bytes(f).subrange(1, n));
    lemma_cmd0(f.typ, f.subsys);
    assert(b[1] == f.body.len() as u8);
    assert(b.subrange(4, n - 1) =~= f.body);
}

/// Changing any one payload byte of an encoded frame makes decoding report a
/// checksum mismatch.
pub proof fn lemma_corrupt_payload(f: Frame, i: int, x: u8)
    requires
        f.body.len() <= MAX_BODY,
        0 <= i < f.body.len(),
        x != f.body[i],
    ensures
        decoded(frame_bytes(f).update(4 + i, x)) == Err::<Option<(Frame, nat)>, CodecError>(
            CodecError::FcsMismatch,
        ),
{
    let b = frame_bytes(f).update(4 + i, x);
    let n = f.body.len() + 5int;
    let orig = frame_bytes(f).subrange(1, n);
    lemma_checksum_zero(f);
    assert(b.subrange(1, n) =~= orig.update(3 + i, x));
    lemma_xor_update(orig, 3 + i, x);
    let y = orig[3 + i];
    assert(y == f.body[i]);
    assert(y != x ==> 0u8 ^ y ^ x != 0) by (bit_vector);
}

} // verus!
