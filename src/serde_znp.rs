//! Payload codec: structures are written field by field, little-endian, with
//! no padding. A sequence carries a one-byte count, except in the last field,
//! where it takes the rest of the payload.
use crate::znp_codec::{
    decoded, frame_bytes, lemma_frame_round_trip, CodecError, Frame, Subsys, Type, MAX_BODY,
};
use vstd::prelude::*;

verus! {

/// The wire shape of one field.
#[derive(Debug, Clone, Copy, PartialEq, Eq, Structural)]
pub enum Kind {
    U8,
    U16,
    U32,
    U64,
    Bool,
    /// Bytes after a one-byte count.
    Bytes,
    /// Little-endian `u16` words after a one-byte count.
    Words,
    /// Bytes up to the end of the payload.
    RestBytes,
    /// Little-endian `u16` words up to the end of the payload.
    RestWords,
}

/// One field value, as written on the wire.
#[derive(Debug)]
pub enum Field {
    U8(u8),
    U16(u16),
    U32(u32),
    U64(u64),
    Bool(bool),
    Bytes(Vec<u8>),
    Words(Vec<u16>),
    RestBytes(Vec<u8>),
    RestWords(Vec<u16>),
}

/// The mathematical value of a field.
pub ghost enum Value {
    U8(u8),
    U16(u16),
    U32(u32),
    U64(u64),
    Bool(bool),
    Bytes(Seq<u8>),
    Words(Seq<u16>),
    RestBytes(Seq<u8>),
    RestWords(Seq<u16>),
}

impl View for Field {
    type V = Value;

    open spec fn view(&self) -> Value {
        match self {
            Field::U8(x) => Value::U8(*x),
            Field::U16(x) => Value::U16(*x),
            Field::U32(x) => Value::U32(*x),
            Field::U64(x) => Value::U64(*x),
            Field::Bool(x) => Value::Bool(*x),
            Field::Bytes(v) => Value::Bytes(v@),
            Field::Words(v) => Value::Words(v@),
            Field::RestBytes(v) => Value::RestBytes(v@),
            Field::RestWords(v) => Value::RestWords(v@),
        }
    }
}

/// Why a payload does not decode.
#[derive(Debug, Clone, Copy, PartialEq, Eq, Structural)]
pub enum DecodeError {
    /// Fewer bytes remain than the next field needs.
    UnexpectedEnd,
    /// A field holds a value its type does not allow (an unknown discriminant).
    InvalidValue,
}

pub open spec fn views(fs: Seq<Field>) -> Seq<Value> {
    fs.map_values(|f: Field| f@)
}

pub open spec fn kind_of(v: Value) -> Kind {
    match v {
        Value::U8(_) => Kind::U8,
        Value::U16(_) => Kind::U16,
        Value::U32(_) => Kind::U32,
        Value::U64(_) => Kind::U64,
        Value::Bool(_) => Kind::Bool,
        Value::Bytes(_) => Kind::Bytes,
        Value::Words(_) => Kind::Words,
        Value::RestBytes(_) => Kind::RestBytes,
        Value::RestWords(_) => Kind::RestWords,
    }
}

pub open spec fn is_rest(k: Kind) -> bool {
    k == Kind::RestBytes || k == Kind::RestWords
}

/// A sequence that takes the rest of the payload may only be the last field.
pub open spec fn schema_ok(ks: Seq<Kind>) -> bool {
    forall|i: int| 0 <= i < ks.len() - 1 ==> !is_rest(#[trigger] ks[i])
}

/// A counted sequence has at most 255 elements.
pub open spec fn value_fits(v: Value) -> bool {
    match v {
        Value::Bytes(s) => s.len() <= 255,
        Value::Words(s) => s.len() <= 255,
        _ => true,
    }
}

/// `vs` is a record of shape `ks` that can be written.
pub open spec fn record_ok(ks: Seq<Kind>, vs: Seq<Value>) -> bool {
    &&& vs.len() == ks.len()
    &&& forall|i: int| 0 <= i < vs.len() ==> kind_of(#[trigger] vs[i]) == ks[i]
    &&& forall|i: int| 0 <= i < vs.len() ==> value_fits(#[trigger] vs[i])
}

/// `vs` has the shape `ks`.
pub open spec fn shaped(ks: Seq<Kind>, vs: Seq<Value>) -> bool {
    &&& vs.len() == ks.len()
    &&& forall|i: int| 0 <= i < vs.len() ==> kind_of(#[trigger] vs[i]) == ks[i]
}

pub open spec fn pow256(n: nat) -> nat
    decreases n,
{
    if n == 0 {
        1
    } else {
        256 * pow256((n - 1) as nat)
    }
}

/// `x` as `n` little-endian bytes.
pub open spec fn le(x: nat, n: nat) -> Seq<u8>
    decreases n,
{
    if n == 0 {
        seq![]
    } else {
        seq![(x % 256) as u8] + le(x / 256, (n - 1) as nat)
    }
}

/// The number held by the `n` little-endian bytes at `b[lo..]`.
pub open spec fn from_le(b: Seq<u8>, lo: int, n: nat) -> nat
    decreases n,
{
    if n == 0 {
        0
    } else {
        b[lo] as nat + 256 * from_le(b, lo + 1, (n - 1) as nat)
    }
}

pub open spec fn words_wire(s: Seq<u16>) -> Seq<u8>
    decreases s.len(),
{
    if s.len() == 0 {
        seq![]
    } else {
        words_wire(s.drop_last()) + le(s.last() as nat, 2)
    }
}

pub open spec fn value_wire(v: Value) -> Seq<u8> {
    match v {
        Value::U8(x) => le(x as nat, 1),
        Value::U16(x) => le(x as nat, 2),
        Value::U32(x) => le(x as nat, 4),
        Value::U64(x) => le(x as nat, 8),
        Value::Bool(x) => seq![if x { 1u8 } else { 0u8 }],
        Value::Bytes(s) => seq![s.len() as u8] + s,
        Value::Words(s) => seq![s.len() as u8] + words_wire(s),
        Value::RestBytes(s) => s,
        Value::RestWords(s) => words_wire(s),
    }
}

/// The payload bytes of a record.
pub open spec fn record_wire(vs: Seq<Value>) -> Seq<u8>
    decreases vs.len(),
{
    if vs.len() == 0 {
        seq![]
    } else {
        record_wire(vs.drop_last()) + value_wire(vs.last())
    }
}

/// The `c` little-endian words at `b[pos..]`.
pub open spec fn words_at(b: Seq<u8>, pos: int, c: nat) -> Seq<u16> {
    Seq::new(c, |i: int| from_le(b, pos + 2 * i, 2) as u16)
}

/// Reading one field of kind `k` at `b[pos..]`: its value and where the next
/// field starts.
pub open spec fn parse_value(k: Kind, b: Seq<u8>, pos: int) -> Result<(Value, int), DecodeError> {
    let rem = b.len() - pos;
    match k {
        Kind::U8 => if rem < 1 {
            Err(DecodeError::UnexpectedEnd)
        } else {
            Ok((Value::U8(b[pos]), pos + 1))
        },
        Kind::U16 => if rem < 2 {
            Err(DecodeError::UnexpectedEnd)
        } else {
            Ok((Value::U16(from_le(b, pos, 2) as u16), pos + 2))
        },
        Kind::U32 => if rem < 4 {
            Err(DecodeError::UnexpectedEnd)
        } else {
            Ok((Value::U32(from_le(b, pos, 4) as u32), pos + 4))
        },
        Kind::U64 => if rem < 8 {
            Err(DecodeError::UnexpectedEnd)
        } else {
            Ok((Value::U64(from_le(b, pos, 8) as u64), pos + 8))
        },
        Kind::Bool => if rem < 1 {
            Err(DecodeError::UnexpectedEnd)
        } else {
            Ok((Value::Bool(b[pos] != 0), pos + 1))
        },
        Kind::Bytes => if rem < 1 || rem < 1 + b[pos] {
            Err(DecodeError::UnexpectedEnd)
        } else {
            Ok((Value::Bytes(b.subrange(pos + 1, pos + 1 + b[pos])), pos + 1 + b[pos]))
        },
        Kind::Words => if rem < 1 || rem < 1 + 2 * b[pos] {
            Err(DecodeError::UnexpectedEnd)
        } else {
            Ok((Value::Words(words_at(b, pos + 1, b[pos] as nat)), pos + 1 + 2 * b[pos]))
        },
        Kind::RestBytes => Ok((Value::RestBytes(b.subrange(pos, b.len() as int)), b.len() as int)),
        Kind::RestWords => if rem % 2 != 0 {
            Err(DecodeError::UnexpectedEnd)
        } else {
            Ok((Value::RestWords(words_at(b, pos, (rem / 2) as nat)), b.len() as int))
        },
    }
}

/// Reading the fields `ks[i..]` from `b[pos..]`. Only too few bytes is an
/// error: bytes after the last fixed-width field are not read.
pub open spec fn parse_from(ks: Seq<Kind>, i: int, b: Seq<u8>, pos: int) -> Result<
    Seq<Value>,
    DecodeError,
>
    decreases ks.len() - i,
{
    if i >= ks.len() {
        Ok(seq![])
    } else {
        match parse_value(ks[i], b, pos) {
            Ok((v, next)) => match parse_from(ks, i + 1, b, next) {
                Ok(rest) => Ok(seq![v] + rest),
                Err(e) => Err(e),
            },
            Err(e) => Err(e),
        }
    }
}

/// Reading a whole payload as a record of shape `ks`.
pub open spec fn parse_record(ks: Seq<Kind>, b: Seq<u8>) -> Result<Seq<Value>, DecodeError> {
    parse_from(ks, 0, b, 0)
}

pub open spec fn prepend(pre: Seq<Value>, r: Result<Seq<Value>, DecodeError>) -> Result<
    Seq<Value>,
    DecodeError,
> {
    match r {
        Ok(s) => Ok(pre + s),
        Err(e) => Err(e),
    }
}

proof fn lemma_pow256(n: nat)
    requires
        n <= 8,
    ensures
        1 <= pow256(n) <= pow256(8),
        pow256(8) == 0x1_0000_0000_0000_0000,
    decreases n,
{
    reveal_with_fuel(pow256, 9);
    if n > 0 {
        lemma_pow256((n - 1) as nat);
    }
}

pub proof fn lemma_from_le_bound(b: Seq<u8>, lo: int, n: nat)
    ensures
        from_le(b, lo, n) < pow256(n),
    decreases n,
{
    if n > 0 {
        lemma_from_le_bound(b, lo + 1, (n - 1) as nat);
        let r = from_le(b, lo + 1, (n - 1) as nat);
        let p = pow256((n - 1) as nat);
        let x = b[lo] as nat;
        assert(x < 256 && r < p ==> x + 256 * r < 256 * p) by (nonlinear_arith);
    }
}

/// Reads `n` little-endian bytes at `b[pos..]`.
pub(crate) fn read_le(b: &[u8], pos: usize, n: usize) -> (r: u64)
    requires
        pos + n <= b@.len(),
        n <= 8,
    ensures
        r == from_le(b@, pos as int, n as nat),
{
    let len = b.len();
    let mut acc: u64 = 0;
    let mut j: usize = n;
    while j > 0
        invariant
            j <= n <= 8,
            len == b@.len(),
            pos + n <= b@.len(),
            acc == from_le(b@, pos + j, (n - j) as nat),
        decreases j,
    {
        j = j - 1;
        proof {
            lemma_from_le_bound(b@, pos + j + 1, (n - j - 1) as nat);
            lemma_pow256((n - j) as nat);
            assert(pow256((n - j) as nat) == 256 * pow256((n - j - 1) as nat));
            let p = pow256((n - j - 1) as nat);
            assert(acc < p && 256 * p <= 0x1_0000_0000_0000_0000 ==> acc * 256 + 255
                < 0x1_0000_0000_0000_0000) by (nonlinear_arith);
        }
        acc = acc * 256 + b[pos + j] as u64;
    }
    acc
}

/// Appends `x` as `n` little-endian bytes.
fn write_le(out: &mut Vec<u8>, x: u64, n: usize)
    ensures
        final(out)@ == old(out)@ + le(x as nat, n as nat),
{
    let ghost start = out@;
    let mut v: u64 = x;
    let mut i: usize = 0;
    while i < n
        invariant
            i <= n,
            out@ + le(v as nat, (n - i) as nat) == start + le(x as nat, n as nat),
        decreases n - i,
    {
        let ghost before = out@;
        out.push((v % 256) as u8);
        assert(le(v as nat, (n - i) as nat) == seq![(v % 256) as u8] + le(
            (v / 256) as nat,
            (n - i - 1) as nat,
        ));
        assert(out@ + le((v / 256) as nat, (n - i - 1) as nat) =~= before + le(
            v as nat,
            (n - i) as nat,
        ));
        v = v / 256;
        i = i + 1;
    }
    assert(out@ + le(v as nat, 0) =~= out@);
}

/// Reads `c` little-endian words at `b[pos..]`.
fn read_words(b: &[u8], pos: usize, c: usize) -> (r: Vec<u16>)
    requires
        pos + 2 * c <= b@.len(),
    ensures
        r@ == words_at(b@, pos as int, c as nat),
{
    let len = b.len();
    let mut out: Vec<u16> = Vec::new();
    let mut i: usize = 0;
    while i < c
        invariant
            i <= c,
            len == b@.len(),
            pos + 2 * c <= b@.len(),
            out@ =~= words_at(b@, pos as int, i as nat),
        decreases c - i,
    {
        let w = read_le(b, pos + 2 * i, 2);
        proof {
            lemma_from_le_bound(b@, pos + 2 * i, 2);
            reveal_with_fuel(pow256, 3);
        }
        out.push(w as u16);
        i = i + 1;
    }
    out
}

/// Appends each word as two little-endian bytes.
fn write_words(out: &mut Vec<u8>, s: &Vec<u16>)
    ensures
        final(out)@ == old(out)@ + words_wire(s@),
{
    let ghost start = out@;
    let mut i: usize = 0;
    while i < s.len()
        invariant
            i <= s@.len(),
            out@ == start + words_wire(s@.subrange(0, i as int)),
        decreases s@.len() - i,
    {
        assert(s@.subrange(0, i + 1).drop_last() =~= s@.subrange(0, i as int));
        write_le(out, s[i] as u64, 2);
        assert(out@ =~= start + words_wire(s@.subrange(0, i + 1)));
        i = i + 1;
    }
    assert(s@.subrange(0, i as int) =~= s@);
}

/// Reads one field of kind `k` at `b[pos..]`.
fn read_value(k: Kind, b: &[u8], pos: usize) -> (r: Result<(Field, usize), DecodeError>)
    requires
        pos <= b@.len(),
    ensures
        match r {
            Ok((f, next)) => parse_value(k, b@, pos as int) == Ok::<(Value, int), DecodeError>(
                (f@, next as int),
            ) && next <= b@.len(),
            Err(e) => parse_value(k, b@, pos as int) == Err::<(Value, int), DecodeError>(e),
        },
{
    let rem = b.len() - pos;
    match k {
        Kind::U8 => {
            if rem < 1 {
                return Err(DecodeError::UnexpectedEnd);
            }
            Ok((Field::U8(b[pos]), pos + 1))
        },
        Kind::U16 => {
            if rem < 2 {
                return Err(DecodeError::UnexpectedEnd);
            }
            let x = read_le(b, pos, 2);
            proof {
                lemma_from_le_bound(b@, pos as int, 2);
                reveal_with_fuel(pow256, 3);
            }
            Ok((Field::U16(x as u16), pos + 2))
        },
        Kind::U32 => {
            if rem < 4 {
                return Err(DecodeError::UnexpectedEnd);
            }
            let x = read_le(b, pos, 4);
            proof {
                lemma_from_le_bound(b@, pos as int, 4);
                reveal_with_fuel(pow256, 5);
            }
            Ok((Field::U32(x as u32), pos + 4))
        },
        Kind::U64 => {
            if rem < 8 {
                return Err(DecodeError::UnexpectedEnd);
            }
            let x = read_le(b, pos, 8);
            Ok((Field::U64(x), pos + 8))
        },
        Kind::Bool => {
            if rem < 1 {
                return Err(DecodeError::UnexpectedEnd);
            }
            Ok((Field::Bool(b[pos] != 0), pos + 1))
        },
        Kind::Bytes => {
            if rem < 1 || rem - 1 < b[pos] as usize {
                return Err(DecodeError::UnexpectedEnd);
            }
            let c = b[pos] as usize;
            let v = crate::znp_codec::slice_range(b, pos + 1, pos + 1 + c);
            Ok((Field::Bytes(v), pos + 1 + c))
        },
        Kind::Words => {
            if rem < 1 || (rem - 1) / 2 < b[pos] as usize {
                return Err(DecodeError::UnexpectedEnd);
            }
            let c = b[pos] as usize;
            let v = read_words(b, pos + 1, c);
            Ok((Field::Words(v), pos + 1 + 2 * c))
        },
        Kind::RestBytes => {
            let v = crate::znp_codec::slice_range(b, pos, b.len());
            Ok((Field::RestBytes(v), b.len()))
        },
        Kind::RestWords => {
            if rem % 2 != 0 {
                return Err(DecodeError::UnexpectedEnd);
            }
            let v = read_words(b, pos, rem / 2);
            Ok((Field::RestWords(v), b.len()))
        },
    }
}

/// Appends the wire form of one field.
fn write_value(out: &mut Vec<u8>, f: &Field)
    requires
        value_fits(f@),
    ensures
        final(out)@ == old(out)@ + value_wire(f@),
{
    let ghost start = out@;
    match f {
        Field::U8(x) => write_le(out, *x as u64, 1),
        Field::U16(x) => write_le(out, *x as u64, 2),
        Field::U32(x) => write_le(out, *x as u64, 4),
        Field::U64(x) => write_le(out, *x, 8),
        Field::Bool(x) => {
            out.push(if *x { 1u8 } else { 0u8 });
        },
        Field::Bytes(v) => {
            out.push(v.len() as u8);
            let mut i: usize = 0;
            while i < v.len()
                invariant
                    i <= v@.len(),
                    out@ == start + seq![v@.len() as u8] + v@.subrange(0, i as int),
                decreases v@.len() - i,
            {
                out.push(v[i]);
                i = i + 1;
            }
            assert(v@.subrange(0, i as int) =~= v@);
        },
        Field::Words(v) => {
            out.push(v.len() as u8);
            write_words(out, v);
            assert(out@ =~= start + value_wire(f@));
        },
        Field::RestBytes(v) => {
            let mut i: usize = 0;
            while i < v.len()
                invariant
                    i <= v@.len(),
                    out@ == start + v@.subrange(0, i as int),
                decreases v@.len() - i,
            {
                out.push(v[i]);
                i = i + 1;
            }
            assert(v@.subrange(0, i as int) =~= v@);
        },
        Field::RestWords(v) => write_words(out, v),
    }
}

/// The payload bytes of a record.
pub fn encode_fields(fs: &Vec<Field>) -> (r: Vec<u8>)
    requires
        forall|i: int| 0 <= i < fs@.len() ==> value_fits(#[trigger] fs@[i]@),
    ensures
        r@ == record_wire(views(fs@)),
{
    let mut out: Vec<u8> = Vec::new();
    let mut i: usize = 0;
    while i < fs.len()
        invariant
            i <= fs@.len(),
            forall|j: int| 0 <= j < fs@.len() ==> value_fits(#[trigger] fs@[j]@),
            out@ == record_wire(views(fs@).subrange(0, i as int)),
        decreases fs@.len() - i,
    {
        assert(views(fs@).subrange(0, i + 1).drop_last() =~= views(fs@).subrange(0, i as int));
        write_value(&mut out, &fs[i]);
        i = i + 1;
    }
    assert(views(fs@).subrange(0, i as int) =~= views(fs@));
    out
}

/// Reads a whole payload as a record of shape `ks`.
pub fn decode_fields(ks: &[Kind], b: &[u8]) -> (r: Result<Vec<Field>, DecodeError>)
    ensures
        match r {
            Ok(fs) => parse_record(ks@, b@) == Ok::<Seq<Value>, DecodeError>(views(fs@)),
            Err(e) => parse_record(ks@, b@) == Err::<Seq<Value>, DecodeError>(e),
        },
{
    let mut out: Vec<Field> = Vec::new();
    let mut pos: usize = 0;
    let mut i: usize = 0;
    while i < ks.len()
        invariant
            i <= ks@.len(),
            pos <= b@.len(),
            parse_record(ks@, b@) == prepend(views(out@), parse_from(ks@, i as int, b@, pos as int)),
        decreases ks@.len() - i,
    {
        let ghost pre = views(out@);
        match read_value(ks[i], b, pos) {
            Ok((f, next)) => {
                let ghost v = f@;
                proof {
                    match parse_from(ks@, i + 1, b@, next as int) {
                        Ok(rest) => {
                            assert(pre + (seq![v] + rest) =~= pre.push(v) + rest);
                        },
                        Err(_) => {},
                    }
                }
                out.push(f);
                assert(views(out@) =~= pre.push(v));
                pos = next;
            },
            Err(e) => {
                return Err(e);
            },
        }
        i = i + 1;
    }
    assert(views(out@) + seq![] =~= views(out@));
    Ok(out)
}

proof fn lemma_le_len(x: nat, n: nat)
    ensures
        le(x, n).len() == n,
    decreases n,
{
    if n > 0 {
        lemma_le_len(x / 256, (n - 1) as nat);
    }
}

proof fn lemma_from_le_of_le(b: Seq<u8>, p: int, x: nat, n: nat)
    requires
        x < pow256(n),
        0 <= p,
        p + n <= b.len(),
        b.subrange(p, p + n) == le(x, n),
    ensures
        from_le(b, p, n) == x,
    decreases n,
{
    if n > 0 {
        let m = (n - 1) as nat;
        lemma_le_len(x / 256, m);
        assert(b[p] == b.subrange(p, p + n)[0]);
        assert(b.subrange(p + 1, p + n) =~= b.subrange(p, p + n).drop_first());
        assert(le(x, n).drop_first() =~= le(x / 256, m));
        let q = pow256(m);
        assert(x < 256 * q ==> x / 256 < q) by (nonlinear_arith);
        lemma_from_le_of_le(b, p + 1, x / 256, m);
        assert(x == x % 256 + 256 * (x / 256)) by (nonlinear_arith);
    }
}

proof fn lemma_words_wire(s: Seq<u16>, i: int)
    requires
        0 <= i < s.len(),
    ensures
        words_wire(s).len() == 2 * s.len(),
        words_wire(s).subrange(2 * i, 2 * i + 2) == le(s[i] as nat, 2),
    decreases s.len(),
{
    lemma_le_len(s.last() as nat, 2);
    let t = s.drop_last();
    if i < s.len() - 1 {
        lemma_words_wire(t, i);
        assert(words_wire(s).subrange(2 * i, 2 * i + 2) =~= words_wire(t).subrange(2 * i, 2 * i + 2));
    } else {
        if t.len() > 0 {
            lemma_words_wire(t, 0);
        } else {
            assert(words_wire(t) =~= seq![]);
        }
        assert(words_wire(s).subrange(2 * i, 2 * i + 2) =~= le(s.last() as nat, 2));
    }
}

proof fn lemma_words_wire_len(s: Seq<u16>)
    ensures
        words_wire(s).len() == 2 * s.len(),
{
    if s.len() > 0 {
        lemma_words_wire(s, 0);
    } else {
        assert(words_wire(s) =~= seq![]);
    }
}

proof fn lemma_words_at(b: Seq<u8>, p: int, s: Seq<u16>)
    requires
        0 <= p,
        p + 2 * s.len() <= b.len(),
        b.subrange(p, p + 2 * s.len()) == words_wire(s),
    ensures
        words_at(b, p, s.len()) == s,
{
    assert forall|i: int| 0 <= i < s.len() implies #[trigger] words_at(b, p, s.len())[i] == s[i] by {
        lemma_words_wire(s, i);
        assert(b.subrange(p + 2 * i, p + 2 * i + 2) =~= words_wire(s).subrange(2 * i, 2 * i + 2));
        reveal_with_fuel(pow256, 3);
        lemma_from_le_of_le(b, p + 2 * i, s[i] as nat, 2);
    }
    assert(words_at(b, p, s.len()) =~= s);
}

proof fn lemma_parse_value(k: Kind, v: Value, b: Seq<u8>, p: int)
    requires
        kind_of(v) == k,
        value_fits(v),
        0 <= p,
        p + value_wire(v).len() <= b.len(),
        b.subrange(p, p + value_wire(v).len()) == value_wire(v),
        is_rest(k) ==> p + value_wire(v).len() == b.len(),
    ensures
        parse_value(k, b, p) == Ok::<(Value, int), DecodeError>((v, p + value_wire(v).len())),
{
    let w = value_wire(v);
    reveal_with_fuel(pow256, 9);
    match v {
        Value::U8(x) => {
            lemma_le_len(x as nat, 1);
            assert(b[p] == w[0]);
        },
        Value::U16(x) => {
            lemma_le_len(x as nat, 2);
            lemma_from_le_of_le(b, p, x as nat, 2);
        },
        Value::U32(x) => {
            lemma_le_len(x as nat, 4);
            lemma_from_le_of_le(b, p, x as nat, 4);
        },
        Value::U64(x) => {
            lemma_le_len(x as nat, 8);
            lemma_from_le_of_le(b, p, x as nat, 8);
        },
        Value::Bool(x) => {
            assert(b[p] == w[0]);
        },
        Value::Bytes(s) => {
            assert(b[p] == w[0]);
            assert(b.subrange(p + 1, p + 1 + s.len()) =~= b.subrange(p, p + w.len()).subrange(
                1,
                w.len() as int,
            ));
            assert(w.subrange(1, w.len() as int) =~= s);
        },
        Value::Words(s) => {
            lemma_words_wire_len(s);
            assert(b[p] == w[0]);
            assert(b.subrange(p + 1, p + 1 + 2 * s.len()) =~= b.subrange(p, p + w.len()).subrange(
                1,
                w.len() as int,
            ));
            assert(w.subrange(1, w.len() as int) =~= words_wire(s));
            lemma_words_at(b, p + 1, s);
        },
        Value::RestBytes(s) => {
            assert(b.subrange(p, b.len() as int) =~= s);
        },
        Value::RestWords(s) => {
            lemma_words_wire_len(s);
            assert((b.len() - p) / 2 == s.len());
            lemma_words_at(b, p, s);
        },
    }
}

proof fn lemma_record_step(vs: Seq<Value>, i: int)
    requires
        0 <= i < vs.len(),
    ensures
        record_wire(vs.subrange(0, i + 1)) == record_wire(vs.subrange(0, i)) + value_wire(vs[i]),
{
    assert(vs.subrange(0, i + 1).drop_last() =~= vs.subrange(0, i));
}

proof fn lemma_record_prefix(vs: Seq<Value>, i: int, j: int)
    requires
        0 <= i <= j <= vs.len(),
    ensures
        record_wire(vs.subrange(0, i)).len() <= record_wire(vs.subrange(0, j)).len(),
        record_wire(vs.subrange(0, j)).subrange(0, record_wire(vs.subrange(0, i)).len() as int)
            == record_wire(vs.subrange(0, i)),
    decreases j - i,
{
    if i == j {
        assert(record_wire(vs.subrange(0, j)).subrange(0, record_wire(vs.subrange(0, i)).len() as int)
            =~= record_wire(vs.subrange(0, i)));
    } else {
        lemma_record_prefix(vs, i, j - 1);
        lemma_record_step(vs, j - 1);
        let a = record_wire(vs.subrange(0, i));
        let c = record_wire(vs.subrange(0, j - 1));
        assert((c + value_wire(vs[j - 1])).subrange(0, a.len() as int) =~= c.subrange(0, a.len() as int));
    }
}

proof fn lemma_parse_from(ks: Seq<Kind>, vs: Seq<Value>, i: int)
    requires
        schema_ok(ks),
        record_ok(ks, vs),
        0 <= i <= vs.len(),
    ensures
        parse_from(ks, i, record_wire(vs), record_wire(vs.subrange(0, i)).len() as int) == Ok::<
            Seq<Value>,
            DecodeError,
        >(vs.subrange(i, vs.len() as int)),
    decreases vs.len() - i,
{
    let b = record_wire(vs);
    let n = vs.len() as int;
    assert(vs.subrange(0, n) =~= vs);
    if i == n {
        assert(vs.subrange(i, n) =~= seq![]);
    } else {
        let p = record_wire(vs.subrange(0, i)).len() as int;
        let w = value_wire(vs[i]);
        lemma_record_step(vs, i);
        lemma_record_prefix(vs, i + 1, n);
        let big = record_wire(vs.subrange(0, i + 1));
        assert(b.subrange(p, p + w.len()) =~= big.subrange(p, p + w.len()));
        assert(big.subrange(p, p + w.len()) =~= w);
        if is_rest(ks[i]) {
            assert(i == n - 1);
        }
        lemma_parse_value(ks[i], vs[i], b, p);
        lemma_parse_from(ks, vs, i + 1);
        assert(seq![vs[i]] + vs.subrange(i + 1, n) =~= vs.subrange(i, n));
    }
}

/// Reading back the payload bytes of a well-shaped record gives the record.
pub proof fn lemma_record_round_trip(ks: Seq<Kind>, vs: Seq<Value>)
    requires
        schema_ok(ks),
        record_ok(ks, vs),
    ensures
        parse_record(ks, record_wire(vs)) == Ok::<Seq<Value>, DecodeError>(vs),
{
    lemma_parse_from(ks, vs, 0);
    assert(vs.subrange(0, 0) =~= seq![]);
    assert(record_wire(seq![]) =~= seq![]);
    assert(vs.subrange(0, vs.len() as int) =~= vs);
}

pub open spec fn byte_of(v: Value) -> u8 {
    match v {
        Value::U8(x) => x,
        _ => 0,
    }
}

/// A structure whose payload is a record of fields in declaration order.
pub trait Payload: Sized {
    /// The field values in declaration order.
    spec fn model(&self) -> Seq<Value>;

    /// The shape of the record.
    spec fn kinds() -> Seq<Kind>;

    /// Which records of that shape stand for a value (every discriminant known).
    spec fn admits(vs: Seq<Value>) -> bool;

    fn schema() -> (r: Vec<Kind>)
        ensures
            r@ == Self::kinds(),
    ;

    fn to_fields(&self) -> (r: Vec<Field>)
        ensures
            views(r@) == self.model(),
    ;

    fn from_fields(fs: Vec<Field>) -> (r: Result<Self, DecodeError>)
        requires
            shaped(Self::kinds(), views(fs@)),
        ensures
            match r {
                Ok(v) => Self::admits(views(fs@)) && v.model() == views(fs@),
                Err(e) => !Self::admits(views(fs@)) && e == DecodeError::InvalidValue,
            },
    ;

    proof fn lemma_model(&self)
        ensures
            schema_ok(Self::kinds()),
            shaped(Self::kinds(), self.model()),
            Self::admits(self.model()),
    ;
}

/// `v` can be written: its counted sequences hold at most 255 elements.
pub open spec fn fits<T: Payload>(v: &T) -> bool {
    record_ok(T::kinds(), v.model())
}

/// The payload bytes of `v`.
pub open spec fn payload_of<T: Payload>(v: &T) -> Seq<u8> {
    record_wire(v.model())
}

/// `b` decodes to `v`.
pub open spec fn decodes_to<T: Payload>(b: Seq<u8>, v: &T) -> bool {
    parse_record(T::kinds(), b) == Ok::<Seq<Value>, DecodeError>(v.model())
}

/// `b` does not decode as a `T`, and `e` says why.
pub open spec fn decode_fails<T: Payload>(b: Seq<u8>, e: DecodeError) -> bool {
    match parse_record(T::kinds(), b) {
        Ok(vs) => !T::admits(vs) && e == DecodeError::InvalidValue,
        Err(e2) => e == e2,
    }
}

/// Writes `value` as payload bytes.
pub fn serialize<T: Payload>(value: &T) -> (r: Vec<u8>)
    requires
        fits(value),
    ensures
        r@ == payload_of(value),
{
    let fs = value.to_fields();
    proof {
        assert forall|i: int| 0 <= i < fs@.len() implies value_fits(#[trigger] fs@[i]@) by {
            assert(views(fs@)[i] == fs@[i]@);
        }
    }
    encode_fields(&fs)
}

/// Whether `value` can be written: every counted sequence in it holds at
/// most 255 elements.
pub fn can_serialize<T: Payload>(value: &T) -> (r: bool)
    ensures
        r == fits(value),
{
    let fs = value.to_fields();
    proof {
        value.lemma_model();
    }
    let mut i: usize = 0;
    while i < fs.len()
        invariant
            i <= fs@.len(),
            views(fs@) == value.model(),
            forall|j: int| 0 <= j < i ==> value_fits(#[trigger] views(fs@)[j]),
        decreases fs@.len() - i,
    {
        let ok = match &fs[i] {
            Field::Bytes(v) => v.len() <= 255,
            Field::Words(v) => v.len() <= 255,
            _ => true,
        };
        if !ok {
            assert(!value_fits(views(fs@)[i as int]));
            return false;
        }
        i = i + 1;
    }
    true
}

/// Reads payload bytes as a `T`.
pub fn deserialize<T: Payload>(bytes: &[u8]) -> (r: Result<T, DecodeError>)
    ensures
        match r {
            Ok(v) => decodes_to(bytes@, &v),
            Err(e) => decode_fails::<T>(bytes@, e),
        },
{
    let kinds = T::schema();
    let fs = decode_fields(kinds.as_slice(), bytes)?;
    proof {
        lemma_parse_shape(kinds@, 0, bytes@, 0);
    }
    T::from_fields(fs)
}

proof fn lemma_parse_shape(ks: Seq<Kind>, i: int, b: Seq<u8>, pos: int)
    requires
        0 <= i <= ks.len(),
    ensures
        parse_from(ks, i, b, pos) matches Ok(vs) ==> shaped(ks.subrange(i, ks.len() as int), vs),
    decreases ks.len() - i,
{
    if i < ks.len() {
        if let Ok((v, next)) = parse_value(ks[i], b, pos) {
            lemma_parse_shape(ks, i + 1, b, next);
            if let Ok(rest) = parse_from(ks, i + 1, b, next) {
                let vs = seq![v] + rest;
                assert forall|j: int| 0 <= j < vs.len() implies kind_of(#[trigger] vs[j])
                    == ks.subrange(i, ks.len() as int)[j] by {
                    if j > 0 {
                        assert(vs[j] == rest[j - 1]);
                    }
                }
            }
        }
    } else {
        assert(ks.subrange(i, ks.len() as int) =~= seq![]);
    }
}

/// Every value that can be written reads back as itself: the payload bytes
/// of `v` decode to a value with the same fields.
pub proof fn lemma_payload_round_trip<T: Payload>(v: &T)
    requires
        fits(v),
    ensures
        decodes_to(payload_of(v), v),
        T::admits(v.model()),
{
    v.lemma_model();
    lemma_record_round_trip(T::kinds(), v.model());
}

/// Every message that fits in a frame survives the trip through both codecs:
/// the wire bytes of a frame carrying `v`, whatever follows them, decode to
/// that frame, and its payload decodes to a value with the same fields.
pub proof fn lemma_message_round_trip<T: Payload>(
    v: &T,
    typ: Type,
    subsys: Subsys,
    cmd_id: u8,
    rest: Seq<u8>,
)
    requires
        fits(v),
        payload_of(v).len() <= MAX_BODY,
    ensures
        ({
            let f = Frame { typ, subsys, cmd_id, body: payload_of(v) };
            &&& decoded(frame_bytes(f) + rest) == Ok::<Option<(Frame, nat)>, CodecError>(
                Some((f, (f.body.len() + 5) as nat)),
            )
            &&& decodes_to(f.body, v)
        }),
{
    let f = Frame { typ, subsys, cmd_id, body: payload_of(v) };
    lemma_frame_round_trip(f, rest);
    lemma_payload_round_trip(v);
}

/// Copies a byte vector.
pub fn copy_bytes(v: &Vec<u8>) -> (r: Vec<u8>)
    ensures
        r@ == v@,
{
    crate::znp_codec::slice_range(v.as_slice(), 0, v.len())
}

/// Copies a word vector.
pub fn copy_words(v: &Vec<u16>) -> (r: Vec<u16>)
    ensures
        r@ == v@,
{
    let mut out: Vec<u16> = Vec::new();
    let mut i: usize = 0;
    while i < v.len()
        invariant
            i <= v@.len(),
            out@ == v@.subrange(0, i as int),
        decreases v@.len() - i,
    {
        out.push(v[i]);
        i = i + 1;
    }
    assert(v@.subrange(0, i as int) =~= v@);
    out
}

pub fn get_u8(fs: &Vec<Field>, i: usize) -> (r: u8)
    requires
        i < fs@.len(),
        kind_of(views(fs@)[i as int]) == Kind::U8,
    ensures
        views(fs@)[i as int] == Value::U8(r),
{
    match &fs[i] {
        Field::U8(x) => *x,
        _ => 0,
    }
}

pub fn get_u16(fs: &Vec<Field>, i: usize) -> (r: u16)
    requires
        i < fs@.len(),
        kind_of(views(fs@)[i as int]) == Kind::U16,
    ensures
        views(fs@)[i as int] == Value::U16(r),
{
    match &fs[i] {
        Field::U16(x) => *x,
        _ => 0,
    }
}

pub fn get_u32(fs: &Vec<Field>, i: usize) -> (r: u32)
    requires
        i < fs@.len(),
        kind_of(views(fs@)[i as int]) == Kind::U32,
    ensures
        views(fs@)[i as int] == Value::U32(r),
{
    match &fs[i] {
        Field::U32(x) => *x,
        _ => 0,
    }
}

pub fn get_u64(fs: &Vec<Field>, i: usize) -> (r: u64)
    requires
        i < fs@.len(),
        kind_of(views(fs@)[i as int]) == Kind::U64,
    ensures
        views(fs@)[i as int] == Value::U64(r),
{
    match &fs[i] {
        Field::U64(x) => *x,
        _ => 0,
    }
}

pub fn get_bool(fs: &Vec<Field>, i: usize) -> (r: bool)
    requires
        i < fs@.len(),
        kind_of(views(fs@)[i as int]) == Kind::Bool,
    ensures
        views(fs@)[i as int] == Value::Bool(r),
{
    match &fs[i] {
        Field::Bool(x) => *x,
        _ => false,
    }
}

pub fn get_bytes(fs: &Vec<Field>, i: usize) -> (r: Vec<u8>)
    requires
        i < fs@.len(),
        kind_of(views(fs@)[i as int]) == Kind::Bytes || kind_of(views(fs@)[i as int]) == Kind::RestBytes,
    ensures
        views(fs@)[i as int] == Value::Bytes(r@) || views(fs@)[i as int] == Value::RestBytes(r@),
{
    match &fs[i] {
        Field::Bytes(v) => copy_bytes(v),
        Field::RestBytes(v) => copy_bytes(v),
        _ => Vec::new(),
    }
}

pub fn get_words(fs: &Vec<Field>, i: usize) -> (r: Vec<u16>)
    requires
        i < fs@.len(),
        kind_of(views(fs@)[i as int]) == Kind::Words || kind_of(views(fs@)[i as int]) == Kind::RestWords,
    ensures
        views(fs@)[i as int] == Value::Words(r@) || views(fs@)[i as int] == Value::RestWords(r@),
{
    match &fs[i] {
        Field::Words(v) => copy_words(v),
        Field::RestWords(v) => copy_words(v),
        _ => Vec::new(),
    }
}

} // verus!
