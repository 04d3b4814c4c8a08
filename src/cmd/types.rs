//! Addresses and endpoints shared by many commands.
use vstd::prelude::*;

verus! {

/// A 16-bit network address.
#[derive(Debug, Clone, Copy, PartialEq, Eq, Structural)]
pub struct ShortAddr(pub u16);

/// A 64-bit IEEE address.
#[derive(Debug, Clone, Copy, PartialEq, Eq, Structural)]
pub struct IEEEAddr(pub u64);

/// An application endpoint number.
#[derive(Debug, Clone, Copy, PartialEq, Eq, Structural)]
pub struct Endpoint(pub u8);

/// The words of a list of network addresses.
pub open spec fn addr_words(s: Seq<ShortAddr>) -> Seq<u16> {
    s.map_values(|a: ShortAddr| a.0)
}

pub fn words_of_addrs(v: &Vec<ShortAddr>) -> (r: Vec<u16>)
    ensures
        r@ == addr_words(v@),
{
    let mut out: Vec<u16> = Vec::new();
    let mut i: usize = 0;
    while i < v.len()
        invariant
            i <= v@.len(),
            out@ =~= addr_words(v@.subrange(0, i as int)),
        decreases v@.len() - i,
    {
        out.push(v[i].0);
        i = i + 1;
    }
    assert(v@.subrange(0, i as int) =~= v@);
    out
}

pub fn addrs_of_words(v: Vec<u16>) -> (r: Vec<ShortAddr>)
    ensures
        addr_words(r@) == v@,
{
    let mut out: Vec<ShortAddr> = Vec::new();
    let mut i: usize = 0;
    while i < v.len()
        invariant
            i <= v@.len(),
            addr_words(out@) =~= v@.subrange(0, i as int),
        decreases v@.len() - i,
    {
        let ghost prev = out@;
        out.push(ShortAddr(v[i]));
        assert(addr_words(out@) =~= addr_words(prev).push(v@[i as int]));
        assert(v@.subrange(0, i + 1) =~= v@.subrange(0, i as int).push(v@[i as int]));
        i = i + 1;
    }
    assert(v@.subrange(0, i as int) =~= v@);
    out
}

} // verus!
