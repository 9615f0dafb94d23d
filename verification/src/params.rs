//! The parameter-set cache: the most recent SPS and PPS units observed
//! on the stream, kept so that every freshly spawned encoder can be
//! primed and every segment stays independently decodable.

use vstd::prelude::*;
use crate::h264::UnitType;

verus! {

/// Copies a byte vector element for element.
fn copy_bytes(src: &Vec<u8>) -> (r: Vec<u8>)
    ensures
        r@ == src@,
{
    let mut r: Vec<u8> = Vec::new();
    let mut i: usize = 0;
    while i < src.len()
        invariant
            i <= src@.len(),
            r@ == src@.take(i as int),
        decreases src@.len() - i,
    {
        r.push(src[i]);
        proof {
            assert(src@.take(i as int).push(src@[i as int]) =~= src@.take(i as int + 1));
        }
        i = i + 1;
    }
    proof {
        assert(src@.take(src@.len() as int) =~= src@);
    }
    r
}

/// Holds the latest sequence parameter set and the latest picture
/// parameter set, each possibly empty before the first one arrives.
/// A newly observed parameter set overwrites the previous one, so
/// exactly one SPS and one PPS buffer exist at any time.
pub struct ParameterCache {
    sps: Vec<u8>,
    pps: Vec<u8>,
}

impl ParameterCache {
    /// The bytes of the most recent sequence parameter set.
    pub closed spec fn sps(self) -> Seq<u8> {
        self.sps@
    }

    /// The bytes of the most recent picture parameter set.
    pub closed spec fn pps(self) -> Seq<u8> {
        self.pps@
    }

    /// A cache that has seen no parameter sets yet.
    pub fn new() -> (c: Self)
        ensures
            c.sps() == Seq::<u8>::empty(),
            c.pps() == Seq::<u8>::empty(),
    {
        ParameterCache { sps: Vec::new(), pps: Vec::new() }
    }

    /// Records a classified unit: an SPS replaces the cached SPS, a PPS
    /// replaces the cached PPS, anything else leaves the cache alone.
    pub fn observe(&mut self, t: UnitType, unit: &Vec<u8>)
        ensures
            final(self).sps() == (if t == UnitType::Sps {
                unit@
            } else {
                old(self).sps()
            }),
            final(self).pps() == (if t == UnitType::Pps {
                unit@
            } else {
                old(self).pps()
            }),
    {
        match t {
            UnitType::Sps => {
                self.sps = copy_bytes(unit);
            },
            UnitType::Pps => {
                self.pps = copy_bytes(unit);
            },
            _ => {},
        }
    }

    /// Whether both parameter sets have been observed, i.e. whether a
    /// fresh encoder can be primed.
    pub fn has_both(&self) -> (b: bool)
        ensures
            b == (self.sps().len() > 0 && self.pps().len() > 0),
    {
        self.sps.len() > 0 && self.pps.len() > 0
    }

    /// Copies of the cached SPS and PPS, in the order an encoder must
    /// receive them.
    pub fn snapshot(&self) -> (r: (Vec<u8>, Vec<u8>))
        ensures
            r.0@ == self.sps(),
            r.1@ == self.pps(),
    {
        (copy_bytes(&self.sps), copy_bytes(&self.pps))
    }
}

} // verus!
