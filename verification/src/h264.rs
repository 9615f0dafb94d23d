//! Annex-B H.264 byte-stream handling: the unit classifier and the
//! stream splitter that recovers NAL unit boundaries from an
//! arbitrarily chunked byte stream.

use vstd::prelude::*;

verus! {

/// Type code of a non-IDR coded slice.
pub const UNIT_TYPE_SLICE_NON_IDR: u8 = 1;
/// Type code of an IDR (key frame) slice; segments must start on one.
pub const UNIT_TYPE_IDR: u8 = 5;
/// Type code of a sequence parameter set.
pub const UNIT_TYPE_SPS: u8 = 7;
/// Type code of a picture parameter set.
pub const UNIT_TYPE_PPS: u8 = 8;

/// Classification of a NAL unit, derived from the low 5 bits of its
/// header byte.
#[derive(Clone, Copy, Debug, PartialEq, Eq, Structural)]
pub enum UnitType {
    SliceNonIdr,
    Idr,
    Sps,
    Pps,
    Other,
}

/// The classification a 5-bit unit type code maps to.
pub open spec fn unit_type_of(code: u8) -> UnitType {
    if code == UNIT_TYPE_SLICE_NON_IDR {
        UnitType::SliceNonIdr
    } else if code == UNIT_TYPE_IDR {
        UnitType::Idr
    } else if code == UNIT_TYPE_SPS {
        UnitType::Sps
    } else if code == UNIT_TYPE_PPS {
        UnitType::Pps
    } else {
        UnitType::Other
    }
}

/// The 5-bit type code of a unit that still carries the 0/1 padding of
/// its start code: if byte 2 is zero the prefix was 4 bytes and the
/// header byte sits at index 4, otherwise at index 3.
pub open spec fn spec_unit_type(frame: Seq<u8>) -> u8
    recommends
        frame.len() >= 5,
{
    if frame[2] == 0 {
        frame[4] & 0x1f
    } else {
        frame[3] & 0x1f
    }
}

/// Extracts the 5-bit unit type code from a raw unit buffer that still
/// carries its start-code prefix.
pub fn get_unit_type(frame: &Vec<u8>) -> (code: u8)
    requires
        frame@.len() >= 5,
    ensures
        code == spec_unit_type(frame@),
{
    if frame[2] == 0x00 {
        frame[4] & 0x1f
    } else {
        frame[3] & 0x1f
    }
}

/// Classifies a raw unit buffer; buffers too short to carry a header
/// byte are treated as `Other` rather than rejected.
pub fn classify_unit(frame: &Vec<u8>) -> (t: UnitType)
    ensures
        frame@.len() >= 5 ==> t == unit_type_of(spec_unit_type(frame@)),
        frame@.len() < 5 ==> t == UnitType::Other,
{
    if frame.len() < 5 {
        return UnitType::Other;
    }
    let code = get_unit_type(frame);
    if code == UNIT_TYPE_SLICE_NON_IDR {
        UnitType::SliceNonIdr
    } else if code == UNIT_TYPE_IDR {
        UnitType::Idr
    } else if code == UNIT_TYPE_SPS {
        UnitType::Sps
    } else if code == UNIT_TYPE_PPS {
        UnitType::Pps
    } else {
        UnitType::Other
    }
}

/// Units preceded by a 3-byte start code (`00 00 01`) and by a 4-byte
/// start code (`00 00 00 01`) with the same header byte classify
/// identically: both carry the type code of the header's low 5 bits.
pub proof fn lemma_classifier_prefix_agnostic(header: u8, tail3: Seq<u8>, tail4: Seq<u8>)
    requires
        tail3.len() >= 1,
    ensures
        spec_unit_type(seq![0u8, 0u8, 1u8, header] + tail3) == (header & 0x1f),
        spec_unit_type(seq![0u8, 0u8, 0u8, 1u8, header] + tail4) == (header & 0x1f),
{
    let f3 = seq![0u8, 0u8, 1u8, header] + tail3;
    let f4 = seq![0u8, 0u8, 0u8, 1u8, header] + tail4;
    assert(f3[2] == 1u8);
    assert(f3[3] == header);
    assert(f4[2] == 0u8);
    assert(f4[4] == header);
}

/// One more zero byte of a run has been seen. Runs longer than 4 behave
/// exactly like runs of 4 (only runs of 2 or 3 zeros can end a start
/// code, and any non-zero byte resets the run), so the count saturates.
pub open spec fn bump_nulls(nulls: nat) -> nat {
    if nulls < 4 {
        nulls + 1
    } else {
        4
    }
}

/// A byte `b` closes an Annex-B start code when it is `0x01` and the
/// run of zeros directly before it has length 2 or 3.
pub open spec fn closes_start_code(nulls: nat, b: u8) -> bool {
    b == 1 && (nulls == 2 || nulls == 3)
}

/// One byte of input advances the splitter: `acc` holds the bytes of
/// the unit being accumulated (including its leading start code) and
/// `nulls` the length of the current trailing run of zeros. The result
/// is the sequence of units emitted by this byte (none or one), the new
/// accumulator and the new zero-run length.
///
/// When a start code closes, the unit is the accumulator minus the
/// zeros of the run, which instead become the leading padding of the
/// next unit, so 3- and 4-byte prefixes stay distinguishable. An empty
/// unit (nothing between two start codes beyond the code itself, or the
/// stream opening directly with a start code) is never emitted, but its
/// padding is still carried over.
pub open spec fn split_step(acc: Seq<u8>, nulls: nat, b: u8) -> (Seq<Seq<u8>>, Seq<u8>, nat) {
    if b == 0 {
        (Seq::<Seq<u8>>::empty(), acc.push(0), bump_nulls(nulls))
    } else if closes_start_code(nulls, b) {
        let cut = acc.len() - nulls;
        let unit = acc.take(cut);
        let rest = acc.skip(cut).push(1);
        if unit.len() > 0 {
            (seq![unit], rest, 0)
        } else {
            (Seq::<Seq<u8>>::empty(), rest, 0)
        }
    } else {
        (Seq::<Seq<u8>>::empty(), acc.push(b), 0)
    }
}

/// The splitter folded over a whole input: all units emitted while
/// consuming `input` from state (`acc`, `nulls`), with the final
/// accumulator and zero-run length.
pub open spec fn split_bytes(acc: Seq<u8>, nulls: nat, input: Seq<u8>) -> (Seq<Seq<u8>>, Seq<u8>, nat)
    decreases input.len(),
{
    if input.len() == 0 {
        (Seq::<Seq<u8>>::empty(), acc, nulls)
    } else {
        let s = split_step(acc, nulls, input[0]);
        let r = split_bytes(s.1, s.2, input.drop_first());
        (s.0 + r.0, r.1, r.2)
    }
}

/// A splitter state is well formed when the zero run is no longer than
/// the accumulator that contains it, and saturated at 4.
pub open spec fn split_state_wf(acc: Seq<u8>, nulls: nat) -> bool {
    nulls <= acc.len() && nulls <= 4
}

/// Splitting is chunk-boundary-invariant: consuming `s` and then `t`
/// emits exactly the units of consuming `s + t` in one piece, and lands
/// in the same state. How the stream is cut across reads can therefore
/// never change the units recovered from it.
pub proof fn lemma_split_bytes_concat(acc: Seq<u8>, nulls: nat, s: Seq<u8>, t: Seq<u8>)
    ensures
        ({
            let a = split_bytes(acc, nulls, s);
            let b = split_bytes(a.1, a.2, t);
            let c = split_bytes(acc, nulls, s + t);
            c.0 == a.0 + b.0 && c.1 == b.1 && c.2 == b.2
        }),
    decreases s.len(),
{
    let a = split_bytes(acc, nulls, s);
    let b = split_bytes(a.1, a.2, t);
    let c = split_bytes(acc, nulls, s + t);
    if s.len() == 0 {
        assert(s + t =~= t);
        assert(a.0 + b.0 =~= b.0);
    } else {
        let st = split_step(acc, nulls, s[0]);
        assert((s + t)[0] == s[0]);
        assert((s + t).drop_first() =~= s.drop_first() + t);
        lemma_split_bytes_concat(st.1, st.2, s.drop_first(), t);
        let a2 = split_bytes(st.1, st.2, s.drop_first());
        let b2 = split_bytes(a2.1, a2.2, t);
        assert(st.0 + (a2.0 + b2.0) =~= (st.0 + a2.0) + b2.0);
    }
}

/// Round trip: the units emitted while consuming `input`, concatenated
/// in order and followed by the bytes still accumulated, reproduce the
/// starting accumulator followed by `input`, byte for byte. Units carry
/// their own start codes, so reassembly is plain concatenation.
pub proof fn lemma_split_bytes_reconstruct(acc: Seq<u8>, nulls: nat, input: Seq<u8>)
    requires
        nulls <= acc.len(),
    ensures
        ({
            let r = split_bytes(acc, nulls, input);
            r.0.flatten() + r.1 == acc + input
        }),
    decreases input.len(),
{
    let r = split_bytes(acc, nulls, input);
    if input.len() == 0 {
        assert(r.0.flatten() =~= Seq::<u8>::empty());
        assert(r.0.flatten() + r.1 =~= acc + input);
    } else {
        let b = input[0];
        let st = split_step(acc, nulls, b);
        lemma_split_step_reconstruct(acc, nulls, b);
        assert(st.2 <= st.1.len());
        let r2 = split_bytes(st.1, st.2, input.drop_first());
        lemma_split_bytes_reconstruct(st.1, st.2, input.drop_first());
        vstd::seq_lib::lemma_flatten_concat(st.0, r2.0);
        assert(r.0.flatten() + r.1 =~= st.0.flatten() + (r2.0.flatten() + r2.1));
        assert(st.0.flatten() + (st.1 + input.drop_first()) =~= acc.push(b) + input.drop_first());
        assert(acc.push(b) + input.drop_first() =~= acc + input);
    }
}

/// One step loses no byte: the unit it emits (if any) followed by the
/// new accumulator is the old accumulator followed by the byte.
pub proof fn lemma_split_step_reconstruct(acc: Seq<u8>, nulls: nat, b: u8)
    requires
        nulls <= acc.len(),
    ensures
        ({
            let s = split_step(acc, nulls, b);
            s.0.flatten() + s.1 == acc.push(b) && s.2 <= s.1.len()
        }),
{
    let s = split_step(acc, nulls, b);
    if b == 0 {
        assert(s.0.flatten() =~= Seq::<u8>::empty());
        assert(s.0.flatten() + s.1 =~= acc.push(b));
    } else if closes_start_code(nulls, b) {
        let cut = acc.len() - nulls;
        let unit = acc.take(cut);
        let rest = acc.skip(cut).push(1);
        assert(acc.take(cut) + acc.skip(cut) =~= acc);
        if unit.len() > 0 {
            seq![unit].lemma_flatten_one_element();
            assert(seq![unit].flatten() =~= unit);
            assert(unit + rest =~= acc.push(b));
        } else {
            assert(s.0.flatten() =~= Seq::<u8>::empty());
            assert(acc.skip(cut) =~= acc);
            assert(s.0.flatten() + s.1 =~= acc.push(b));
        }
    } else {
        assert(s.0.flatten() =~= Seq::<u8>::empty());
        assert(s.0.flatten() + s.1 =~= acc.push(b));
    }
}

/// The views of a sequence of byte vectors.
pub open spec fn views_of(units: Seq<Vec<u8>>) -> Seq<Seq<u8>> {
    units.map_values(|u: Vec<u8>| u@)
}

/// The stateful Annex-B splitter. It consumes the capture stream in
/// chunks of arbitrary size and emits one byte vector per recovered
/// NAL unit; bytes of a unit still open at a chunk boundary wait in the
/// accumulator for later chunks.
pub struct UnitSplitter {
    acc: Vec<u8>,
    nulls: usize,
}

impl UnitSplitter {
    /// The bytes accumulated for the unit currently being read.
    pub closed spec fn acc(self) -> Seq<u8> {
        self.acc@
    }

    /// The length of the trailing run of zero bytes, saturated at 4.
    pub closed spec fn nulls(self) -> nat {
        self.nulls as nat
    }

    pub open spec fn wf(self) -> bool {
        split_state_wf(self.acc(), self.nulls())
    }

    /// A splitter that has seen no input.
    pub fn new() -> (s: Self)
        ensures
            s.wf(),
            s.acc() == Seq::<u8>::empty(),
            s.nulls() == 0,
    {
        UnitSplitter { acc: Vec::new(), nulls: 0 }
    }

    /// The bytes accumulated for the unit still open, in stream order.
    pub fn pending(&self) -> (r: &[u8])
        ensures
            r@ == self.acc(),
    {
        self.acc.as_slice()
    }

    /// Consumes one chunk of the stream and returns the units completed
    /// by it, exactly as `split_bytes` describes.
    pub fn push_chunk(&mut self, chunk: &[u8]) -> (units: Vec<Vec<u8>>)
        requires
            old(self).wf(),
        ensures
            final(self).wf(),
            ({
                let r = split_bytes(old(self).acc(), old(self).nulls(), chunk@);
                views_of(units@) == r.0 && final(self).acc() == r.1 && final(self).nulls() == r.2
            }),
    {
        let mut units: Vec<Vec<u8>> = Vec::new();
        let mut i: usize = 0;
        proof {
            assert(chunk@.skip(0) =~= chunk@);
            let q = split_bytes(self.acc(), self.nulls(), chunk@);
            assert(views_of(units@) + q.0 =~= q.0);
        }
        while i < chunk.len()
            invariant
                i <= chunk@.len(),
                self.wf(),
                ({
                    let r = split_bytes(old(self).acc(), old(self).nulls(), chunk@);
                    let q = split_bytes(self.acc(), self.nulls(), chunk@.skip(i as int));
                    r.0 == views_of(units@) + q.0 && r.1 == q.1 && r.2 == q.2
                }),
            decreases chunk@.len() - i,
        {
            let ghost pre_acc = self.acc@;
            let ghost pre_nulls = self.nulls as nat;
            let ghost pre_units = units@;
            let b = chunk[i];
            proof {
                assert(chunk@.skip(i as int)[0] == chunk@[i as int]);
                assert(chunk@.skip(i as int).drop_first() =~= chunk@.skip(i as int + 1));
            }
            if b == 0x00 {
                self.acc.push(0);
                if self.nulls < 4 {
                    self.nulls = self.nulls + 1;
                }
            } else if b == 0x01 && (self.nulls == 2 || self.nulls == 3) {
                let cut = self.acc.len() - self.nulls;
                let mut rest = self.acc.split_off(cut);
                rest.push(0x01);
                core::mem::swap(&mut self.acc, &mut rest);
                proof {
                    assert(pre_acc.subrange(0, cut as int) =~= pre_acc.take(cut as int));
                    assert(pre_acc.subrange(cut as int, pre_acc.len() as int) =~= pre_acc.skip(
                        cut as int,
                    ));
                }
                if rest.len() > 0 {
                    units.push(rest);
                    proof {
                        let st = split_step(pre_acc, pre_nulls, b);
                        assert(views_of(units@) =~= views_of(pre_units) + st.0);
                    }
                }
                self.nulls = 0;
            } else {
                self.acc.push(b);
                self.nulls = 0;
            }
            proof {
                let st = split_step(pre_acc, pre_nulls, b);
                assert(self.acc() == st.1 && self.nulls() == st.2);
                if st.0.len() == 0 {
                    assert(views_of(units@) =~= views_of(pre_units) + st.0);
                }
                let q_pre = split_bytes(pre_acc, pre_nulls, chunk@.skip(i as int));
                let q_post = split_bytes(self.acc(), self.nulls(), chunk@.skip(i as int + 1));
                assert(q_pre.0 =~= st.0 + q_post.0);
                let r = split_bytes(old(self).acc(), old(self).nulls(), chunk@);
                assert(r.0 =~= views_of(units@) + q_post.0);
            }
            i = i + 1;
        }
        proof {
            assert(chunk@.skip(chunk@.len() as int) =~= Seq::<u8>::empty());
        }
        units
    }
}

} // verus!
