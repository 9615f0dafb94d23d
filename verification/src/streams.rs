//! Stream sinks: the interface every unit sink offers, the no-op sink
//! for footage nobody is watching, and the bookkeeping model of one
//! live encoder instance that decides saturation.

use vstd::prelude::*;

verus! {

/// What every unit sink can do: come up, take a unit, be driven to
/// completion, and report whether it has absorbed enough units for the
/// current segment to be eligible for rotation.
pub trait StreamProcessor: Sized {
    fn spawn() -> Self;

    fn write(&mut self, buf: &mut Vec<u8>);

    fn process(&mut self);

    fn is_saturated(&self) -> bool;
}

/// A sink that drops everything; always saturated, so policy layers
/// above it never buffer on its behalf.
pub struct Null;

impl StreamProcessor for Null {
    fn spawn() -> Self {
        Null {}
    }

    fn write(&mut self, _buf: &mut Vec<u8>) {
    }

    fn process(&mut self) {
    }

    /// The no-op sink never asks the policy to hold units back.
    fn is_saturated(&self) -> (r: bool)
        ensures
            r,
    {
        true
    }
}

/// The saturation threshold for a capture running at `framerate`
/// frames per second: four seconds of frames, the minimum number of
/// units a segment absorbs before it may end.
pub open spec fn spec_saturation_threshold(framerate: u8) -> u64 {
    (framerate * 4) as u64
}

/// Computes the saturation threshold from the configured framerate.
pub fn saturation_threshold(framerate: u8) -> (t: u64)
    ensures
        t == spec_saturation_threshold(framerate),
        t < u64::MAX,
{
    framerate as u64 * 4
}

/// The verified bookkeeping for one live encoder instance: how many
/// units it has absorbed, against the threshold that defines
/// saturation. The subprocess itself lives outside this crate; this
/// records every unit handed to it. The running count saturates just
/// past the threshold, which `is_saturated` never distinguishes from
/// the true count.
pub struct EncoderPipeline {
    units_written: u64,
    threshold: u64,
    history: Ghost<Seq<u8>>,
}

impl EncoderPipeline {
    /// The unit type codes of every unit written to this encoder, in
    /// order.
    pub closed spec fn history(self) -> Seq<u8> {
        self.history@
    }

    /// The configured saturation threshold.
    pub closed spec fn threshold(self) -> u64 {
        self.threshold
    }

    /// An encoder is saturated once it has absorbed more units than
    /// its threshold.
    pub open spec fn saturated(self) -> bool {
        self.history().len() > self.threshold()
    }

    pub closed spec fn wf(self) -> bool {
        self.threshold < u64::MAX && self.units_written == (if self.history@.len()
            > self.threshold + 1 {
            self.threshold + 1
        } else {
            self.history@.len() as int
        })
    }

    /// A well-formed encoder always has room above its threshold.
    pub proof fn lemma_wf_threshold(self)
        requires
            self.wf(),
        ensures
            self.threshold() < u64::MAX,
    {
    }

    /// A fresh encoder that has absorbed nothing.
    pub fn new(threshold: u64) -> (p: Self)
        requires
            threshold < u64::MAX,
        ensures
            p.wf(),
            p.threshold() == threshold,
            p.history() == Seq::<u8>::empty(),
    {
        EncoderPipeline { units_written: 0, threshold, history: Ghost(Seq::empty()) }
    }

    /// The threshold this encoder was created with.
    pub fn threshold_value(&self) -> (t: u64)
        ensures
            t == self.threshold(),
    {
        self.threshold
    }

    /// Records one unit handed to the encoder's input.
    pub fn record_write(&mut self, unit_type: u8)
        requires
            old(self).wf(),
        ensures
            final(self).wf(),
            final(self).threshold() == old(self).threshold(),
            final(self).history() == old(self).history().push(unit_type),
    {
        if self.units_written <= self.threshold {
            self.units_written = self.units_written + 1;
        }
        proof {
            self.history@ = self.history@.push(unit_type);
        }
    }

    /// Whether this encoder has met the minimum segment duration.
    pub fn is_saturated(&self) -> (r: bool)
        requires
            self.wf(),
        ensures
            r == self.saturated(),
    {
        self.units_written > self.threshold
    }
}

} // verus!
