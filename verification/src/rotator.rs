//! The segment rotator: the policy that decides, per incoming unit,
//! whether the live encoder ends its segment and a fresh one takes
//! over. Rotation happens only when the unit is an IDR key frame and
//! the live encoder is saturated, so every rotated-in segment starts
//! on a key frame and meets the minimum duration.

use vstd::prelude::*;
use crate::h264::{classify_unit, get_unit_type, spec_unit_type, unit_type_of, UNIT_TYPE_IDR, UnitType};
use crate::params::ParameterCache;
use crate::streams::EncoderPipeline;

verus! {

/// The type code the policy uses for a raw unit: its 5-bit header
/// code, or 0 for a buffer too short to carry one (forwarded but never
/// acted on, like any other unrecognized type).
pub open spec fn unit_code(unit: Seq<u8>) -> u8 {
    if unit.len() >= 5 {
        spec_unit_type(unit)
    } else {
        0
    }
}

/// The rotation rule: rotate exactly when an IDR unit arrives while
/// the live encoder is saturated.
pub open spec fn should_rotate(unit_type: u8, live_saturated: bool) -> bool {
    unit_type == UNIT_TYPE_IDR && live_saturated
}

/// Drives one live encoder at a time. Every incoming unit is forwarded
/// to the live encoder; when the rotation rule fires, a fresh encoder
/// is swapped in first and the outgoing one is handed back to the
/// caller for asynchronous finalization.
pub struct Rotator {
    live: EncoderPipeline,
    live_from_rotation: Ghost<bool>,
}

impl Rotator {
    /// The bookkeeping of the encoder currently receiving units.
    pub closed spec fn live(self) -> EncoderPipeline {
        self.live
    }

    /// Whether the live encoder was installed by a rotation (rather
    /// than being the first of the run).
    pub closed spec fn live_from_rotation(self) -> bool {
        self.live_from_rotation@
    }

    /// Every encoder installed by a rotation received an IDR unit
    /// first: its segment is independently decodable from its first
    /// frame.
    pub open spec fn wf(self) -> bool {
        self.live().wf() && (self.live_from_rotation() ==> self.live().history().len() >= 1
            && self.live().history()[0] == UNIT_TYPE_IDR)
    }

    /// A rotator whose first encoder has absorbed nothing yet.
    pub fn new(threshold: u64) -> (r: Self)
        requires
            threshold < u64::MAX,
        ensures
            r.wf(),
            !r.live_from_rotation(),
            r.live().threshold() == threshold,
            r.live().history() == Seq::<u8>::empty(),
    {
        Rotator { live: EncoderPipeline::new(threshold), live_from_rotation: Ghost(false) }
    }

    /// Accounts for one incoming unit of the given type. Returns the
    /// outgoing encoder exactly when the rotation rule fires; the unit
    /// itself always goes to the encoder that is live afterwards, so a
    /// rotated-in segment begins with the IDR unit that triggered it.
    pub fn on_unit(&mut self, unit_type: u8) -> (outgoing: Option<EncoderPipeline>)
        requires
            old(self).wf(),
        ensures
            final(self).wf(),
            outgoing.is_some() == should_rotate(unit_type, old(self).live().saturated()),
            final(self).live().threshold() == old(self).live().threshold(),
            (match outgoing {
                Some(prev) => {
                    &&& prev == old(self).live()
                    &&& final(self).live().history() == seq![unit_type]
                    &&& final(self).live_from_rotation()
                    &&& unit_type == UNIT_TYPE_IDR
                },
                None => {
                    &&& final(self).live().history() == old(self).live().history().push(unit_type)
                    &&& final(self).live_from_rotation() == old(self).live_from_rotation()
                },
            }),
    {
        let saturated = self.live.is_saturated();
        if unit_type == UNIT_TYPE_IDR && saturated {
            proof {
                self.live.lemma_wf_threshold();
            }
            let mut fresh = EncoderPipeline::new(self.live.threshold_value());
            core::mem::swap(&mut self.live, &mut fresh);
            proof {
                self.live_from_rotation@ = true;
            }
            self.live.record_write(unit_type);
            Some(fresh)
        } else {
            self.live.record_write(unit_type);
            None
        }
    }
}

/// One raw unit runs through the whole per-unit policy: it is
/// classified, a parameter set replaces its slot in the cache, and the
/// rotator accounts for it, rotating exactly when the rule fires. The
/// caller forwards the unit to whichever encoder is live afterwards
/// and finalizes the returned one, if any, in the background.
pub fn dispatch_unit(unit: &Vec<u8>, cache: &mut ParameterCache, rotator: &mut Rotator) -> (outgoing:
    Option<EncoderPipeline>)
    requires
        old(rotator).wf(),
    ensures
        final(rotator).wf(),
        ({
            let t = unit_type_of(unit_code(unit@));
            &&& final(cache).sps() == (if t == UnitType::Sps {
                unit@
            } else {
                old(cache).sps()
            })
            &&& final(cache).pps() == (if t == UnitType::Pps {
                unit@
            } else {
                old(cache).pps()
            })
        }),
        outgoing.is_some() == should_rotate(unit_code(unit@), old(rotator).live().saturated()),
        final(rotator).live().threshold() == old(rotator).live().threshold(),
        (match outgoing {
            Some(prev) => {
                &&& prev == old(rotator).live()
                &&& final(rotator).live().history() == seq![unit_code(unit@)]
                &&& final(rotator).live_from_rotation()
            },
            None => {
                &&& final(rotator).live().history() == old(rotator).live().history().push(
                    unit_code(unit@),
                )
                &&& final(rotator).live_from_rotation() == old(rotator).live_from_rotation()
            },
        }),
{
    let t = classify_unit(unit);
    cache.observe(t, unit);
    let code = if unit.len() >= 5 {
        get_unit_type(unit)
    } else {
        0
    };
    rotator.on_unit(code)
}

} // verus!
