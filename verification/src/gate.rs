use vstd::prelude::*;

use crate::binner::{all_false, all_false_spec, copy_array};
use crate::config::AirSensorData;

verus! {

/// The array the detector remembers after a candidate is submitted: always
/// the candidate itself, whether or not it differed.
pub open spec fn gate_next(last: Seq<bool>, candidate: Seq<bool>) -> Seq<bool> {
    candidate
}

/// Whether a candidate must be published: exactly when it differs from the
/// array published last.
pub open spec fn gate_publishes(last: Seq<bool>, candidate: Seq<bool>) -> bool {
    candidate != last
}

/// Pure, exact element-wise comparison of the previous and the candidate
/// arrays: true exactly when they differ, so publication (and the redraw it
/// causes) is suppressed when tracking noise reproduces an identical state.
pub fn should_publish(previous: &AirSensorData, candidate: &AirSensorData) -> (r: bool)
    ensures
        r == gate_publishes(previous@, candidate@),
{
    if previous.len() != candidate.len() {
        return true;
    }
    let mut i: usize = 0;
    while i < previous.len()
        invariant
            previous@.len() == candidate@.len(),
            i <= previous@.len(),
            forall|k: int| 0 <= k < i as int ==> previous@[k] == candidate@[k],
        decreases previous@.len() - i as int,
    {
        if previous[i] != candidate[i] {
            return true;
        }
        i += 1;
    }
    proof {
        assert(previous@ =~= candidate@);
    }
    false
}

/// Edge-triggered change detector: remembers the last candidate array it
/// accepted and reports whether a newly computed one differs, so that an
/// unchanged state is never republished.
pub struct ChangeGate {
    last: AirSensorData,
}

impl ChangeGate {
    /// The array the detector accepted last.
    pub closed spec fn last_view(self) -> Seq<bool> {
        self.last@
    }

    /// A fresh detector holding the all-released startup state.
    pub fn new() -> (r: Self)
        ensures
            r.last_view() == all_false_spec(),
    {
        ChangeGate { last: all_false() }
    }

    /// Feeds one candidate array through the detector: reports whether it differs
    /// from the last accepted one (and so must be published), and remembers
    /// it either way.
    pub fn submit(&mut self, candidate: &AirSensorData) -> (publish: bool)
        ensures
            publish == gate_publishes(old(self).last_view(), candidate@),
            final(self).last_view() == gate_next(old(self).last_view(), candidate@),
    {
        let publish = should_publish(&self.last, candidate);
        if publish {
            self.last = copy_array(candidate);
        }
        publish
    }
}

/// Idempotence of change detection: submitting the same candidate twice in a
/// row publishes at most once — once an array is accepted, an identical
/// resubmission reports no change.
pub proof fn lemma_gate_idempotent(last: Seq<bool>, candidate: Seq<bool>)
    ensures
        !gate_publishes(gate_next(last, candidate), candidate),
{
}

} // verus!
