//! Tests of whether a mixture is close enough to another, or to a cell that
//! the host describes, for a group of cells to stop exchanging.
use crate::constants::{
    MINIMUM_AIR_RATIO_TO_SUSPEND, MINIMUM_AIR_TO_SUSPEND, MINIMUM_TEMPERATURE_DELTA_TO_SUSPEND,
    MINIMUM_TEMPERATURE_RATIO_TO_SUSPEND,
};
use crate::fixed::{divide, in_range, magnitude, product, quot, SCALE};
use crate::gas::{absolute, Composition, GasMixture, Turf};
use vstd::prelude::*;

verus! {

/// Whether `value` is too far from `sample`: they differ by more than
/// `threshold`, and `value` lies outside the band of `ratio` around `sample`.
pub open spec fn differs(value: i64, sample: i64, threshold: i64, ratio: i64) -> bool {
    &&& magnitude(value - sample) > threshold
    &&& (value * SCALE < (SCALE - ratio) * sample || value * SCALE > (SCALE + ratio) * sample)
}

/// Whether the amount `delta` that would move is too large for a mixture
/// that holds `amount`: more than the least amount that counts, and at least
/// the least share of what is there.
pub open spec fn flows(delta: i64, amount: i64) -> bool {
    &&& delta > MINIMUM_AIR_TO_SUSPEND
    &&& delta * SCALE >= amount * MINIMUM_AIR_RATIO_TO_SUSPEND
}

/// The absolute amount that would move between a mixture that holds `mine`
/// and a cell that holds `theirs`, shared among the neighbours and the
/// mixture itself.
pub open spec fn flow_between(mine: i64, theirs: i64, adjacent_turfs: u32) -> i64 {
    magnitude(quot(mine - theirs, adjacent_turfs + 1) as int) as i64
}

impl Composition {
    /// Whether any of the six gases is too far from that of `sample`.
    pub open spec fn spec_differs(self, sample: Composition) -> bool {
        ||| differs(
            self.oxygen,
            sample.oxygen,
            MINIMUM_AIR_TO_SUSPEND,
            MINIMUM_AIR_RATIO_TO_SUSPEND,
        )
        ||| differs(
            self.nitrogen,
            sample.nitrogen,
            MINIMUM_AIR_TO_SUSPEND,
            MINIMUM_AIR_RATIO_TO_SUSPEND,
        )
        ||| differs(
            self.carbon_dioxide,
            sample.carbon_dioxide,
            MINIMUM_AIR_TO_SUSPEND,
            MINIMUM_AIR_RATIO_TO_SUSPEND,
        )
        ||| differs(
            self.toxins,
            sample.toxins,
            MINIMUM_AIR_TO_SUSPEND,
            MINIMUM_AIR_RATIO_TO_SUSPEND,
        )
        ||| differs(
            self.sleeping_agent,
            sample.sleeping_agent,
            MINIMUM_AIR_TO_SUSPEND,
            MINIMUM_AIR_RATIO_TO_SUSPEND,
        )
        ||| differs(
            self.agent_b,
            sample.agent_b,
            MINIMUM_AIR_TO_SUSPEND,
            MINIMUM_AIR_RATIO_TO_SUSPEND,
        )
    }

    /// Whether too much of any of the six gases would move to a cell that
    /// holds `model`.
    pub open spec fn spec_flows(self, model: Composition, adjacent_turfs: u32) -> bool {
        ||| flows(flow_between(self.oxygen, model.oxygen, adjacent_turfs), self.oxygen)
        ||| flows(
            flow_between(self.carbon_dioxide, model.carbon_dioxide, adjacent_turfs),
            self.carbon_dioxide,
        )
        ||| flows(flow_between(self.nitrogen, model.nitrogen, adjacent_turfs), self.nitrogen)
        ||| flows(flow_between(self.toxins, model.toxins, adjacent_turfs), self.toxins)
        ||| flows(
            flow_between(self.sleeping_agent, model.sleeping_agent, adjacent_turfs),
            self.sleeping_agent,
        )
        ||| flows(flow_between(self.agent_b, model.agent_b, adjacent_turfs), self.agent_b)
    }

    /// Whether any of the six gases is too far from that of `sample`.
    pub fn differs_from(&self, sample: &Composition) -> (r: bool)
        requires
            self.wf(),
            sample.wf(),
        ensures
            r == self.spec_differs(*sample),
    {
        too_far(
            self.oxygen,
            sample.oxygen,
            MINIMUM_AIR_TO_SUSPEND,
            MINIMUM_AIR_RATIO_TO_SUSPEND,
        ) || too_far(
            self.nitrogen,
            sample.nitrogen,
            MINIMUM_AIR_TO_SUSPEND,
            MINIMUM_AIR_RATIO_TO_SUSPEND,
        ) || too_far(
            self.carbon_dioxide,
            sample.carbon_dioxide,
            MINIMUM_AIR_TO_SUSPEND,
            MINIMUM_AIR_RATIO_TO_SUSPEND,
        ) || too_far(
            self.toxins,
            sample.toxins,
            MINIMUM_AIR_TO_SUSPEND,
            MINIMUM_AIR_RATIO_TO_SUSPEND,
        ) || too_far(
            self.sleeping_agent,
            sample.sleeping_agent,
            MINIMUM_AIR_TO_SUSPEND,
            MINIMUM_AIR_RATIO_TO_SUSPEND,
        ) || too_far(
            self.agent_b,
            sample.agent_b,
            MINIMUM_AIR_TO_SUSPEND,
            MINIMUM_AIR_RATIO_TO_SUSPEND,
        )
    }

    /// Whether too much of any of the six gases would move to a cell that
    /// holds `model`.
    pub fn flows_to(&self, model: &Composition, adjacent_turfs: u32) -> (r: bool)
        requires
            self.wf(),
            model.wf(),
        ensures
            r == self.spec_flows(*model, adjacent_turfs),
    {
        too_much(self.oxygen, model.oxygen, adjacent_turfs) || too_much(
            self.carbon_dioxide,
            model.carbon_dioxide,
            adjacent_turfs,
        ) || too_much(self.nitrogen, model.nitrogen, adjacent_turfs) || too_much(
            self.toxins,
            model.toxins,
            adjacent_turfs,
        ) || too_much(self.sleeping_agent, model.sleeping_agent, adjacent_turfs) || too_much(
            self.agent_b,
            model.agent_b,
            adjacent_turfs,
        )
    }
}

/// Whether `value` is too far from `sample`.
pub fn too_far(value: i64, sample: i64, threshold: i64, ratio: i64) -> (r: bool)
    requires
        in_range(value as int),
        in_range(sample as int),
        0 <= ratio <= SCALE,
    ensures
        r == differs(value, sample, threshold, ratio),
{
    let scaled: i128 = product(value, SCALE);
    absolute(value - sample) > threshold && (scaled < product(SCALE - ratio, sample) || scaled
        > product(SCALE + ratio, sample))
}

/// Whether too much would move between a mixture that holds `mine` and a
/// cell that holds `theirs`.
fn too_much(mine: i64, theirs: i64, adjacent_turfs: u32) -> (r: bool)
    requires
        in_range(mine as int),
        in_range(theirs as int),
    ensures
        r == flows(flow_between(mine, theirs, adjacent_turfs), mine),
{
    let delta: i64 = absolute(
        divide((mine - theirs) as i128, adjacent_turfs as i128 + 1),
    );
    delta > MINIMUM_AIR_TO_SUSPEND && product(delta, SCALE) >= product(
        mine,
        MINIMUM_AIR_RATIO_TO_SUSPEND,
    )
}

impl GasMixture {
    /// Whether the mixture is close enough to `sample`.
    pub open spec fn spec_compare(self, sample: GasMixture) -> bool {
        &&& !self.gas.spec_differs(sample.gas)
        &&& !(self.spec_total_moles() > MINIMUM_AIR_TO_SUSPEND && differs(
            self.temperature,
            sample.temperature,
            MINIMUM_TEMPERATURE_DELTA_TO_SUSPEND,
            MINIMUM_TEMPERATURE_RATIO_TO_SUSPEND,
        ))
    }

    /// Whether the archived mixture is close enough to the cell `model`,
    /// whose values are in range.
    pub open spec fn spec_check_turf(self, turf_model: Turf, adjacent_turfs: u32) -> bool {
        let model = turf_model.spec_clamped();
        &&& !self.archived.spec_flows(model.gas, adjacent_turfs)
        &&& magnitude(self.temperature_archived - model.temperature)
            <= MINIMUM_TEMPERATURE_DELTA_TO_SUSPEND
    }

    /// Whether the mixture as it is now is close enough to the cell `model`.
    pub open spec fn spec_check_turf_total(self, turf_model: Turf, adjacent_turfs: u32) -> bool {
        let model = turf_model.spec_clamped();
        &&& !self.gas.spec_flows(model.gas, adjacent_turfs)
        &&& magnitude(self.temperature - model.temperature) <= MINIMUM_TEMPERATURE_DELTA_TO_SUSPEND
    }

    /// Whether the mixture is close enough to `sample` for a group of cells
    /// to stop exchanging.  It is not where one of the six gases differs by
    /// more than the least amount that counts and lies outside the band of
    /// half a percent around the sample's, nor where the mixture holds more
    /// than that least amount and its temperature differs likewise, by more
    /// than four kelvins and outside the band of one and a fifth percent.
    /// The test is not symmetric: the bands lie around the sample.
    pub fn compare(&self, sample: &GasMixture) -> (close: bool)
        requires
            self.wf(),
            sample.wf(),
        ensures
            close == self.spec_compare(*sample),
    {
        if self.gas.differs_from(&sample.gas) {
            return false;
        }
        if self.total_moles() > MINIMUM_AIR_TO_SUSPEND && too_far(
            self.temperature,
            sample.temperature,
            MINIMUM_TEMPERATURE_DELTA_TO_SUSPEND,
            MINIMUM_TEMPERATURE_RATIO_TO_SUSPEND,
        ) {
            return false;
        }
        true
    }

    /// Whether the archived mixture is close enough to a cell that the host
    /// describes.  It is not where, of one of the six gases, the share of the
    /// difference that falls to each neighbour is more than the least amount
    /// that counts and at least half a percent of what the mixture archived,
    /// nor where the temperatures differ by more than four kelvins.
    pub fn check_turf(&self, turf_model: Turf, adjacent_turfs: u32) -> (close: bool)
        requires
            self.wf(),
        ensures
            close == self.spec_check_turf(turf_model, adjacent_turfs),
    {
        let model: Turf = turf_model.clamped();
        if self.archived.flows_to(&model.gas, adjacent_turfs) {
            return false;
        }
        absolute(self.temperature_archived - model.temperature)
            <= MINIMUM_TEMPERATURE_DELTA_TO_SUSPEND
    }

    /// The same test as `check_turf`, on what the mixture holds now instead
    /// of what it archived: the share of each difference that falls to each
    /// neighbour is weighed against what the mixture holds, and the
    /// temperatures may differ by four kelvins at most.
    pub fn check_turf_total(&self, turf_model: Turf, adjacent_turfs: u32) -> (close: bool)
        requires
            self.wf(),
        ensures
            close == self.spec_check_turf_total(turf_model, adjacent_turfs),
    {
        let model: Turf = turf_model.clamped();
        if self.gas.flows_to(&model.gas, adjacent_turfs) {
            return false;
        }
        absolute(self.temperature - model.temperature) <= MINIMUM_TEMPERATURE_DELTA_TO_SUSPEND
    }
}

} // verus!
