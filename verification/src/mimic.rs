//! One-sided exchange of a mixture with a cell that the host describes.
use crate::constants::{
    MINIMUM_HEAT_CAPACITY, MINIMUM_MOLES_DELTA_TO_MOVE, MINIMUM_TEMPERATURE_DELTA_TO_CONSIDER,
    MINIMUM_TEMPERATURE_TO_MOVE,
};
use crate::exchange::{
    conducted, conduction_flow, pressure_between, pressure_difference, rebalance,
    rebalanced_temperature,
};
use crate::fixed::{
    clamp, divide, in_range, lemma_product_bound, magnitude, product, quot, saturate,
};
use crate::gas::{absolute, Composition, GasMixture, Turf};
use vstd::prelude::*;

verus! {

impl GasMixture {
    /// Whether conduction with a body at `model_temperature` and of
    /// `model_heat_capacity` would move heat at all.  The arguments are in
    /// range.
    pub open spec fn conducts_with_model(self, model_temperature: i64, model_heat_capacity: i64)
        -> bool {
        &&& magnitude(self.temperature - model_temperature) > MINIMUM_TEMPERATURE_DELTA_TO_CONSIDER
        &&& model_heat_capacity > MINIMUM_HEAT_CAPACITY
        &&& self.spec_heat_capacity() > MINIMUM_HEAT_CAPACITY
    }

    /// Temperature of the mixture after conduction with such a body.
    pub open spec fn spec_temperature_mimic(
        self,
        model_temperature: i64,
        model_heat_capacity: i64,
        coefficient: i64,
    ) -> i64 {
        let other_temperature = clamp(model_temperature as int);
        let other_capacity = clamp(model_heat_capacity as int);
        if self.conducts_with_model(other_temperature, other_capacity) {
            clamp(
                self.temperature - quot(
                    conduction_flow(
                        coefficient,
                        self.temperature - other_temperature,
                        self.spec_heat_capacity(),
                        other_capacity,
                    ),
                    self.spec_heat_capacity() as int,
                ),
            )
        } else {
            self.temperature
        }
    }

    /// The mixture once `deltas` have left it, before any heat does.
    pub open spec fn spec_mimic_moved(self, deltas: Composition) -> GasMixture {
        GasMixture {
            gas: self.gas.spec_minus(deltas),
            last_share: clamp(deltas.spec_abs_total()),
            ..self
        }
    }

    /// Temperature of the mixture once the heat has followed the gas.  The
    /// mixture has given `deltas` away already; `capacity` is the heat
    /// capacity it had before.
    pub open spec fn spec_mimic_heated(
        self,
        deltas: Composition,
        capacity: i64,
        model_temperature: i64,
        model_heat_capacity: i64,
        model_thermal_conductivity: i64,
    ) -> i64 {
        let carried = GasMixture {
            temperature: rebalanced_temperature(
                capacity,
                self.temperature,
                -deltas.spec_heat() * self.temperature_archived,
                0,
                capacity + deltas.spec_heat(),
            ),
            ..self
        };
        carried.spec_temperature_mimic(
            model_temperature,
            model_heat_capacity,
            model_thermal_conductivity,
        )
    }

    /// The mixture after `mimic`.
    pub open spec fn spec_mimic(
        self,
        turf_model: Turf,
        model_thermal_conductivity: i64,
        model_heat_capacity: i64,
        adjacent_turfs: u32,
    ) -> GasMixture {
        let model = turf_model.spec_clamped();
        let deltas = self.archived.spec_exchange_deltas(model.gas, adjacent_turfs);
        let moved = self.spec_mimic_moved(deltas);
        if self.warmer_or_colder(model.temperature) {
            GasMixture {
                temperature: moved.spec_mimic_heated(
                    deltas,
                    self.spec_heat_capacity(),
                    model.temperature,
                    model_heat_capacity,
                    model_thermal_conductivity,
                ),
                ..moved
            }
        } else {
            moved
        }
    }

    /// The pressure difference that `mimic` reports.
    pub open spec fn spec_mimic_pressure(
        self,
        turf_model: Turf,
        model_thermal_conductivity: i64,
        model_heat_capacity: i64,
        adjacent_turfs: u32,
    ) -> i64 {
        let model = turf_model.spec_clamped();
        let moved = self.archived.spec_exchange_deltas(model.gas, adjacent_turfs).spec_total();
        if self.moves_air(model.temperature, moved) {
            pressure_between(
                self.temperature_archived,
                self.spec_mimic(
                    turf_model,
                    model_thermal_conductivity,
                    model_heat_capacity,
                    adjacent_turfs,
                ).spec_total_moles() + moved,
                model.temperature,
                model.gas.spec_total(),
                self.volume,
            )
        } else {
            0
        }
    }

    /// What `temperature_turf_share` does to the temperature of the mixture
    /// and hands back for the cell, if conduction moves heat at all.
    pub open spec fn spec_temperature_turf_share(
        self,
        turf_temperature: i64,
        turf_heat_capacity: i64,
        coefficient: i64,
    ) -> Option<(i64, i64)> {
        let other_temperature = clamp(turf_temperature as int);
        let other_capacity = clamp(turf_heat_capacity as int);
        if self.warmer_or_colder(other_temperature) && other_capacity > MINIMUM_HEAT_CAPACITY
            && self.spec_heat_capacity() > MINIMUM_HEAT_CAPACITY {
            let heat = conduction_flow(
                coefficient,
                self.temperature_archived - other_temperature,
                self.spec_heat_capacity(),
                other_capacity,
            );
            Some(
                (
                    clamp(self.temperature - quot(heat, self.spec_heat_capacity() as int)),
                    clamp(other_temperature + quot(heat, other_capacity as int)),
                ),
            )
        } else {
            None
        }
    }

    /// Conduction with a body that is no mixture: the same flow of heat as
    /// between two mixtures, by the temperature and heat capacity held now,
    /// and only the mixture's temperature changes.
    pub fn temperature_mimic(
        &mut self,
        model_temperature: i64,
        model_heat_capacity: i64,
        conduction_coefficient: i64,
    )
        requires
            old(self).wf(),
        ensures
            final(self).wf(),
            *final(self) == (GasMixture {
                temperature: old(self).spec_temperature_mimic(
                    model_temperature,
                    model_heat_capacity,
                    conduction_coefficient,
                ),
                ..*old(self)
            }),
    {
        let other_temperature: i64 = saturate(model_temperature as i128);
        let other_capacity: i64 = saturate(model_heat_capacity as i128);
        let delta_temperature: i64 = self.temperature - other_temperature;
        if absolute(delta_temperature) > MINIMUM_TEMPERATURE_DELTA_TO_CONSIDER {
            let self_heat_capacity: i64 = self.heat_capacity();
            if other_capacity > MINIMUM_HEAT_CAPACITY && self_heat_capacity
                > MINIMUM_HEAT_CAPACITY {
                let heat: i128 = conducted(
                    conduction_coefficient,
                    delta_temperature,
                    self_heat_capacity,
                    other_capacity,
                );
                let cooled: i64 = divide(heat, self_heat_capacity as i128);
                self.temperature = saturate(self.temperature as i128 - cooled as i128);
            }
        }
    }

    /// Lets the heat follow the gas that `mimic` took away, then conducts.
    fn mimic_heat(
        &mut self,
        deltas: &Composition,
        capacity: i64,
        model_temperature: i64,
        model_heat_capacity: i64,
        model_thermal_conductivity: i64,
    )
        requires
            old(self).wf(),
            deltas.wf(),
            in_range(capacity as int),
        ensures
            final(self).wf(),
            *final(self) == (GasMixture {
                temperature: old(self).spec_mimic_heated(
                    *deltas,
                    capacity,
                    model_temperature,
                    model_heat_capacity,
                    model_thermal_conductivity,
                ),
                ..*old(self)
            }),
    {
        let heat_capacity_transferred: i64 = -deltas.heat();
        proof {
            lemma_product_bound(
                heat_capacity_transferred as int,
                self.temperature_archived as int,
                610_000_000_000_000_000,
                1_000_000_000_000_000,
            );
        }
        self.temperature = rebalance(
            capacity,
            self.temperature,
            product(heat_capacity_transferred, self.temperature_archived),
            0,
            capacity - heat_capacity_transferred,
        );
        self.temperature_mimic(model_temperature, model_heat_capacity, model_thermal_conductivity);
    }

    /// Diffusion against a cell that the host describes: the same amounts
    /// leave the mixture as `share` would move, the heat they carry leaves
    /// with them, and conduction with the model follows, while the model
    /// itself is left to the host.  Returns the pressure difference between
    /// the mixture and the model, or zero where neither the temperature
    /// difference nor the moved amount is large enough.
    pub fn mimic(
        &mut self,
        turf_model: Turf,
        model_thermal_conductivity: i64,
        model_heat_capacity: i64,
        adjacent_turfs: u32,
    ) -> (r: i64)
        requires
            old(self).wf(),
        ensures
            final(self).wf(),
            *final(self) == old(self).spec_mimic(
                turf_model,
                model_thermal_conductivity,
                model_heat_capacity,
                adjacent_turfs,
            ),
            r == old(self).spec_mimic_pressure(
                turf_model,
                model_thermal_conductivity,
                model_heat_capacity,
                adjacent_turfs,
            ),
    {
        let model: Turf = turf_model.clamped();
        let temperature_archived: i64 = self.temperature_archived;
        let deltas: Composition = self.archived.exchange_deltas(&model.gas, adjacent_turfs);
        let delta_temperature: i64 = temperature_archived - model.temperature;
        let old_self_heat_capacity: i64 = self.heat_capacity();
        self.gas = self.gas.minus(&deltas);
        let moved_moles: i64 = deltas.total();
        self.last_share = saturate(deltas.abs_total() as i128);
        if absolute(delta_temperature) > MINIMUM_TEMPERATURE_DELTA_TO_CONSIDER {
            self.mimic_heat(
                &deltas,
                old_self_heat_capacity,
                model.temperature,
                model_heat_capacity,
                model_thermal_conductivity,
            );
        }
        if delta_temperature > MINIMUM_TEMPERATURE_TO_MOVE || absolute(
            moved_moles,
        ) > MINIMUM_MOLES_DELTA_TO_MOVE {
            pressure_difference(
                temperature_archived,
                self.total_moles() + moved_moles,
                model.temperature,
                model.gas.total(),
                self.volume,
            )
        } else {
            0
        }
    }

    /// Whether the archived temperature of the mixture and the temperature
    /// of the cell it stands on differ by more than half a kelvin, so that
    /// `temperature_turf_share` has the heat capacity of the cell to ask for.
    pub fn turf_temperature_differs(&self, turf_temperature: i64) -> (r: bool)
        requires
            self.wf(),
        ensures
            r == self.warmer_or_colder(clamp(turf_temperature as int)),
            !r ==> self.spec_temperature_turf_share(turf_temperature, 0, 0).is_none(),
    {
        let other_temperature: i64 = saturate(turf_temperature as i128);
        absolute(self.temperature_archived - other_temperature)
            > MINIMUM_TEMPERATURE_DELTA_TO_CONSIDER
    }

    /// Conduction between the mixture and the cell it stands on.  The flow
    /// of heat goes by the archived temperature of the mixture, the
    /// temperature of the cell and the two heat capacities held now.  Returns
    /// the cell's new temperature where heat moved, for the host to store,
    /// and nothing where the temperatures differ by at most half a kelvin or
    /// a heat capacity is negligible.
    pub fn temperature_turf_share(
        &mut self,
        turf_temperature: i64,
        turf_heat_capacity: i64,
        conduction_coefficient: i64,
    ) -> (r: Option<i64>)
        requires
            old(self).wf(),
        ensures
            final(self).wf(),
            match old(self).spec_temperature_turf_share(
                turf_temperature,
                turf_heat_capacity,
                conduction_coefficient,
            ) {
                Some(temperatures) => *final(self) == (GasMixture {
                    temperature: temperatures.0,
                    ..*old(self)
                }) && r == Some(temperatures.1),
                None => *final(self) == *old(self) && r.is_none(),
            },
    {
        let other_temperature: i64 = saturate(turf_temperature as i128);
        let delta_temperature: i64 = self.temperature_archived - other_temperature;
        if absolute(delta_temperature) > MINIMUM_TEMPERATURE_DELTA_TO_CONSIDER {
            let other_capacity: i64 = saturate(turf_heat_capacity as i128);
            let self_heat_capacity: i64 = self.heat_capacity();
            if other_capacity > MINIMUM_HEAT_CAPACITY && self_heat_capacity
                > MINIMUM_HEAT_CAPACITY {
                let heat: i128 = conducted(
                    conduction_coefficient,
                    delta_temperature,
                    self_heat_capacity,
                    other_capacity,
                );
                let cooled: i64 = divide(heat, self_heat_capacity as i128);
                let warmed: i64 = divide(heat, other_capacity as i128);
                self.temperature = saturate(self.temperature as i128 - cooled as i128);
                return Some(saturate(other_temperature as i128 + warmed as i128));
            }
        }
        None
    }
}

} // verus!
