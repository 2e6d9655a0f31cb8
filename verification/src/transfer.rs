//! Moving gas from one mixture into another: archiving, merging, removing
//! and copying.
use crate::constants::MINIMUM_TEMPERATURE_DELTA_TO_CONSIDER;
use crate::fixed::{
    divide, fx_mul, lemma_range_product, magnitude, multiply, product, quantize,
    quantized, quot, smaller, SCALE,
};
use crate::gas::{absolute, Composition, GasMixture};
use vstd::prelude::*;

verus! {

impl Composition {
    /// The part of each amount that `amount` is of `total`, rounded to the
    /// quantum.
    pub open spec fn spec_portion(self, amount: i64, total: i64) -> Composition {
        Composition {
            oxygen: quantized(quot(self.oxygen * amount, total as int) as int),
            carbon_dioxide: quantized(quot(self.carbon_dioxide * amount, total as int) as int),
            nitrogen: quantized(quot(self.nitrogen * amount, total as int) as int),
            toxins: quantized(quot(self.toxins * amount, total as int) as int),
            sleeping_agent: quantized(quot(self.sleeping_agent * amount, total as int) as int),
            agent_b: quantized(quot(self.agent_b * amount, total as int) as int),
        }
    }

    /// Each amount times `ratio`, rounded to the quantum.
    pub open spec fn spec_scaled(self, ratio: i64) -> Composition {
        Composition {
            oxygen: quantized(fx_mul(self.oxygen as int, ratio as int) as int),
            carbon_dioxide: quantized(fx_mul(self.carbon_dioxide as int, ratio as int) as int),
            nitrogen: quantized(fx_mul(self.nitrogen as int, ratio as int) as int),
            toxins: quantized(fx_mul(self.toxins as int, ratio as int) as int),
            sleeping_agent: quantized(fx_mul(self.sleeping_agent as int, ratio as int) as int),
            agent_b: quantized(fx_mul(self.agent_b as int, ratio as int) as int),
        }
    }

    /// The part of each amount that `amount` is of `total`, rounded to the
    /// quantum.
    pub fn portion(&self, amount: i64, total: i64) -> (r: Composition)
        ensures
            r == self.spec_portion(amount, total),
            r.wf(),
    {
        Composition {
            oxygen: quantize(divide(product(self.oxygen, amount), total as i128)),
            carbon_dioxide: quantize(divide(product(self.carbon_dioxide, amount), total as i128)),
            nitrogen: quantize(divide(product(self.nitrogen, amount), total as i128)),
            toxins: quantize(divide(product(self.toxins, amount), total as i128)),
            sleeping_agent: quantize(divide(product(self.sleeping_agent, amount), total as i128)),
            agent_b: quantize(divide(product(self.agent_b, amount), total as i128)),
        }
    }

    /// Each amount times `ratio`, rounded to the quantum.
    pub fn scaled(&self, ratio: i64) -> (r: Composition)
        ensures
            r == self.spec_scaled(ratio),
            r.wf(),
    {
        Composition {
            oxygen: quantize(multiply(self.oxygen, ratio)),
            carbon_dioxide: quantize(multiply(self.carbon_dioxide, ratio)),
            nitrogen: quantize(multiply(self.nitrogen, ratio)),
            toxins: quantize(multiply(self.toxins, ratio)),
            sleeping_agent: quantize(multiply(self.sleeping_agent, ratio)),
            agent_b: quantize(multiply(self.agent_b, ratio)),
        }
    }
}

impl GasMixture {
    /// The mixture with its gases and temperature archived.
    pub open spec fn spec_archive(self) -> GasMixture {
        GasMixture { archived: self.gas, temperature_archived: self.temperature, ..self }
    }

    /// The mixture with the gases and temperature of `sample`.
    pub open spec fn spec_copy_from(self, sample: GasMixture) -> GasMixture {
        GasMixture { gas: sample.gas, temperature: sample.temperature, ..self }
    }

    /// Temperature of the mixture once it has absorbed `giver`: the average
    /// of the two weighted by heat capacity, where they differ by more than
    /// half a kelvin and the heat capacities do not cancel.
    pub open spec fn spec_merged_temperature(self, giver: GasMixture) -> i64 {
        let combined = self.spec_heat_capacity() + giver.spec_heat_capacity();
        if magnitude(self.temperature - giver.temperature) > MINIMUM_TEMPERATURE_DELTA_TO_CONSIDER
            && combined != 0 {
            quot(
                giver.temperature * giver.spec_heat_capacity() + self.temperature
                    * self.spec_heat_capacity(),
                combined,
            )
        } else {
            self.temperature
        }
    }

    /// The mixture after `merge`.
    pub open spec fn spec_merge(self, giver: GasMixture) -> GasMixture {
        if giver.is_initialized {
            GasMixture {
                gas: self.gas.spec_plus(giver.gas),
                temperature: self.spec_merged_temperature(giver),
                ..self
            }
        } else {
            self
        }
    }

    /// The amount that `remove` takes when asked for `amount`: no more than
    /// the mixture holds.
    pub open spec fn spec_removable(self, amount: i64) -> i64 {
        smaller(amount as int, self.spec_total_moles() as int) as i64
    }

    /// The gases that `remove` takes out when asked for `amount`.
    pub open spec fn spec_removed(self, amount: i64) -> Composition {
        self.gas.spec_portion(self.spec_removable(amount), self.spec_total_moles())
    }

    /// The share that `remove_ratio` takes when asked for `ratio`: one at
    /// most.
    pub open spec fn spec_removable_ratio(ratio: i64) -> i64 {
        smaller(ratio as int, SCALE as int) as i64
    }

    /// The gases that `remove_ratio` takes out when asked for `ratio`.
    pub open spec fn spec_removed_ratio(self, ratio: i64) -> Composition {
        self.gas.spec_scaled(GasMixture::spec_removable_ratio(ratio))
    }

    /// The mixture that received what was removed from `source`.
    pub open spec fn spec_receive(self, taken: Composition, source: GasMixture) -> GasMixture {
        GasMixture { gas: taken, temperature: source.temperature, ..self }
    }

    /// The mixture that `taken` was removed from.
    pub open spec fn spec_give(self, taken: Composition) -> GasMixture {
        GasMixture { gas: self.gas.spec_minus(taken), ..self }
    }

    /// The gases that `remove` takes out when asked for `amount`, if any.
    pub open spec fn spec_taken(self, amount: i64) -> Option<Composition> {
        if self.spec_removable(amount) > 0 {
            Some(self.spec_removed(amount))
        } else {
            None
        }
    }

    /// The gases that `remove_ratio` takes out when asked for `ratio`, if
    /// any.
    pub open spec fn spec_taken_ratio(self, ratio: i64) -> Option<Composition> {
        if ratio > 0 {
            Some(self.spec_removed_ratio(ratio))
        } else {
            None
        }
    }

    /// The gases that `remove` takes out when asked for `amount`: of each
    /// gas its part of the amount, rounded to the quantum, or nothing where
    /// the amount or what the mixture holds is not positive.
    pub fn taken(&self, amount: i64) -> (r: Option<Composition>)
        requires
            self.wf(),
        ensures
            r == self.spec_taken(amount),
            r.is_some() ==> r.unwrap().wf(),
    {
        let sum: i64 = self.total_moles();
        let taken_amount: i64 = if amount <= sum {
            amount
        } else {
            sum
        };
        if taken_amount <= 0 {
            None
        } else {
            Some(self.gas.portion(taken_amount, sum))
        }
    }

    /// The gases that `remove_ratio` takes out when asked for `ratio`: of
    /// each gas that share, rounded to the quantum, or nothing where the
    /// ratio is not positive.
    pub fn taken_ratio(&self, ratio: i64) -> (r: Option<Composition>)
        requires
            self.wf(),
        ensures
            r == self.spec_taken_ratio(ratio),
            r.is_some() ==> r.unwrap().wf(),
    {
        if ratio <= 0 {
            None
        } else {
            let taken_ratio: i64 = if ratio <= SCALE {
                ratio
            } else {
                SCALE
            };
            Some(self.gas.scaled(taken_ratio))
        }
    }

    /// Copies the gases and the temperature held now into the archive, which
    /// every exchange of the tick then reads.
    pub fn archive(&mut self)
        ensures
            *final(self) == old(self).spec_archive(),
            old(self).wf() ==> final(self).wf(),
    {
        self.archived = self.gas;
        self.temperature_archived = self.temperature;
    }

    /// Overwrites the gases and the temperature with those of `sample`.
    pub fn copy_from(&mut self, sample: &GasMixture)
        ensures
            *final(self) == old(self).spec_copy_from(*sample),
            old(self).wf() && sample.wf() ==> final(self).wf(),
    {
        self.gas = sample.gas;
        self.temperature = sample.temperature;
    }

    /// Absorbs all the gas of `giver`, which keeps its own.  Where the two
    /// temperatures differ by more than half a kelvin, the mixture takes the
    /// average of the two weighted by heat capacity.  Does nothing and
    /// returns `false` where `giver` is not initialized.
    pub fn merge(&mut self, giver: &GasMixture) -> (merged: bool)
        requires
            old(self).wf(),
            giver.wf(),
        ensures
            final(self).wf(),
            *final(self) == old(self).spec_merge(*giver),
            merged == giver.is_initialized,
    {
        if !giver.is_initialized {
            return false;
        }
        if absolute(self.temperature - giver.temperature) > MINIMUM_TEMPERATURE_DELTA_TO_CONSIDER {
            let self_heat_capacity: i64 = self.heat_capacity();
            let giver_heat_capacity: i64 = giver.heat_capacity();
            let combined_heat_capacity: i64 = self_heat_capacity + giver_heat_capacity;
            if combined_heat_capacity != 0 {
                proof {
                    lemma_range_product(giver.temperature as int, giver_heat_capacity as int);
                    lemma_range_product(self.temperature as int, self_heat_capacity as int);
                }
                self.temperature = divide(
                    product(giver.temperature, giver_heat_capacity) + product(
                        self.temperature,
                        self_heat_capacity,
                    ),
                    combined_heat_capacity as i128,
                );
            }
        }
        self.gas = self.gas.plus(&giver.gas);
        true
    }

    /// Takes `amount` moles out of the mixture, of each gas in proportion to
    /// what is there and rounded to the quantum, and puts them into `into`
    /// together with the temperature; more than the mixture holds cannot be
    /// taken.  Where nothing is to be taken, `into` is vacated instead.
    pub fn remove(&mut self, into: &mut GasMixture, amount: i64)
        requires
            old(self).wf(),
            old(into).wf(),
        ensures
            final(self).wf(),
            final(into).wf(),
            match old(self).spec_taken(amount) {
                Some(taken) => *final(self) == old(self).spec_give(taken) && *final(into) == old(
                    into,
                ).spec_receive(taken, *old(self)),
                None => *final(self) == *old(self) && *final(into) == GasMixture::spec_vacant(),
            },
    {
        match self.taken(amount) {
            Some(taken) => {
                into.gas = taken;
                into.temperature = self.temperature;
                self.gas = self.gas.minus(&taken);
            },
            None => {
                *into = GasMixture::vacant();
            },
        }
    }

    /// Takes the share `ratio` of every gas out of the mixture, rounded to
    /// the quantum, and puts it into `into` together with the temperature;
    /// more than all of it cannot be taken.  Where the ratio is not
    /// positive, `into` is vacated instead.
    pub fn remove_ratio(&mut self, into: &mut GasMixture, ratio: i64)
        requires
            old(self).wf(),
            old(into).wf(),
        ensures
            final(self).wf(),
            final(into).wf(),
            match old(self).spec_taken_ratio(ratio) {
                Some(taken) => *final(self) == old(self).spec_give(taken) && *final(into) == old(
                    into,
                ).spec_receive(taken, *old(self)),
                None => *final(self) == *old(self) && *final(into) == GasMixture::spec_vacant(),
            },
    {
        match self.taken_ratio(ratio) {
            Some(taken) => {
                into.gas = taken;
                into.temperature = self.temperature;
                self.gas = self.gas.minus(&taken);
            },
            None => {
                *into = GasMixture::vacant();
            },
        }
    }
}

} // verus!
