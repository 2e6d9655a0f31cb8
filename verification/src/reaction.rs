//! Reactions inside one mixture: the trace reaction of agent B and the
//! burning of toxins.
use crate::constants::{
    FIRE_MINIMUM_TEMPERATURE_TO_EXIST, FIRE_PLASMA_ENERGY_RELEASED, MINIMUM_HEAT_CAPACITY,
    OXYGEN_BURN_RATE_BASE, PLASMA_BURN_RATE_DELTA, PLASMA_MINIMUM_BURN_TEMPERATURE,
    PLASMA_OXYGEN_FULLBURN, PLASMA_UPPER_TEMPERATURE, TRACE_AGENT_B_SHARE,
    TRACE_CARBON_DIOXIDE_SHARE, TRACE_REACTION_ENERGY_RELEASED, TRACE_REACTION_TEMPERATURE,
    TRACE_TOXINS_SHARE,
};
use crate::exchange::{rebalance, rebalanced_temperature};
use crate::fixed::{
    clamp, divide, fx_mul, in_range, lemma_product_bound, lemma_range_product, multiply, product,
    quot, saturate, smaller, times, SCALE,
};
use crate::gas::{Composition, GasMixture};
use vstd::prelude::*;

verus! {

impl GasMixture {
    /// Whether the trace reaction runs: there is agent B, it is hotter than
    /// 900 K, and there are toxins and carbon dioxide to speak of.
    pub open spec fn trace_reacts(self) -> bool {
        &&& self.gas.agent_b != 0
        &&& self.temperature > TRACE_REACTION_TEMPERATURE
        &&& self.gas.toxins > MINIMUM_HEAT_CAPACITY
        &&& self.gas.carbon_dioxide > MINIMUM_HEAT_CAPACITY
    }

    /// Moles that the trace reaction converts: the least of three quarters of
    /// the carbon dioxide, a quarter of the toxins and a twentieth of agent B.
    pub open spec fn spec_trace_rate(self) -> i64 {
        smaller(
            smaller(
                fx_mul(self.gas.carbon_dioxide as int, TRACE_CARBON_DIOXIDE_SHARE as int) as int,
                fx_mul(self.gas.toxins as int, TRACE_TOXINS_SHARE as int) as int,
            ),
            fx_mul(self.gas.agent_b as int, TRACE_AGENT_B_SHARE as int) as int,
        ) as i64
    }

    /// The mixture after the trace reaction: carbon dioxide has turned into
    /// oxygen, a twentieth as much agent B is used up, and the heat released
    /// has warmed what is left.
    pub open spec fn spec_after_trace(self) -> GasMixture {
        let rate = self.spec_trace_rate();
        let converted = GasMixture {
            gas: Composition {
                carbon_dioxide: clamp(self.gas.carbon_dioxide - rate),
                oxygen: clamp(self.gas.oxygen + rate),
                agent_b: clamp(self.gas.agent_b - fx_mul(rate as int, TRACE_AGENT_B_SHARE as int)),
                ..self.gas
            },
            ..self
        };
        GasMixture {
            temperature: clamp(
                self.temperature + quot(
                    rate * TRACE_REACTION_ENERGY_RELEASED,
                    converted.spec_heat_capacity() as int,
                ),
            ),
            ..converted
        }
    }

    /// How far the temperature has come from the lowest at which toxins burn
    /// to that at which they burn at full rate, one at most.
    pub open spec fn spec_temperature_scale(self) -> i64 {
        if self.temperature > PLASMA_UPPER_TEMPERATURE {
            SCALE
        } else {
            quot(
                (self.temperature - PLASMA_MINIMUM_BURN_TEMPERATURE) * SCALE,
                PLASMA_UPPER_TEMPERATURE - PLASMA_MINIMUM_BURN_TEMPERATURE,
            )
        }
    }

    /// Whether oxygen is so plentiful that the toxins limit the burn.
    pub open spec fn oxygen_abounds(self) -> bool {
        self.gas.oxygen * SCALE > self.gas.toxins * PLASMA_OXYGEN_FULLBURN
    }

    /// Moles of toxins that would burn in this step.
    pub open spec fn spec_burn_rate(self) -> i64 {
        let scale = self.spec_temperature_scale();
        if self.oxygen_abounds() {
            quot(self.gas.toxins * scale, PLASMA_BURN_RATE_DELTA as int)
        } else {
            quot(scale * self.gas.oxygen * SCALE, PLASMA_OXYGEN_FULLBURN * PLASMA_BURN_RATE_DELTA)
        }
    }

    /// Whether toxins burn in this step.
    pub open spec fn burns(self) -> bool {
        &&& self.gas.toxins > MINIMUM_HEAT_CAPACITY
        &&& self.spec_temperature_scale() > 0
        &&& self.spec_burn_rate() > MINIMUM_HEAT_CAPACITY
    }

    /// The mixture after the toxins burnt, before the heat released warms it.
    pub open spec fn spec_burnt(self) -> GasMixture {
        let burn = self.spec_burn_rate();
        let oxygen_burn_rate = OXYGEN_BURN_RATE_BASE - self.spec_temperature_scale();
        GasMixture {
            gas: Composition {
                toxins: clamp(self.gas.toxins - burn),
                oxygen: clamp(self.gas.oxygen - fx_mul(burn as int, oxygen_burn_rate)),
                carbon_dioxide: clamp(self.gas.carbon_dioxide + burn),
                ..self.gas
            },
            fuel_burnt: clamp(self.fuel_burnt + fx_mul(burn as int, oxygen_burn_rate + SCALE)),
            ..self
        }
    }

    /// The mixture after `fire`.
    pub open spec fn spec_fire(self) -> GasMixture {
        if self.burns() {
            let burnt = self.spec_burnt();
            GasMixture {
                temperature: rebalanced_temperature(
                    self.spec_heat_capacity(),
                    self.temperature,
                    0,
                    FIRE_PLASMA_ENERGY_RELEASED * self.spec_burn_rate(),
                    burnt.spec_heat_capacity() as int,
                ),
                ..burnt
            }
        } else {
            self
        }
    }

    /// The mixture as `react` hands it to `fire`.
    pub open spec fn spec_before_fire(self) -> GasMixture {
        let traced = if self.trace_reacts() {
            self.spec_after_trace()
        } else {
            self
        };
        GasMixture { fuel_burnt: 0, ..traced }
    }

    /// The mixture after `react`.
    pub open spec fn spec_react(self) -> GasMixture {
        let ready = self.spec_before_fire();
        if ready.temperature > FIRE_MINIMUM_TEMPERATURE_TO_EXIST {
            ready.spec_fire()
        } else {
            ready
        }
    }

    /// Whether `react` reports a reaction: the trace reaction ran, or fuel
    /// was burnt.
    pub open spec fn spec_reacted(self) -> bool {
        self.trace_reacts() || self.spec_react().fuel_burnt > 0
    }

    /// The trace reaction of agent B.
    fn trace_reaction(&mut self)
        requires
            old(self).wf(),
        ensures
            final(self).wf(),
            *final(self) == old(self).spec_after_trace(),
    {
        let from_carbon_dioxide: i64 = multiply(self.gas.carbon_dioxide, TRACE_CARBON_DIOXIDE_SHARE);
        let from_toxins: i64 = multiply(self.gas.toxins, TRACE_TOXINS_SHARE);
        let from_agent_b: i64 = multiply(self.gas.agent_b, TRACE_AGENT_B_SHARE);
        let least: i64 = if from_carbon_dioxide <= from_toxins {
            from_carbon_dioxide
        } else {
            from_toxins
        };
        let reaction_rate: i64 = if least <= from_agent_b {
            least
        } else {
            from_agent_b
        };
        self.gas.carbon_dioxide = saturate(
            self.gas.carbon_dioxide as i128 - reaction_rate as i128,
        );
        self.gas.oxygen = saturate(self.gas.oxygen as i128 + reaction_rate as i128);
        self.gas.agent_b = saturate(
            self.gas.agent_b as i128 - multiply(reaction_rate, TRACE_AGENT_B_SHARE) as i128,
        );
        let warmed: i64 = divide(
            product(reaction_rate, TRACE_REACTION_ENERGY_RELEASED),
            self.heat_capacity() as i128,
        );
        self.temperature = saturate(self.temperature as i128 + warmed as i128);
    }

    /// How far the temperature has come towards a full burn.
    fn temperature_scale(&self) -> (r: i64)
        requires
            self.wf(),
        ensures
            r == self.spec_temperature_scale(),
            in_range(r as int),
    {
        if self.temperature > PLASMA_UPPER_TEMPERATURE {
            SCALE
        } else {
            divide(
                product(self.temperature - PLASMA_MINIMUM_BURN_TEMPERATURE, SCALE),
                (PLASMA_UPPER_TEMPERATURE - PLASMA_MINIMUM_BURN_TEMPERATURE) as i128,
            )
        }
    }

    /// Moles of toxins that would burn in this step.
    fn burn_rate(&self, temperature_scale: i64) -> (r: i64)
        requires
            self.wf(),
            temperature_scale == self.spec_temperature_scale(),
            in_range(temperature_scale as int),
        ensures
            r == self.spec_burn_rate(),
            in_range(r as int),
    {
        if product(self.gas.oxygen, SCALE) > product(self.gas.toxins, PLASMA_OXYGEN_FULLBURN) {
            divide(product(self.gas.toxins, temperature_scale), PLASMA_BURN_RATE_DELTA as i128)
        } else {
            proof {
                lemma_range_product(temperature_scale as int, self.gas.oxygen as int);
            }
            divide(
                times(product(temperature_scale, self.gas.oxygen), SCALE),
                product(PLASMA_OXYGEN_FULLBURN, PLASMA_BURN_RATE_DELTA),
            )
        }
    }

    /// Burns toxins.  Above the lowest burn temperature a share of the
    /// toxins, or of the oxygen where that is scarce, turns into carbon
    /// dioxide; the hotter, the larger the share and the less oxygen each
    /// mole of toxins takes.  The heat released warms what is left.  Returns
    /// the moles of fuel and oxidiser noted as burnt.
    pub fn fire(&mut self) -> (r: i64)
        requires
            old(self).wf(),
        ensures
            final(self).wf(),
            *final(self) == old(self).spec_fire(),
            r == final(self).fuel_burnt,
    {
        let old_heat_capacity: i64 = self.heat_capacity();
        if self.gas.toxins > MINIMUM_HEAT_CAPACITY {
            let temperature_scale: i64 = self.temperature_scale();
            if temperature_scale > 0 {
                let oxygen_burn_rate: i64 = OXYGEN_BURN_RATE_BASE - temperature_scale;
                let plasma_burn_rate: i64 = self.burn_rate(temperature_scale);
                if plasma_burn_rate > MINIMUM_HEAT_CAPACITY {
                    self.gas.toxins = saturate(self.gas.toxins as i128 - plasma_burn_rate as i128);
                    self.gas.oxygen = saturate(
                        self.gas.oxygen as i128 - multiply(plasma_burn_rate, oxygen_burn_rate)
                            as i128,
                    );
                    self.gas.carbon_dioxide = saturate(
                        self.gas.carbon_dioxide as i128 + plasma_burn_rate as i128,
                    );
                    self.fuel_burnt = saturate(
                        self.fuel_burnt as i128 + multiply(
                            plasma_burn_rate,
                            oxygen_burn_rate + SCALE,
                        ) as i128,
                    );
                    let new_heat_capacity: i64 = self.heat_capacity();
                    proof {
                        lemma_product_bound(
                            FIRE_PLASMA_ENERGY_RELEASED as int,
                            plasma_burn_rate as int,
                            3_000_000_000_000,
                            1_000_000_000_000_000,
                        );
                    }
                    self.temperature = rebalance(
                        old_heat_capacity,
                        self.temperature,
                        0,
                        product(FIRE_PLASMA_ENERGY_RELEASED, plasma_burn_rate),
                        new_heat_capacity,
                    );
                }
            }
        }
        self.fuel_burnt
    }

    /// One reaction step of the mixture, run once a tick after the exchange
    /// with its neighbours: first the trace reaction of agent B, then, above
    /// the temperature at which a fire can exist, the burning of toxins.
    /// Returns whether either of them took place.
    pub fn react(&mut self) -> (reacting: bool)
        requires
            old(self).wf(),
        ensures
            final(self).wf(),
            *final(self) == old(self).spec_react(),
            reacting == old(self).spec_reacted(),
    {
        let mut reacting: bool = false;
        if self.gas.agent_b != 0 && self.temperature > TRACE_REACTION_TEMPERATURE
            && self.gas.toxins > MINIMUM_HEAT_CAPACITY && self.gas.carbon_dioxide
            > MINIMUM_HEAT_CAPACITY {
            self.trace_reaction();
            reacting = true;
        }
        self.fuel_burnt = 0;
        if self.temperature > FIRE_MINIMUM_TEMPERATURE_TO_EXIST {
            let burnt: i64 = self.fire();
            if burnt > 0 {
                reacting = true;
            }
        }
        reacting
    }
}

} // verus!
