//! Exchange of gas and heat between two mixtures.
use crate::constants::{
    MINIMUM_HEAT_CAPACITY, MINIMUM_MOLES_DELTA_TO_MOVE, MINIMUM_TEMPERATURE_DELTA_TO_CONSIDER,
    MINIMUM_TEMPERATURE_TO_MOVE, OPEN_HEAT_TRANSFER_COEFFICIENT, R_IDEAL_GAS_EQUATION,
    SPECIFIC_HEAT_AGENT_B, SPECIFIC_HEAT_AIR, SPECIFIC_HEAT_CDO, SPECIFIC_HEAT_N2O,
    SPECIFIC_HEAT_TOXIN,
};
use crate::fixed::{
    clamp, divide, fx_mul, in_range, lemma_product_bound, lemma_range_product, magnitude, product,
    quantize, quantized, quot, saturate, times, LIMIT, SCALE,
};
use crate::gas::{absolute, Composition, GasMixture};
use vstd::prelude::*;

verus! {

/// What is left of `x` above zero.
pub open spec fn positive_part(x: int) -> int {
    if x > 0 {
        x
    } else {
        0
    }
}

/// How far `x` lies below zero.
pub open spec fn negative_part(x: int) -> int {
    if x < 0 {
        -x
    } else {
        0
    }
}

/// The amount that flows to a neighbour which archived `theirs` from a
/// mixture that archived `mine`: the difference rounded to the quantum, then
/// split between the neighbours and the mixture itself.
pub open spec fn share_delta(mine: i64, theirs: i64, adjacent_turfs: u32) -> i64 {
    quot(quantized(mine - theirs) as int, adjacent_turfs + 1)
}

/// Heat that conduction moves between two bodies, in joules times a million:
/// the coefficient times the temperature difference times the harmonic mean
/// share of the two heat capacities.
pub open spec fn conduction_flow(
    coefficient: i64,
    delta_temperature: int,
    first_capacity: i64,
    second_capacity: i64,
) -> int {
    fx_mul(clamp(coefficient as int) as int, delta_temperature) * quot(
        first_capacity * second_capacity,
        first_capacity + second_capacity,
    )
}

/// Temperature of a body once heat has left it and arrived with the gas that
/// moved: what it held, less what left, plus what arrived, over its new heat
/// capacity.  A body left with a negligible heat capacity keeps its
/// temperature.
#[verifier::opaque]
pub open spec fn rebalanced_temperature(
    capacity: i64,
    temperature: i64,
    leaving: int,
    arriving: int,
    new_capacity: int,
) -> i64 {
    if new_capacity > MINIMUM_HEAT_CAPACITY {
        quot(capacity * temperature - leaving + arriving, new_capacity)
    } else {
        temperature
    }
}

/// The pressure difference between a body of `first_moles` at
/// `first_temperature` and one of `second_moles` at `second_temperature`, by
/// the ideal gas law in the volume of the first.
#[verifier::opaque]
pub open spec fn pressure_between(
    first_temperature: i64,
    first_moles: int,
    second_temperature: i64,
    second_moles: int,
    volume: i64,
) -> i64 {
    quot(
        (first_temperature * first_moles - second_temperature * second_moles)
            * R_IDEAL_GAS_EQUATION,
        volume * SCALE,
    )
}

impl Composition {
    /// The amounts that flow from a mixture that archived `self` to one that
    /// archived `other`.
    pub open spec fn spec_exchange_deltas(self, other: Composition, adjacent_turfs: u32)
        -> Composition {
        Composition {
            oxygen: share_delta(self.oxygen, other.oxygen, adjacent_turfs),
            carbon_dioxide: share_delta(self.carbon_dioxide, other.carbon_dioxide, adjacent_turfs),
            nitrogen: share_delta(self.nitrogen, other.nitrogen, adjacent_turfs),
            toxins: share_delta(self.toxins, other.toxins, adjacent_turfs),
            sleeping_agent: share_delta(self.sleeping_agent, other.sleeping_agent, adjacent_turfs),
            agent_b: share_delta(self.agent_b, other.agent_b, adjacent_turfs),
        }
    }

    /// Heat capacity that the amounts flowing forwards carry with them,
    /// oxygen and nitrogen counted together as air.
    pub open spec fn spec_carried_forward(self) -> int {
        positive_part(SPECIFIC_HEAT_AIR * (self.oxygen + self.nitrogen)) + positive_part(
            SPECIFIC_HEAT_CDO * self.carbon_dioxide,
        ) + positive_part(SPECIFIC_HEAT_TOXIN * self.toxins) + positive_part(
            SPECIFIC_HEAT_N2O * self.sleeping_agent,
        ) + positive_part(SPECIFIC_HEAT_AGENT_B * self.agent_b)
    }

    /// Heat capacity that the amounts flowing backwards carry with them.
    pub open spec fn spec_carried_back(self) -> int {
        negative_part(SPECIFIC_HEAT_AIR * (self.oxygen + self.nitrogen)) + negative_part(
            SPECIFIC_HEAT_CDO * self.carbon_dioxide,
        ) + negative_part(SPECIFIC_HEAT_TOXIN * self.toxins) + negative_part(
            SPECIFIC_HEAT_N2O * self.sleeping_agent,
        ) + negative_part(SPECIFIC_HEAT_AGENT_B * self.agent_b)
    }

    /// The amounts that flow from a mixture that archived `self` to one that
    /// archived `other`.
    pub fn exchange_deltas(&self, other: &Composition, adjacent_turfs: u32) -> (r: Composition)
        requires
            self.wf(),
            other.wf(),
        ensures
            r == self.spec_exchange_deltas(*other, adjacent_turfs),
            r.wf(),
    {
        let parts: i128 = adjacent_turfs as i128 + 1;
        Composition {
            oxygen: divide(quantize(self.oxygen - other.oxygen) as i128, parts),
            carbon_dioxide: divide(
                quantize(self.carbon_dioxide - other.carbon_dioxide) as i128,
                parts,
            ),
            nitrogen: divide(quantize(self.nitrogen - other.nitrogen) as i128, parts),
            toxins: divide(quantize(self.toxins - other.toxins) as i128, parts),
            sleeping_agent: divide(
                quantize(self.sleeping_agent - other.sleeping_agent) as i128,
                parts,
            ),
            agent_b: divide(quantize(self.agent_b - other.agent_b) as i128, parts),
        }
    }

    /// Heat capacity carried by the amounts that flow forwards.
    pub fn carried_forward(&self) -> (r: i64)
        requires
            self.wf(),
        ensures
            r == self.spec_carried_forward(),
            0 <= r <= 610_000_000_000_000_000,
    {
        let air: i64 = SPECIFIC_HEAT_AIR * (self.oxygen + self.nitrogen);
        let carbon_dioxide: i64 = SPECIFIC_HEAT_CDO * self.carbon_dioxide;
        let toxins: i64 = SPECIFIC_HEAT_TOXIN * self.toxins;
        let sleeping_agent: i64 = SPECIFIC_HEAT_N2O * self.sleeping_agent;
        let agent_b: i64 = SPECIFIC_HEAT_AGENT_B * self.agent_b;
        above_zero(air) + above_zero(carbon_dioxide) + above_zero(toxins) + above_zero(
            sleeping_agent,
        ) + above_zero(agent_b)
    }

    /// Heat capacity carried by the amounts that flow backwards.
    pub fn carried_back(&self) -> (r: i64)
        requires
            self.wf(),
        ensures
            r == self.spec_carried_back(),
            0 <= r <= 610_000_000_000_000_000,
    {
        let air: i64 = SPECIFIC_HEAT_AIR * (self.oxygen + self.nitrogen);
        let carbon_dioxide: i64 = SPECIFIC_HEAT_CDO * self.carbon_dioxide;
        let toxins: i64 = SPECIFIC_HEAT_TOXIN * self.toxins;
        let sleeping_agent: i64 = SPECIFIC_HEAT_N2O * self.sleeping_agent;
        let agent_b: i64 = SPECIFIC_HEAT_AGENT_B * self.agent_b;
        above_zero(-air) + above_zero(-carbon_dioxide) + above_zero(-toxins) + above_zero(
            -sleeping_agent,
        ) + above_zero(-agent_b)
    }
}

/// What is left of `x` above zero.
fn above_zero(x: i64) -> (r: i64)
    ensures
        r == positive_part(x as int),
        r == negative_part(-x),
{
    if x > 0 {
        x
    } else {
        0
    }
}

/// Heat that conduction moves between two bodies of the given heat capacities.
pub fn conducted(
    coefficient: i64,
    delta_temperature: i64,
    first_capacity: i64,
    second_capacity: i64,
) -> (r: i128)
    requires
        -2 * LIMIT <= delta_temperature <= 2 * LIMIT,
        in_range(first_capacity as int),
        in_range(second_capacity as int),
    ensures
        r == conduction_flow(
            coefficient,
            delta_temperature as int,
            first_capacity,
            second_capacity,
        ),
        -1_000_000_000_000_000_000_000_000_000_000 <= r
            <= 1_000_000_000_000_000_000_000_000_000_000,
{
    let driven: i64 = divide(
        product(saturate(coefficient as i128), delta_temperature),
        SCALE as i128,
    );
    let shared_capacity: i64 = divide(
        product(first_capacity, second_capacity),
        first_capacity as i128 + second_capacity as i128,
    );
    proof {
        lemma_range_product(driven as int, shared_capacity as int);
    }
    product(driven, shared_capacity)
}

/// Temperature of a body once heat has left it and arrived with moved gas.
pub fn rebalance(
    capacity: i64,
    temperature: i64,
    leaving: i128,
    arriving: i128,
    new_capacity: i64,
) -> (r: i64)
    requires
        in_range(capacity as int),
        in_range(temperature as int),
        -1_000_000_000_000_000_000_000_000_000_000_000 <= leaving
            <= 1_000_000_000_000_000_000_000_000_000_000_000,
        -1_000_000_000_000_000_000_000_000_000_000_000 <= arriving
            <= 1_000_000_000_000_000_000_000_000_000_000_000,
    ensures
        r == rebalanced_temperature(
            capacity,
            temperature,
            leaving as int,
            arriving as int,
            new_capacity as int,
        ),
        in_range(r as int),
{
    proof {
        reveal(rebalanced_temperature);
    }
    if new_capacity > MINIMUM_HEAT_CAPACITY {
        proof {
            lemma_range_product(capacity as int, temperature as int);
        }
        divide(product(capacity, temperature) - leaving + arriving, new_capacity as i128)
    } else {
        temperature
    }
}

/// The pressure difference between two bodies, in the volume of the first.
pub fn pressure_difference(
    first_temperature: i64,
    first_moles: i64,
    second_temperature: i64,
    second_moles: i64,
    volume: i64,
) -> (r: i64)
    requires
        in_range(first_temperature as int),
        in_range(second_temperature as int),
        -7 * LIMIT <= first_moles <= 7 * LIMIT,
        -7 * LIMIT <= second_moles <= 7 * LIMIT,
    ensures
        r == pressure_between(
            first_temperature,
            first_moles as int,
            second_temperature,
            second_moles as int,
            volume,
        ),
        in_range(r as int),
{
    proof {
        reveal(pressure_between);
        lemma_product_bound(
            first_temperature as int,
            first_moles as int,
            1_000_000_000_000_000,
            7_000_000_000_000_000,
        );
        lemma_product_bound(
            second_temperature as int,
            second_moles as int,
            1_000_000_000_000_000,
            7_000_000_000_000_000,
        );
    }
    let delta_pressure: i128 = product(first_temperature, first_moles) - product(
        second_temperature,
        second_moles,
    );
    divide(times(delta_pressure, R_IDEAL_GAS_EQUATION), product(volume, SCALE))
}

impl GasMixture {
    /// Both mixtures archived the same gases at the same temperature.
    pub open spec fn archives_agree(self, other: GasMixture) -> bool {
        self.archived == other.archived && self.temperature_archived == other.temperature_archived
    }

    /// `self` differs from `before` at most in the gases it holds, in its
    /// temperature and in the amount noted for its last exchange.
    pub open spec fn exchanged_from(self, before: GasMixture) -> bool {
        &&& self.archived == before.archived
        &&& self.temperature_archived == before.temperature_archived
        &&& self.volume == before.volume
        &&& self.fuel_burnt == before.fuel_burnt
        &&& self.is_initialized == before.is_initialized
    }

    /// Whether conduction between the two would move heat at all.
    pub open spec fn conducts_with(self, sharer: GasMixture) -> bool {
        &&& magnitude(self.temperature_archived - sharer.temperature_archived)
            > MINIMUM_TEMPERATURE_DELTA_TO_CONSIDER
        &&& sharer.spec_heat_capacity_archived() > MINIMUM_HEAT_CAPACITY
        &&& self.spec_heat_capacity_archived() > MINIMUM_HEAT_CAPACITY
    }

    /// The heat that conduction moves from `self` to `sharer`.
    pub open spec fn spec_conduction(self, sharer: GasMixture, coefficient: i64) -> int {
        conduction_flow(
            coefficient,
            self.temperature_archived - sharer.temperature_archived,
            self.spec_heat_capacity_archived(),
            sharer.spec_heat_capacity_archived(),
        )
    }

    /// The two mixtures after conduction between them.
    #[verifier::opaque]
    pub open spec fn spec_temperature_share(self, sharer: GasMixture, coefficient: i64) -> (
        GasMixture,
        GasMixture,
    ) {
        if self.conducts_with(sharer) {
            let heat = self.spec_conduction(sharer, coefficient);
            (
                GasMixture {
                    temperature: clamp(
                        self.temperature - quot(heat, self.spec_heat_capacity_archived() as int),
                    ),
                    ..self
                },
                GasMixture {
                    temperature: clamp(
                        sharer.temperature + quot(
                            heat,
                            sharer.spec_heat_capacity_archived() as int,
                        ),
                    ),
                    ..sharer
                },
            )
        } else {
            (self, sharer)
        }
    }

    /// The amounts that `share` moves from `self` to `sharer`.
    pub open spec fn spec_share_deltas(self, sharer: GasMixture, adjacent_turfs: u32)
        -> Composition {
        self.archived.spec_exchange_deltas(sharer.archived, adjacent_turfs)
    }

    /// Whether the archived temperature differs enough from another for heat
    /// to follow the gas.
    pub open spec fn warmer_or_colder(self, other_temperature: i64) -> bool {
        magnitude(self.temperature_archived - other_temperature)
            > MINIMUM_TEMPERATURE_DELTA_TO_CONSIDER
    }

    /// The two mixtures once `deltas` have moved from `self` to `sharer`,
    /// before any heat does.
    #[verifier::opaque]
    pub open spec fn spec_share_moved(self, sharer: GasMixture, deltas: Composition) -> (
        GasMixture,
        GasMixture,
    ) {
        (
            GasMixture {
                gas: self.gas.spec_minus(deltas),
                last_share: clamp(deltas.spec_abs_total()),
                ..self
            },
            GasMixture { gas: sharer.gas.spec_plus(deltas), ..sharer },
        )
    }

    /// Whether an exchange changed a heat capacity by less than a tenth, so
    /// that conduction through open air follows.
    pub open spec fn barely_changed(before: i64, after: int) -> bool {
        &&& after > MINIMUM_HEAT_CAPACITY
        &&& magnitude(before as int) > MINIMUM_HEAT_CAPACITY
        &&& 10 * magnitude(after - before) < magnitude(before as int)
    }

    /// The two mixtures once the heat has followed the gas.  `self` and
    /// `sharer` have exchanged `deltas` already; `capacity` and
    /// `sharer_capacity` are the heat capacities they had before.
    #[verifier::opaque]
    pub open spec fn spec_share_heated(
        self,
        sharer: GasMixture,
        deltas: Composition,
        capacity: i64,
        sharer_capacity: i64,
    ) -> (GasMixture, GasMixture) {
        let leaving = deltas.spec_carried_forward() * self.temperature_archived;
        let arriving = deltas.spec_carried_back() * sharer.temperature_archived;
        let new_capacity = capacity + deltas.spec_carried_back() - deltas.spec_carried_forward();
        let new_sharer_capacity = sharer_capacity + deltas.spec_carried_forward()
            - deltas.spec_carried_back();
        let first = GasMixture {
            temperature: rebalanced_temperature(
                capacity,
                self.temperature,
                leaving,
                arriving,
                new_capacity,
            ),
            ..self
        };
        let second = GasMixture {
            temperature: rebalanced_temperature(
                sharer_capacity,
                sharer.temperature,
                arriving,
                leaving,
                new_sharer_capacity,
            ),
            ..sharer
        };
        if GasMixture::barely_changed(sharer_capacity, new_sharer_capacity) {
            first.spec_temperature_share(second, OPEN_HEAT_TRANSFER_COEFFICIENT)
        } else {
            (first, second)
        }
    }

    /// The two mixtures after `share`.
    pub open spec fn spec_share(self, sharer: GasMixture, adjacent_turfs: u32) -> (
        GasMixture,
        GasMixture,
    ) {
        if !sharer.is_initialized || self.archives_agree(sharer) {
            (self, sharer)
        } else {
            let deltas = self.spec_share_deltas(sharer, adjacent_turfs);
            let moved = self.spec_share_moved(sharer, deltas);
            if self.warmer_or_colder(sharer.temperature_archived) {
                moved.0.spec_share_heated(
                    moved.1,
                    deltas,
                    self.spec_heat_capacity(),
                    sharer.spec_heat_capacity(),
                )
            } else {
                moved
            }
        }
    }

    /// Whether an exchange that moved `moved` moles in all is reported as a
    /// pressure difference.
    pub open spec fn moves_air(self, other_temperature: i64, moved: int) -> bool {
        self.temperature_archived - other_temperature > MINIMUM_TEMPERATURE_TO_MOVE || magnitude(
            moved,
        ) > MINIMUM_MOLES_DELTA_TO_MOVE
    }

    /// The pressure difference that `share` reports.
    pub open spec fn spec_share_pressure(self, sharer: GasMixture, adjacent_turfs: u32) -> i64 {
        let moved = self.spec_share_deltas(sharer, adjacent_turfs).spec_total();
        let after = self.spec_share(sharer, adjacent_turfs);
        if !sharer.is_initialized || self.archives_agree(sharer) || !self.moves_air(
            sharer.temperature_archived,
            moved,
        ) {
            0
        } else {
            pressure_between(
                self.temperature_archived,
                after.0.spec_total_moles() + moved,
                sharer.temperature_archived,
                after.1.spec_total_moles() - moved,
                self.volume,
            )
        }
    }

    /// Conduction between two mixtures, with no gas moved: heat flows from
    /// the one that archived the higher temperature, in proportion to
    /// `conduction_coefficient`, the archived temperature difference and the
    /// harmonic mean share of the archived heat capacities.  Nothing happens
    /// where the difference is at most half a kelvin or a heat capacity is
    /// negligible.
    pub fn temperature_share(&mut self, sharer: &mut GasMixture, conduction_coefficient: i64)
        requires
            old(self).wf(),
            old(sharer).wf(),
        ensures
            final(self).wf(),
            final(sharer).wf(),
            (*final(self), *final(sharer)) == old(self).spec_temperature_share(
                *old(sharer),
                conduction_coefficient,
            ),
            final(self).exchanged_from(*old(self)),
            final(sharer).exchanged_from(*old(sharer)),
            final(self).gas == old(self).gas,
            final(sharer).gas == old(sharer).gas,
            final(self).last_share == old(self).last_share,
            final(sharer).last_share == old(sharer).last_share,
    {
        proof {
            reveal(GasMixture::spec_temperature_share);
        }
        let delta_temperature: i64 = self.temperature_archived - sharer.temperature_archived;
        if absolute(delta_temperature) > MINIMUM_TEMPERATURE_DELTA_TO_CONSIDER {
            let self_heat_capacity: i64 = self.get_heat_capacity_archived();
            let sharer_heat_capacity: i64 = sharer.get_heat_capacity_archived();
            if sharer_heat_capacity > MINIMUM_HEAT_CAPACITY && self_heat_capacity
                > MINIMUM_HEAT_CAPACITY {
                let heat: i128 = conducted(
                    conduction_coefficient,
                    delta_temperature,
                    self_heat_capacity,
                    sharer_heat_capacity,
                );
                let cooled: i64 = divide(heat, self_heat_capacity as i128);
                let warmed: i64 = divide(heat, sharer_heat_capacity as i128);
                self.temperature = saturate(self.temperature as i128 - cooled as i128);
                sharer.temperature = saturate(sharer.temperature as i128 + warmed as i128);
            }
        }
    }

    /// Moves `deltas` from `self` to `sharer` and notes how much moved.
    fn share_gas(&mut self, sharer: &mut GasMixture, deltas: &Composition)
        requires
            old(self).wf(),
            old(sharer).wf(),
            deltas.wf(),
        ensures
            final(self).wf(),
            final(sharer).wf(),
            (*final(self), *final(sharer)) == old(self).spec_share_moved(*old(sharer), *deltas),
            final(self).exchanged_from(*old(self)),
            final(sharer).exchanged_from(*old(sharer)),
            final(self).temperature == old(self).temperature,
            final(sharer).temperature == old(sharer).temperature,
            final(sharer).last_share == old(sharer).last_share,
    {
        proof {
            reveal(GasMixture::spec_share_moved);
        }
        self.gas = self.gas.minus(deltas);
        sharer.gas = sharer.gas.plus(deltas);
        self.last_share = saturate(deltas.abs_total() as i128);
    }

    /// Lets the heat follow the gas that `share_gas` moved.
    fn share_heat(
        &mut self,
        sharer: &mut GasMixture,
        deltas: &Composition,
        capacity: i64,
        sharer_capacity: i64,
    )
        requires
            old(self).wf(),
            old(sharer).wf(),
            deltas.wf(),
            in_range(capacity as int),
            in_range(sharer_capacity as int),
        ensures
            final(self).wf(),
            final(sharer).wf(),
            (*final(self), *final(sharer)) == old(self).spec_share_heated(
                *old(sharer),
                *deltas,
                capacity,
                sharer_capacity,
            ),
            final(self).exchanged_from(*old(self)),
            final(sharer).exchanged_from(*old(sharer)),
            final(self).gas == old(self).gas,
            final(sharer).gas == old(sharer).gas,
            final(self).last_share == old(self).last_share,
            final(sharer).last_share == old(sharer).last_share,
    {
        proof {
            reveal(GasMixture::spec_share_heated);
        }
        let heat_capacity_self_to_sharer: i64 = deltas.carried_forward();
        let heat_capacity_sharer_to_self: i64 = deltas.carried_back();
        let new_self_heat_capacity: i64 = capacity + heat_capacity_sharer_to_self
            - heat_capacity_self_to_sharer;
        let new_sharer_heat_capacity: i64 = sharer_capacity + heat_capacity_self_to_sharer
            - heat_capacity_sharer_to_self;
        proof {
            lemma_product_bound(
                heat_capacity_self_to_sharer as int,
                self.temperature_archived as int,
                610_000_000_000_000_000,
                1_000_000_000_000_000,
            );
            lemma_product_bound(
                heat_capacity_sharer_to_self as int,
                sharer.temperature_archived as int,
                610_000_000_000_000_000,
                1_000_000_000_000_000,
            );
        }
        let leaving: i128 = product(heat_capacity_self_to_sharer, self.temperature_archived);
        let arriving: i128 = product(heat_capacity_sharer_to_self, sharer.temperature_archived);
        self.temperature = rebalance(
            capacity,
            self.temperature,
            leaving,
            arriving,
            new_self_heat_capacity,
        );
        sharer.temperature = rebalance(
            sharer_capacity,
            sharer.temperature,
            arriving,
            leaving,
            new_sharer_heat_capacity,
        );
        if new_sharer_heat_capacity > MINIMUM_HEAT_CAPACITY && absolute(sharer_capacity)
            > MINIMUM_HEAT_CAPACITY && 10 * absolute(new_sharer_heat_capacity - sharer_capacity)
            < absolute(sharer_capacity) {
            self.temperature_share(sharer, OPEN_HEAT_TRANSFER_COEFFICIENT);
        }
    }

    /// Diffusion between two neighbouring mixtures.  Of each gas, the
    /// archived difference, rounded to the quantum and divided by the number
    /// of neighbours plus one, moves from `self` to `sharer`.  Where the
    /// archived temperatures differ by more than half a kelvin the moved gas
    /// carries its heat along, and where that changed the sharer's heat
    /// capacity by less than a tenth, conduction through open air follows.
    /// Returns the pressure difference that the caller may turn into
    /// movement, or zero where neither the temperature difference nor the
    /// moved amount is large enough.  Two mixtures with equal archives, and
    /// a sharer that is not initialized, are left as they are.
    pub fn share(&mut self, sharer: &mut GasMixture, adjacent_turfs: u32) -> (r: i64)
        requires
            old(self).wf(),
            old(sharer).wf(),
        ensures
            final(self).wf(),
            final(sharer).wf(),
            (*final(self), *final(sharer)) == old(self).spec_share(*old(sharer), adjacent_turfs),
            r == old(self).spec_share_pressure(*old(sharer), adjacent_turfs),
            final(self).exchanged_from(*old(self)),
            final(sharer).exchanged_from(*old(sharer)),
            final(sharer).last_share == old(sharer).last_share,
            old(self).archives_agree(*old(sharer)) ==> r == 0 && *final(self) == *old(self)
                && *final(sharer) == *old(sharer),
    {
        if !sharer.is_initialized {
            return 0;
        }
        let temperature_archived: i64 = self.temperature_archived;
        let sharer_temperature_archived: i64 = sharer.temperature_archived;
        if self.archived == sharer.archived && temperature_archived
            == sharer_temperature_archived {
            return 0;
        }
        let deltas: Composition = self.archived.exchange_deltas(&sharer.archived, adjacent_turfs);
        let delta_temperature: i64 = temperature_archived - sharer_temperature_archived;
        let old_self_heat_capacity: i64 = self.heat_capacity();
        let old_sharer_heat_capacity: i64 = sharer.heat_capacity();
        self.share_gas(sharer, &deltas);
        let moved_moles: i64 = deltas.total();
        if absolute(delta_temperature) > MINIMUM_TEMPERATURE_DELTA_TO_CONSIDER {
            self.share_heat(sharer, &deltas, old_self_heat_capacity, old_sharer_heat_capacity);
        }
        assert((*self, *sharer) == old(self).spec_share(*old(sharer), adjacent_turfs));
        if delta_temperature > MINIMUM_TEMPERATURE_TO_MOVE || absolute(moved_moles)
            > MINIMUM_MOLES_DELTA_TO_MOVE {
            pressure_difference(
                temperature_archived,
                self.total_moles() + moved_moles,
                sharer_temperature_archived,
                sharer.total_moles() - moved_moles,
                self.volume,
            )
        } else {
            0
        }
    }
}

} // verus!
