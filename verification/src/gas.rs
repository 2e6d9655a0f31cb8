//! The state of one gas mixture and the quantities derived from it.
use crate::constants::{
    BREATH_VOLUME, CELL_VOLUME, R_IDEAL_GAS_EQUATION, SPECIFIC_HEAT_AGENT_B, SPECIFIC_HEAT_AIR,
    SPECIFIC_HEAT_CDO, SPECIFIC_HEAT_N2O, SPECIFIC_HEAT_TOXIN,
};
use crate::fixed::{
    clamp, divide, in_range, lemma_range_product, magnitude, product, quot, round_div,
    round_divide, saturate, times, SCALE,
};
use vstd::prelude::*;

verus! {

/// Moles of each of the six gases.
#[derive(Clone, Copy, Debug, PartialEq, Eq, Structural)]
pub struct Composition {
    pub oxygen: i64,
    pub carbon_dioxide: i64,
    pub nitrogen: i64,
    pub toxins: i64,
    pub sleeping_agent: i64,
    pub agent_b: i64,
}

/// One gas mixture: what a cell holds now, what it held when the tick began,
/// and the bookkeeping of its last exchange and reaction.
#[derive(Clone, Copy, Debug, PartialEq, Eq, Structural)]
pub struct GasMixture {
    /// The gases in the mixture now.
    pub gas: Composition,
    /// The gases as archived at the start of the tick.
    pub archived: Composition,
    /// Kelvins now.
    pub temperature: i64,
    /// Kelvins as archived at the start of the tick.
    pub temperature_archived: i64,
    /// Litres.
    pub volume: i64,
    /// Sum of the absolute amounts moved by the last exchange.
    pub last_share: i64,
    /// Moles of fuel and oxidiser used up by the last reaction step.
    pub fuel_burnt: i64,
    /// Whether the slot holds a live mixture.
    pub is_initialized: bool,
}

/// What the host tells of a cell that the engine does not hold itself.
#[derive(Clone, Copy, Debug, PartialEq, Eq, Structural)]
pub struct Turf {
    pub gas: Composition,
    pub temperature: i64,
}

impl Composition {
    /// Every amount is a magnitude the engine stores.
    pub open spec fn wf(self) -> bool {
        &&& in_range(self.oxygen as int)
        &&& in_range(self.carbon_dioxide as int)
        &&& in_range(self.nitrogen as int)
        &&& in_range(self.toxins as int)
        &&& in_range(self.sleeping_agent as int)
        &&& in_range(self.agent_b as int)
    }

    /// No gas at all.
    pub open spec fn spec_empty() -> Composition {
        Composition {
            oxygen: 0,
            carbon_dioxide: 0,
            nitrogen: 0,
            toxins: 0,
            sleeping_agent: 0,
            agent_b: 0,
        }
    }

    /// The exact sum of the six amounts.
    pub open spec fn spec_total(self) -> int {
        self.oxygen + self.carbon_dioxide + self.nitrogen + self.toxins + self.sleeping_agent
            + self.agent_b
    }

    /// The exact sum of the six absolute amounts.
    pub open spec fn spec_abs_total(self) -> int {
        magnitude(self.oxygen as int) + magnitude(self.carbon_dioxide as int) + magnitude(
            self.nitrogen as int,
        ) + magnitude(self.toxins as int) + magnitude(self.sleeping_agent as int) + magnitude(
            self.agent_b as int,
        )
    }

    /// The exact heat capacity: each amount times the specific heat of its
    /// gas, oxygen and nitrogen sharing that of air.
    pub open spec fn spec_heat(self) -> int {
        SPECIFIC_HEAT_CDO * self.carbon_dioxide + SPECIFIC_HEAT_AIR * (self.oxygen
            + self.nitrogen) + SPECIFIC_HEAT_TOXIN * self.toxins + SPECIFIC_HEAT_N2O
            * self.sleeping_agent + SPECIFIC_HEAT_AGENT_B * self.agent_b
    }

    /// Each amount brought into range.
    pub open spec fn spec_clamped(self) -> Composition {
        Composition {
            oxygen: clamp(self.oxygen as int),
            carbon_dioxide: clamp(self.carbon_dioxide as int),
            nitrogen: clamp(self.nitrogen as int),
            toxins: clamp(self.toxins as int),
            sleeping_agent: clamp(self.sleeping_agent as int),
            agent_b: clamp(self.agent_b as int),
        }
    }

    /// Each amount increased by that of `delta`, clamped.
    pub open spec fn spec_plus(self, delta: Composition) -> Composition {
        Composition {
            oxygen: clamp(self.oxygen + delta.oxygen),
            carbon_dioxide: clamp(self.carbon_dioxide + delta.carbon_dioxide),
            nitrogen: clamp(self.nitrogen + delta.nitrogen),
            toxins: clamp(self.toxins + delta.toxins),
            sleeping_agent: clamp(self.sleeping_agent + delta.sleeping_agent),
            agent_b: clamp(self.agent_b + delta.agent_b),
        }
    }

    /// Each amount reduced by that of `delta`, clamped.
    pub open spec fn spec_minus(self, delta: Composition) -> Composition {
        Composition {
            oxygen: clamp(self.oxygen - delta.oxygen),
            carbon_dioxide: clamp(self.carbon_dioxide - delta.carbon_dioxide),
            nitrogen: clamp(self.nitrogen - delta.nitrogen),
            toxins: clamp(self.toxins - delta.toxins),
            sleeping_agent: clamp(self.sleeping_agent - delta.sleeping_agent),
            agent_b: clamp(self.agent_b - delta.agent_b),
        }
    }

    /// No gas at all.
    pub fn empty() -> (r: Composition)
        ensures
            r == Composition::spec_empty(),
            r.wf(),
    {
        Composition {
            oxygen: 0,
            carbon_dioxide: 0,
            nitrogen: 0,
            toxins: 0,
            sleeping_agent: 0,
            agent_b: 0,
        }
    }

    /// The sum of the six amounts.
    pub fn total(&self) -> (r: i64)
        requires
            self.wf(),
        ensures
            r == self.spec_total(),
    {
        self.oxygen + self.carbon_dioxide + self.nitrogen + self.toxins + self.sleeping_agent
            + self.agent_b
    }

    /// The sum of the six absolute amounts.
    pub fn abs_total(&self) -> (r: i64)
        requires
            self.wf(),
        ensures
            r == self.spec_abs_total(),
    {
        absolute(self.oxygen) + absolute(self.carbon_dioxide) + absolute(self.nitrogen) + absolute(
            self.toxins,
        ) + absolute(self.sleeping_agent) + absolute(self.agent_b)
    }

    /// The heat capacity of these amounts, not clamped.
    pub fn heat(&self) -> (r: i64)
        requires
            self.wf(),
        ensures
            r == self.spec_heat(),
    {
        SPECIFIC_HEAT_CDO * self.carbon_dioxide + SPECIFIC_HEAT_AIR * (self.oxygen
            + self.nitrogen) + SPECIFIC_HEAT_TOXIN * self.toxins + SPECIFIC_HEAT_N2O
            * self.sleeping_agent + SPECIFIC_HEAT_AGENT_B * self.agent_b
    }

    /// Each amount brought into range.
    pub fn clamped(&self) -> (r: Composition)
        ensures
            r == self.spec_clamped(),
            r.wf(),
    {
        Composition {
            oxygen: saturate(self.oxygen as i128),
            carbon_dioxide: saturate(self.carbon_dioxide as i128),
            nitrogen: saturate(self.nitrogen as i128),
            toxins: saturate(self.toxins as i128),
            sleeping_agent: saturate(self.sleeping_agent as i128),
            agent_b: saturate(self.agent_b as i128),
        }
    }

    /// Each amount increased by that of `delta`, clamped.
    pub fn plus(&self, delta: &Composition) -> (r: Composition)
        ensures
            r == self.spec_plus(*delta),
            r.wf(),
    {
        Composition {
            oxygen: saturate(self.oxygen as i128 + delta.oxygen as i128),
            carbon_dioxide: saturate(self.carbon_dioxide as i128 + delta.carbon_dioxide as i128),
            nitrogen: saturate(self.nitrogen as i128 + delta.nitrogen as i128),
            toxins: saturate(self.toxins as i128 + delta.toxins as i128),
            sleeping_agent: saturate(self.sleeping_agent as i128 + delta.sleeping_agent as i128),
            agent_b: saturate(self.agent_b as i128 + delta.agent_b as i128),
        }
    }

    /// Each amount reduced by that of `delta`, clamped.
    pub fn minus(&self, delta: &Composition) -> (r: Composition)
        ensures
            r == self.spec_minus(*delta),
            r.wf(),
    {
        Composition {
            oxygen: saturate(self.oxygen as i128 - delta.oxygen as i128),
            carbon_dioxide: saturate(self.carbon_dioxide as i128 - delta.carbon_dioxide as i128),
            nitrogen: saturate(self.nitrogen as i128 - delta.nitrogen as i128),
            toxins: saturate(self.toxins as i128 - delta.toxins as i128),
            sleeping_agent: saturate(self.sleeping_agent as i128 - delta.sleeping_agent as i128),
            agent_b: saturate(self.agent_b as i128 - delta.agent_b as i128),
        }
    }
}

/// Heat capacity of the given moles of the six gases: each amount times the
/// specific heat of its gas, oxygen and nitrogen sharing that of air.
pub fn calculate_heat_capacity(
    oxygen: i64,
    carbon_dioxide: i64,
    nitrogen: i64,
    toxins: i64,
    sleeping_agent: i64,
    agent_b: i64,
) -> (r: i64)
    ensures
        r == clamp(
            SPECIFIC_HEAT_CDO * carbon_dioxide + SPECIFIC_HEAT_AIR * (oxygen + nitrogen)
                + SPECIFIC_HEAT_TOXIN * toxins + SPECIFIC_HEAT_N2O * sleeping_agent
                + SPECIFIC_HEAT_AGENT_B * agent_b,
        ),
        in_range(r as int),
{
    saturate(
        product(SPECIFIC_HEAT_CDO, carbon_dioxide) + product(SPECIFIC_HEAT_AIR, oxygen) + product(
            SPECIFIC_HEAT_AIR,
            nitrogen,
        ) + product(SPECIFIC_HEAT_TOXIN, toxins) + product(SPECIFIC_HEAT_N2O, sleeping_agent)
            + product(SPECIFIC_HEAT_AGENT_B, agent_b),
    )
}

/// Absolute value of a quantity or of a sum of a few.
pub fn absolute(x: i64) -> (r: i64)
    requires
        x > i64::MIN,
    ensures
        r == magnitude(x as int),
{
    if x < 0 {
        -x
    } else {
        x
    }
}

impl Turf {
    /// Every value is a magnitude the engine stores.
    pub open spec fn wf(self) -> bool {
        self.gas.wf() && in_range(self.temperature as int)
    }

    /// Every value brought into range.
    pub open spec fn spec_clamped(self) -> Turf {
        Turf { gas: self.gas.spec_clamped(), temperature: clamp(self.temperature as int) }
    }

    /// Every value brought into range.
    pub fn clamped(&self) -> (r: Turf)
        ensures
            r == self.spec_clamped(),
            r.wf(),
    {
        Turf { gas: self.gas.clamped(), temperature: saturate(self.temperature as i128) }
    }
}

impl GasMixture {
    /// Every quantity is a magnitude the engine stores.
    pub open spec fn wf(self) -> bool {
        &&& self.gas.wf()
        &&& self.archived.wf()
        &&& in_range(self.temperature as int)
        &&& in_range(self.temperature_archived as int)
        &&& in_range(self.volume as int)
        &&& in_range(self.last_share as int)
        &&& in_range(self.fuel_burnt as int)
    }

    /// A slot that holds nothing: no gas, zero kelvins, a cell's volume, not
    /// initialized.
    pub open spec fn spec_vacant() -> GasMixture {
        GasMixture {
            gas: Composition::spec_empty(),
            archived: Composition::spec_empty(),
            temperature: 0,
            temperature_archived: 0,
            volume: CELL_VOLUME,
            last_share: 0,
            fuel_burnt: 0,
            is_initialized: false,
        }
    }

    /// Heat capacity of the gases held now.
    pub open spec fn spec_heat_capacity(self) -> i64 {
        clamp(self.gas.spec_heat())
    }

    /// Heat capacity of the archived gases.
    pub open spec fn spec_heat_capacity_archived(self) -> i64 {
        clamp(self.archived.spec_heat())
    }

    /// Moles of all gases held now.
    pub open spec fn spec_total_moles(self) -> i64 {
        clamp(self.gas.spec_total())
    }

    /// Moles of the two trace gases held now.
    pub open spec fn spec_total_trace_moles(self) -> i64 {
        clamp(self.gas.sleeping_agent + self.gas.agent_b)
    }

    /// Pressure by the ideal gas law, zero where there is no volume.
    pub open spec fn spec_return_pressure(self) -> i64 {
        if self.volume > 0 {
            quot(
                self.spec_total_moles() * self.temperature * R_IDEAL_GAS_EQUATION,
                self.volume * SCALE,
            )
        } else {
            0
        }
    }

    /// The volume, a negative one read as zero.
    pub open spec fn spec_return_volume(self) -> i64 {
        if self.volume > 0 {
            self.volume
        } else {
            0
        }
    }

    /// Temperature times heat capacity, rounded to the nearest millionth of
    /// a joule.
    pub open spec fn spec_thermal_energy(self) -> int {
        round_div(self.temperature * self.spec_heat_capacity(), SCALE as int)
    }

    /// Partial pressure in a breath of a gas of which the cell holds
    /// `gas_pressure`.
    pub open spec fn spec_breath_partial_pressure(self, gas_pressure: i64) -> i64 {
        quot(
            clamp(gas_pressure as int) * self.temperature * R_IDEAL_GAS_EQUATION,
            BREATH_VOLUME * SCALE,
        )
    }

    /// The amount in the cell that gives the partial pressure `breath_pp` in
    /// a breath.
    pub open spec fn spec_true_breath_pressure(self, breath_pp: i64) -> i64 {
        quot(
            clamp(breath_pp as int) * BREATH_VOLUME * SCALE,
            R_IDEAL_GAS_EQUATION * self.temperature,
        )
    }

    /// A slot that holds nothing.
    pub fn vacant() -> (r: GasMixture)
        ensures
            r == GasMixture::spec_vacant(),
            r.wf(),
    {
        GasMixture {
            gas: Composition::empty(),
            archived: Composition::empty(),
            temperature: 0,
            temperature_archived: 0,
            volume: CELL_VOLUME,
            last_share: 0,
            fuel_burnt: 0,
            is_initialized: false,
        }
    }

    /// Heat capacity of the gases held now: the sum over the gases of moles
    /// times specific heat.
    pub fn heat_capacity(&self) -> (r: i64)
        requires
            self.wf(),
        ensures
            r == self.spec_heat_capacity(),
            in_range(r as int),
    {
        calculate_heat_capacity(
            self.gas.oxygen,
            self.gas.carbon_dioxide,
            self.gas.nitrogen,
            self.gas.toxins,
            self.gas.sleeping_agent,
            self.gas.agent_b,
        )
    }

    /// Heat capacity of the archived gases.
    pub fn get_heat_capacity_archived(&self) -> (r: i64)
        requires
            self.wf(),
        ensures
            r == self.spec_heat_capacity_archived(),
            in_range(r as int),
    {
        calculate_heat_capacity(
            self.archived.oxygen,
            self.archived.carbon_dioxide,
            self.archived.nitrogen,
            self.archived.toxins,
            self.archived.sleeping_agent,
            self.archived.agent_b,
        )
    }

    /// Moles of all gases held now.
    pub fn total_moles(&self) -> (r: i64)
        requires
            self.wf(),
        ensures
            r == self.spec_total_moles(),
            in_range(r as int),
    {
        saturate(self.gas.total() as i128)
    }

    /// Moles of sleeping agent and agent B held now.
    pub fn get_total_trace_moles(&self) -> (r: i64)
        requires
            self.wf(),
        ensures
            r == self.spec_total_trace_moles(),
            in_range(r as int),
    {
        saturate(self.gas.sleeping_agent as i128 + self.gas.agent_b as i128)
    }

    /// Pressure by the ideal gas law: moles times the gas constant times
    /// temperature over volume, and zero where the volume is not positive.
    pub fn return_pressure(&self) -> (r: i64)
        requires
            self.wf(),
        ensures
            r == self.spec_return_pressure(),
            in_range(r as int),
    {
        if self.volume > 0 {
            let moles: i64 = self.total_moles();
            let moles_kelvins: i128 = product(moles, self.temperature);
            proof {
                lemma_range_product(moles as int, self.temperature as int);
            }
            divide(times(moles_kelvins, R_IDEAL_GAS_EQUATION), product(self.volume, SCALE))
        } else {
            0
        }
    }

    /// The volume, a negative one read as zero.
    pub fn return_volume(&self) -> (r: i64)
        ensures
            r == self.spec_return_volume(),
    {
        if self.volume > 0 {
            self.volume
        } else {
            0
        }
    }

    /// Thermal energy: temperature times heat capacity.
    pub fn thermal_energy(&self) -> (r: i128)
        requires
            self.wf(),
        ensures
            r == self.spec_thermal_energy(),
    {
        let capacity: i64 = self.heat_capacity();
        let joules: i128 = product(self.temperature, capacity);
        proof {
            lemma_range_product(self.temperature as int, capacity as int);
        }
        round_divide(joules, SCALE as i128)
    }

    /// Partial pressure in a breath: the amount times the gas constant times
    /// temperature over the volume of a breath.
    pub fn get_breath_partial_pressure(&self, gas_pressure: i64) -> (r: i64)
        requires
            self.wf(),
        ensures
            r == self.spec_breath_partial_pressure(gas_pressure),
            in_range(r as int),
    {
        let amount: i64 = saturate(gas_pressure as i128);
        let amount_kelvins: i128 = product(amount, self.temperature);
        proof {
            lemma_range_product(amount as int, self.temperature as int);
        }
        divide(times(amount_kelvins, R_IDEAL_GAS_EQUATION), product(BREATH_VOLUME, SCALE))
    }

    /// The inverse of `get_breath_partial_pressure`.
    pub fn get_true_breath_pressure(&self, breath_pp: i64) -> (r: i64)
        requires
            self.wf(),
        ensures
            r == self.spec_true_breath_pressure(breath_pp),
            in_range(r as int),
    {
        let pressure: i64 = saturate(breath_pp as i128);
        divide(
            times(product(pressure, BREATH_VOLUME), SCALE),
            product(R_IDEAL_GAS_EQUATION, self.temperature),
        )
    }
}

} // verus!
