//! Physical constants of the simulation, in millionths of their units.
use crate::fixed::SCALE;
use vstd::prelude::*;

verus! {

/// Ideal gas constant: 8.31 kPa * L / (K * mol).
pub const R_IDEAL_GAS_EQUATION: i64 = 8_310_000;

/// One atmosphere: 101.325 kPa.
pub const ONE_ATMOSPHERE: i64 = 101_325_000;

/// Temperature of the cosmic background: 2.7 K.
pub const TCMB: i64 = 2_700_000;

/// 265 K.
pub const TCRYO: i64 = 265_000_000;

/// Zero degrees Celsius: 273.15 K.
pub const T0C: i64 = 273_150_000;

/// Twenty degrees Celsius: 293.15 K.
pub const T20C: i64 = 293_150_000;

/// Litres in a cell.
pub const CELL_VOLUME: i64 = 2_500_000_000;

/// Moles in a cell at one atmosphere and twenty degrees Celsius: 103.983803.
pub const MOLES_CELLSTANDARD: i64 = 103_983_803;

/// Share of oxygen in standard air.
pub const O2STANDARD: i64 = 210_000;

/// Share of nitrogen in standard air.
pub const N2STANDARD: i64 = 790_000;

/// Moles of oxygen in a cell of standard air.
pub const MOLES_O2STANDARD: i64 = 21_836_599;

/// Moles of nitrogen in a cell of standard air.
pub const MOLES_N2STANDARD: i64 = 82_147_205;

/// Litres in a breath.
pub const BREATH_VOLUME: i64 = 1_000_000;

/// Joules per kelvin and mole of oxygen and of nitrogen, a whole number.
pub const SPECIFIC_HEAT_AIR: i64 = 20;

/// Joules per kelvin and mole of carbon dioxide, a whole number.
pub const SPECIFIC_HEAT_CDO: i64 = 30;

/// Joules per kelvin and mole of toxins, a whole number.
pub const SPECIFIC_HEAT_TOXIN: i64 = 200;

/// Joules per kelvin and mole of sleeping agent, a whole number.
pub const SPECIFIC_HEAT_N2O: i64 = 40;

/// Joules per kelvin and mole of agent B, a whole number.
pub const SPECIFIC_HEAT_AGENT_B: i64 = 300;

/// Heat capacities and amounts at or below 0.0003 count as nothing.
pub const MINIMUM_HEAT_CAPACITY: i64 = 300;

/// Share of a cell's air that must move to keep a group active.
pub const MINIMUM_AIR_RATIO_TO_SUSPEND: i64 = 5_000;

/// Moles that must move to keep a group active.
pub const MINIMUM_AIR_TO_SUSPEND: i64 = 519_919;

/// Moles that must move before a pressure difference is reported.
pub const MINIMUM_MOLES_DELTA_TO_MOVE: i64 = 519_919;

/// Temperature difference above which a pressure difference is reported.
pub const MINIMUM_TEMPERATURE_TO_MOVE: i64 = T20C + 100 * SCALE;

/// Relative temperature difference that keeps a group active.
pub const MINIMUM_TEMPERATURE_RATIO_TO_SUSPEND: i64 = 12_000;

/// Temperature difference that keeps a group active: 4 K.
pub const MINIMUM_TEMPERATURE_DELTA_TO_SUSPEND: i64 = 4_000_000;

/// Temperature differences up to half a kelvin are not worth an exchange.
pub const MINIMUM_TEMPERATURE_DELTA_TO_CONSIDER: i64 = 500_000;

/// Coldest a fire can be: 373.15 K.
pub const FIRE_MINIMUM_TEMPERATURE_TO_EXIST: i64 = T0C + 100 * SCALE;

/// Coldest a fire spreads at: 423.15 K.
pub const FIRE_MINIMUM_TEMPERATURE_TO_SPREAD: i64 = T0C + 150 * SCALE;

/// Joules released per mole of toxins burnt.
pub const FIRE_PLASMA_ENERGY_RELEASED: i64 = 3_000_000_000_000;

/// Temperature above which the trace reaction of agent B runs: 900 K.
pub const TRACE_REACTION_TEMPERATURE: i64 = 900_000_000;

/// Joules released per mole converted by the trace reaction.
pub const TRACE_REACTION_ENERGY_RELEASED: i64 = 20_000_000_000;

/// Share of the carbon dioxide the trace reaction can convert in a step.
pub const TRACE_CARBON_DIOXIDE_SHARE: i64 = 750_000;

/// Share of the toxins that bounds the trace reaction in a step.
pub const TRACE_TOXINS_SHARE: i64 = 250_000;

/// Share of agent B that bounds the trace reaction, and that it uses up.
pub const TRACE_AGENT_B_SHARE: i64 = 50_000;

/// Temperature at which toxins start to burn: 373.15 K.
pub const PLASMA_MINIMUM_BURN_TEMPERATURE: i64 = T0C + 100 * SCALE;

/// Temperature from which toxins burn at full rate: 1643.15 K.
pub const PLASMA_UPPER_TEMPERATURE: i64 = T0C + 1370 * SCALE;

/// Moles of oxygen per mole of toxins above which the fuel limits the burn.
pub const PLASMA_OXYGEN_FULLBURN: i64 = 10_000_000;

/// Divisor of the burn rate.
pub const PLASMA_BURN_RATE_DELTA: i64 = 4_000_000;

/// Moles of oxygen used per mole of toxins at the lowest burn temperature.
pub const OXYGEN_BURN_RATE_BASE: i64 = 1_400_000;

/// Conduction coefficient of a floor.
pub const FLOOR_HEAT_TRANSFER_COEFFICIENT: i64 = 150_000;

/// Conduction coefficient of a wall.
pub const WALL_HEAT_TRANSFER_COEFFICIENT: i64 = 0;

/// Conduction coefficient of open air.
pub const OPEN_HEAT_TRANSFER_COEFFICIENT: i64 = 400_000;

/// Conduction coefficient of a window.
pub const WINDOW_HEAT_TRANSFER_COEFFICIENT: i64 = 100_000;

/// Heat capacity that stands for a vacuum.
pub const HEAT_CAPACITY_VACUUM: i64 = 700_000_000_000;

/// Number of neighbours assumed where the caller names none.
pub const DEFAULT_ATMOS_ADJACENT_TURFS: u32 = 4;

/// A coefficient brought into `0 ..= 1`.
pub fn clamp01(x: i64) -> (r: i64)
    ensures
        r == if x < 0 {
            0
        } else if x > SCALE {
            SCALE
        } else {
            x
        },
{
    if x < 0 {
        0
    } else if x > SCALE {
        SCALE
    } else {
        x
    }
}

} // verus!
