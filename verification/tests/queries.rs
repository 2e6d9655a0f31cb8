use atmos::constants::{
    CELL_VOLUME, MOLES_CELLSTANDARD, MOLES_N2STANDARD, MOLES_O2STANDARD, ONE_ATMOSPHERE, T20C,
};
use atmos::fixed::{LIMIT, SCALE};
use atmos::gas::{absolute, calculate_heat_capacity, Composition, GasMixture, Turf};

fn standard_air() -> GasMixture {
    let mut air = GasMixture::vacant();
    air.gas.oxygen = MOLES_O2STANDARD;
    air.gas.nitrogen = MOLES_N2STANDARD;
    air.temperature = T20C;
    air.is_initialized = true;
    air
}

#[test]
fn vacant_mixture_holds_nothing() {
    let slot = GasMixture::vacant();
    assert_eq!(slot.gas, Composition::empty());
    assert_eq!(slot.archived, Composition::empty());
    assert_eq!(slot.temperature, 0);
    assert_eq!(slot.volume, CELL_VOLUME);
    assert_eq!(slot.volume, 2_500_000_000);
    assert!(!slot.is_initialized);
}

#[test]
fn heat_capacity_sums_moles_times_specific_heat() {
    let mut mixture = GasMixture::vacant();
    mixture.gas = Composition {
        oxygen: 1_000_000,
        carbon_dioxide: 2_000_000,
        nitrogen: 3_000_000,
        toxins: 4_000_000,
        sleeping_agent: 5_000_000,
        agent_b: 6_000_000,
    };
    // 2*30 + (1+3)*20 + 4*200 + 5*40 + 6*300 = 2940
    assert_eq!(mixture.heat_capacity(), 2_940_000_000);
    assert_eq!(mixture.get_heat_capacity_archived(), 0);
    mixture.archive();
    assert_eq!(mixture.get_heat_capacity_archived(), 2_940_000_000);
}

#[test]
fn heat_capacity_sticks_to_the_limit() {
    let mut mixture = GasMixture::vacant();
    mixture.gas.agent_b = LIMIT;
    assert_eq!(mixture.heat_capacity(), LIMIT);
}

#[test]
fn total_moles_sums_the_six_gases() {
    let mut mixture = GasMixture::vacant();
    mixture.gas = Composition {
        oxygen: 1,
        carbon_dioxide: 20,
        nitrogen: 300,
        toxins: 4_000,
        sleeping_agent: 50_000,
        agent_b: 600_000,
    };
    assert_eq!(mixture.total_moles(), 654_321);
    assert_eq!(mixture.get_total_trace_moles(), 650_000);
    assert_eq!(mixture.gas.total(), 654_321);
}

#[test]
fn standard_air_is_at_one_atmosphere() {
    let air = standard_air();
    assert_eq!(air.total_moles(), 103_983_804);
    assert_eq!(air.return_pressure(), 101_325_001);
    assert!((air.return_pressure() - ONE_ATMOSPHERE).abs() <= 1);
    assert!((air.total_moles() - MOLES_CELLSTANDARD).abs() <= 1);
}

#[test]
fn pressure_is_zero_without_volume() {
    let mut air = standard_air();
    air.volume = 0;
    assert_eq!(air.return_pressure(), 0);
    air.volume = -5 * SCALE;
    assert_eq!(air.return_pressure(), 0);
}

#[test]
fn pressure_follows_the_ideal_gas_law() {
    let mut mixture = GasMixture::vacant();
    mixture.gas.oxygen = 100 * SCALE;
    mixture.temperature = 300 * SCALE;
    mixture.volume = 1000 * SCALE;
    // 100 * 8.31 * 300 / 1000 = 249.3
    assert_eq!(mixture.return_pressure(), 249_300_000);
    let moles = 100.0_f64;
    let expected = moles * 8.31 * 300.0 / 1000.0;
    assert!((mixture.return_pressure() as f64 / 1e6 - expected).abs() < 1e-6);
}

#[test]
fn return_volume_reads_a_negative_volume_as_zero() {
    let mut mixture = GasMixture::vacant();
    assert_eq!(mixture.return_volume(), 2_500_000_000);
    mixture.volume = -1;
    assert_eq!(mixture.return_volume(), 0);
    mixture.volume = 0;
    assert_eq!(mixture.return_volume(), 0);
}

#[test]
fn thermal_energy_is_temperature_times_heat_capacity() {
    let air = standard_air();
    assert_eq!(air.heat_capacity(), 2_079_676_080);
    assert_eq!(air.thermal_energy(), 609_657_042_852);
    let mut hot = GasMixture::vacant();
    hot.gas.agent_b = LIMIT;
    hot.temperature = LIMIT;
    assert_eq!(hot.thermal_energy(), 1_000_000_000_000_000_000_000_000);
}

#[test]
fn breath_pressures_are_inverse_to_each_other() {
    let air = standard_air();
    let partial = air.get_breath_partial_pressure(5 * SCALE);
    // 5 * 8.31 * 293.15 / 1
    assert_eq!(partial, 12_180_382_500);
    assert_eq!(air.get_true_breath_pressure(12_180_382), 5_000);
    assert_eq!(air.get_true_breath_pressure(partial), 5 * SCALE);
}

#[test]
fn true_breath_pressure_at_zero_kelvin_sticks_to_the_limit() {
    let mut cold = standard_air();
    cold.temperature = 0;
    assert_eq!(cold.get_true_breath_pressure(SCALE), LIMIT);
    assert_eq!(cold.get_true_breath_pressure(-SCALE), -LIMIT);
    assert_eq!(cold.get_true_breath_pressure(0), 0);
}

#[test]
fn composition_arithmetic_clamps() {
    let mut full = Composition::empty();
    full.oxygen = LIMIT;
    full.toxins = -LIMIT;
    let mut delta = Composition::empty();
    delta.oxygen = 5;
    delta.toxins = -7;
    delta.nitrogen = 3;
    let more = full.plus(&delta);
    assert_eq!(more.oxygen, LIMIT);
    assert_eq!(more.toxins, -LIMIT);
    assert_eq!(more.nitrogen, 3);
    let less = full.minus(&delta);
    assert_eq!(less.oxygen, LIMIT - 5);
    assert_eq!(less.toxins, -LIMIT + 7);
    assert_eq!(less.nitrogen, -3);
    assert_eq!(delta.abs_total(), 15);
    assert_eq!(delta.heat(), 20 * 8 - 200 * 7);
}

#[test]
fn values_from_the_host_are_brought_into_range() {
    let wild = Turf {
        gas: Composition {
            oxygen: i64::MAX,
            carbon_dioxide: i64::MIN,
            nitrogen: 7,
            toxins: 0,
            sleeping_agent: LIMIT + 1,
            agent_b: -LIMIT - 1,
        },
        temperature: i64::MAX,
    };
    let tame = wild.clamped();
    assert_eq!(tame.gas.oxygen, LIMIT);
    assert_eq!(tame.gas.carbon_dioxide, -LIMIT);
    assert_eq!(tame.gas.nitrogen, 7);
    assert_eq!(tame.gas.sleeping_agent, LIMIT);
    assert_eq!(tame.gas.agent_b, -LIMIT);
    assert_eq!(tame.temperature, LIMIT);
    assert_eq!(absolute(-7), 7);
    assert_eq!(absolute(7), 7);
}

#[test]
fn calculate_heat_capacity_weighs_each_gas() {
    assert_eq!(calculate_heat_capacity(1, 0, 0, 0, 0, 0), 20);
    assert_eq!(calculate_heat_capacity(0, 1, 0, 0, 0, 0), 30);
    assert_eq!(calculate_heat_capacity(0, 0, 1, 0, 0, 0), 20);
    assert_eq!(calculate_heat_capacity(0, 0, 0, 1, 0, 0), 200);
    assert_eq!(calculate_heat_capacity(0, 0, 0, 0, 1, 0), 40);
    assert_eq!(calculate_heat_capacity(0, 0, 0, 0, 0, 1), 300);
    assert_eq!(calculate_heat_capacity(1, 2, 3, 4, 5, 6), 2_940);
    assert_eq!(calculate_heat_capacity(0, 0, 0, -1, 0, 0), -200);
    assert_eq!(calculate_heat_capacity(i64::MAX, i64::MAX, i64::MAX, 0, 0, 0), LIMIT);
    assert_eq!(calculate_heat_capacity(i64::MIN, i64::MIN, 0, 0, 0, i64::MIN), -LIMIT);
}

#[test]
fn true_breath_pressure_gives_every_amount_back_above_an_eighth_of_a_kelvin() {
    let mut air = standard_air();
    for temperature in [120_337, 1_000_000, T20C, 5_000 * SCALE] {
        air.temperature = temperature;
        for amount in [0, 1, 2, 3, 7, 999_999, 5 * SCALE, -3, -5 * SCALE, 12_345_678_901] {
            let partial = air.get_breath_partial_pressure(amount);
            assert_eq!(air.get_true_breath_pressure(partial), amount);
        }
    }
}

#[test]
fn true_breath_pressure_loses_small_amounts_near_zero_kelvin() {
    let mut cold = standard_air();
    cold.temperature = 100_000;
    // 8.31 * 0.1 is less than one: three millionths and two give the same
    // partial pressure.
    assert_eq!(cold.get_breath_partial_pressure(3), 2);
    assert_eq!(cold.get_breath_partial_pressure(2), 2);
    assert_eq!(cold.get_true_breath_pressure(2), 2);
}
