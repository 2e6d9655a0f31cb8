use atmos::constants::{OPEN_HEAT_TRANSFER_COEFFICIENT, T20C};
use atmos::exchange::{conducted, pressure_difference, rebalance};
use atmos::fixed::{LIMIT, SCALE};
use atmos::gas::{Composition, GasMixture, Turf};

fn archived(temperature: i64, gas: Composition) -> GasMixture {
    let mut made = GasMixture::vacant();
    made.gas = gas;
    made.temperature = temperature;
    made.is_initialized = true;
    made.archive();
    made
}

fn air(oxygen: i64, nitrogen: i64) -> Composition {
    let mut gas = Composition::empty();
    gas.oxygen = oxygen;
    gas.nitrogen = nitrogen;
    gas
}

#[test]
fn share_moves_a_fifth_of_the_difference_between_four_neighbours() {
    let mut a = archived(300 * SCALE, air(20 * SCALE, 80 * SCALE));
    let mut b = archived(280 * SCALE, air(10 * SCALE, 40 * SCALE));
    let pressure = a.share(&mut b, 4);
    assert_eq!(a.gas, air(18 * SCALE, 72 * SCALE));
    assert_eq!(b.gas, air(12 * SCALE, 48 * SCALE));
    assert_eq!(a.last_share, 10 * SCALE);
    assert_eq!(b.last_share, 0);
    assert_eq!(a.temperature, 300 * SCALE);
    assert_eq!(b.temperature, 283_333_333);
    assert_eq!(pressure, 53_184_000);
    assert_eq!(a.archived, air(20 * SCALE, 80 * SCALE));
    assert_eq!(b.archived, air(10 * SCALE, 40 * SCALE));
    assert_eq!(a.temperature_archived, 300 * SCALE);
}

#[test]
fn share_conserves_moles() {
    let mut first = Composition::empty();
    first.oxygen = 200 * SCALE;
    first.toxins = 5 * SCALE;
    let mut second = air(22 * SCALE, 82 * SCALE);
    second.carbon_dioxide = SCALE;
    let mut a = archived(800 * SCALE, first);
    let mut b = archived(T20C, second);
    let before = a.total_moles() + b.total_moles();
    let pressure = a.share(&mut b, 1);
    assert_eq!(a.total_moles() + b.total_moles(), before);
    assert_eq!(a.gas.oxygen, 111 * SCALE);
    assert_eq!(b.gas.oxygen, 111 * SCALE);
    assert_eq!(a.gas.toxins, 2_500_000);
    assert_eq!(b.gas.carbon_dioxide, 500_000);
    assert_eq!(a.last_share, 133 * SCALE);
    assert_eq!(a.temperature, 797_861_392);
    assert_eq!(b.temperature, 501_307_806);
    assert_eq!(pressure, 442_820_787);
}

#[test]
fn share_conserves_moles_over_many_steps() {
    let mut first = Composition::empty();
    first.oxygen = 123_456_789;
    first.sleeping_agent = 3_333_333;
    first.agent_b = 77;
    let mut a = archived(350 * SCALE, first);
    let mut b = archived(250 * SCALE, air(5_000_001, 999_999));
    let before = a.gas.total() + b.gas.total();
    for step in 0..50u32 {
        a.archive();
        b.archive();
        let _ = a.share(&mut b, step % 5);
        assert_eq!(a.gas.total() + b.gas.total(), before);
    }
}

#[test]
fn share_of_equal_archives_does_nothing() {
    let mut a = archived(300 * SCALE, air(20 * SCALE, 80 * SCALE));
    let mut b = archived(300 * SCALE, air(20 * SCALE, 80 * SCALE));
    // What they hold now may differ: only the archives count.
    a.gas.oxygen = 5;
    a.temperature = 1;
    b.gas.toxins = 9;
    a.last_share = 42;
    let (old_a, old_b) = (a, b);
    assert_eq!(a.share(&mut b, 4), 0);
    assert_eq!(a, old_a);
    assert_eq!(b, old_b);
}

#[test]
fn share_with_a_mixture_that_is_not_initialized_does_nothing() {
    let mut a = archived(300 * SCALE, air(20 * SCALE, 80 * SCALE));
    let mut b = archived(280 * SCALE, air(10 * SCALE, 40 * SCALE));
    b.is_initialized = false;
    let (old_a, old_b) = (a, b);
    assert_eq!(a.share(&mut b, 4), 0);
    assert_eq!(a, old_a);
    assert_eq!(b, old_b);
}

#[test]
fn share_between_equal_gases_only_conducts() {
    let mut a = archived(300 * SCALE, air(20 * SCALE, 80 * SCALE));
    let mut b = archived(310 * SCALE, air(20 * SCALE, 80 * SCALE));
    let energy = a.thermal_energy() + b.thermal_energy();
    assert_eq!(a.share(&mut b, 4), 0);
    assert_eq!(a.gas, air(20 * SCALE, 80 * SCALE));
    assert_eq!(b.gas, air(20 * SCALE, 80 * SCALE));
    assert_eq!(a.temperature, 302 * SCALE);
    assert_eq!(b.temperature, 308 * SCALE);
    assert_eq!(a.last_share, 0);
    assert_eq!(a.thermal_energy() + b.thermal_energy(), energy);
}

#[test]
fn share_keeps_energy_within_rounding_when_no_gas_moves() {
    let mut first = air(20_000_049, 80 * SCALE);
    first.toxins = 1_234_567;
    let mut second = air(20 * SCALE, 80_000_049);
    second.toxins = 1_234_600;
    let mut a = archived(333_333_333, first);
    let mut b = archived(277_777_777, second);
    let before = a.thermal_energy() + b.thermal_energy();
    let slack = (a.heat_capacity() + b.heat_capacity()) as i128;
    assert_eq!(a.share(&mut b, 4), 0);
    assert_eq!(a.gas, first);
    assert_eq!(b.gas, second);
    assert!(a.temperature < 333_333_333);
    assert!(b.temperature > 277_777_777);
    let change = a.thermal_energy() + b.thermal_energy() - before;
    assert!(2 * 1_000_000 * change.abs() <= slack + 4_000_000);
    assert!(100_000 * change.abs() <= before);
}

#[test]
fn share_conserves_the_largest_modest_amounts() {
    let modest: i64 = 31_250_000_000_000;
    let mut first = air(modest, -modest);
    first.toxins = modest;
    first.agent_b = 1;
    let mut second = air(-modest, modest);
    second.toxins = -modest;
    second.sleeping_agent = modest;
    let mut a = archived(1000 * SCALE, first);
    let mut b = archived(200 * SCALE, second);
    let before = a.total_moles() + b.total_moles();
    let exact = a.gas.total() + b.gas.total();
    for neighbours in [0u32, 1, 4, u32::MAX] {
        let (mut x, mut y) = (a, b);
        let _ = x.share(&mut y, neighbours);
        assert_eq!(x.total_moles() + y.total_moles(), before);
        assert_eq!(x.gas.total() + y.gas.total(), exact);
    }
    let _ = a.share(&mut b, 0);
    assert_eq!(a.gas.oxygen, -modest);
    assert_eq!(b.gas.oxygen, modest);
}

#[test]
fn share_loses_gas_only_at_the_limit_of_what_is_stored() {
    let mut a = archived(300 * SCALE, air(LIMIT, 0));
    let mut b = archived(300 * SCALE, air(0, 0));
    // What the sharer holds now is at the limit already: what arrives is cut off.
    b.gas.oxygen = LIMIT;
    let before = a.gas.total() + b.gas.total();
    let _ = a.share(&mut b, 0);
    assert_eq!(a.gas.oxygen, 0);
    assert_eq!(b.gas.oxygen, LIMIT);
    assert!(a.gas.total() + b.gas.total() < before);
}

#[test]
fn temperature_share_moves_heat_by_the_harmonic_mean() {
    let mut hot_gas = Composition::empty();
    hot_gas.oxygen = 50 * SCALE;
    let mut cold_gas = Composition::empty();
    cold_gas.nitrogen = 100 * SCALE;
    cold_gas.carbon_dioxide = 10 * SCALE;
    let mut a = archived(400 * SCALE, hot_gas);
    let mut b = archived(300 * SCALE, cold_gas);
    a.temperature_share(&mut b, OPEN_HEAT_TRANSFER_COEFFICIENT);
    assert_eq!(a.temperature, 372_121_212);
    assert_eq!(b.temperature, 312_121_212);
    assert_eq!(a.gas, hot_gas);
    assert_eq!(b.gas, cold_gas);
    // 0.4 * 100 K * (1000 * 2300 / 3300) J/K
    let heat = 0.4_f64 * 100.0 * (1000.0 * 2300.0 / 3300.0);
    assert!((a.temperature as f64 / 1e6 - (400.0 - heat / 1000.0)).abs() < 1e-5);
    assert!((b.temperature as f64 / 1e6 - (300.0 + heat / 2300.0)).abs() < 1e-5);
    assert_eq!(
        conducted(OPEN_HEAT_TRANSFER_COEFFICIENT, 100 * SCALE, 1000 * SCALE, 2300 * SCALE),
        27_878_787_880_000_000
    );
}

#[test]
fn temperature_share_needs_a_difference_and_heat_capacities() {
    let mut gas = Composition::empty();
    gas.oxygen = 50 * SCALE;
    let mut a = archived(300_500_000, gas);
    let mut b = archived(300 * SCALE, gas);
    let (old_a, old_b) = (a, b);
    a.temperature_share(&mut b, OPEN_HEAT_TRANSFER_COEFFICIENT);
    assert_eq!(a, old_a);
    assert_eq!(b, old_b);
    let mut c = archived(400 * SCALE, gas);
    let mut thin_gas = Composition::empty();
    thin_gas.oxygen = 15;
    let mut thin = archived(300 * SCALE, thin_gas);
    let (old_c, old_thin) = (c, thin);
    c.temperature_share(&mut thin, OPEN_HEAT_TRANSFER_COEFFICIENT);
    assert_eq!(c, old_c);
    assert_eq!(thin, old_thin);
    // It goes by what was archived, not by what is there now.
    let mut d = archived(400 * SCALE, gas);
    let mut e = archived(400 * SCALE, gas);
    e.temperature = 100 * SCALE;
    let old_e = e;
    d.temperature_share(&mut e, OPEN_HEAT_TRANSFER_COEFFICIENT);
    assert_eq!(e, old_e);
    assert_eq!(d.temperature, 400 * SCALE);
}

#[test]
fn mimic_changes_only_the_mixture() {
    let mut a = archived(350 * SCALE, air(30 * SCALE, 90 * SCALE));
    let model = Turf { gas: air(20 * SCALE, 80 * SCALE), temperature: 300 * SCALE };
    let pressure = a.mimic(model, 400_000, 5000 * SCALE, 4);
    assert_eq!(a.gas, air(28 * SCALE, 88 * SCALE));
    assert_eq!(a.last_share, 4 * SCALE);
    assert_eq!(a.temperature, 336_338_798);
    assert_eq!(pressure, 39_888_000);
    assert_eq!(a.archived, air(30 * SCALE, 90 * SCALE));
    assert_eq!(a.temperature_archived, 350 * SCALE);
}

#[test]
fn mimic_of_a_like_model_moves_nothing() {
    let mut a = archived(300 * SCALE, air(20 * SCALE, 80 * SCALE));
    let model = Turf { gas: air(20 * SCALE, 80 * SCALE), temperature: 300_400_000 };
    let before = a;
    assert_eq!(a.mimic(model, 400_000, 5000 * SCALE, 4), 0);
    assert_eq!(a.gas, before.gas);
    assert_eq!(a.temperature, before.temperature);
    assert_eq!(a.last_share, 0);
}

#[test]
fn temperature_mimic_cools_towards_the_model() {
    let mut gas = Composition::empty();
    gas.oxygen = 50 * SCALE;
    let mut a = archived(400 * SCALE, gas);
    a.temperature_mimic(300 * SCALE, 10_000 * SCALE, 150_000);
    assert_eq!(a.temperature, 386_363_636);
    let mut same = archived(400 * SCALE, gas);
    same.temperature_mimic(399_500_000, 10_000 * SCALE, 150_000);
    assert_eq!(same.temperature, 400 * SCALE);
    same.temperature_mimic(300 * SCALE, 300, 150_000);
    assert_eq!(same.temperature, 400 * SCALE);
}

#[test]
fn temperature_turf_share_hands_back_the_new_temperature_of_the_cell() {
    let mut gas = Composition::empty();
    gas.oxygen = 50 * SCALE;
    let mut a = archived(400 * SCALE, gas);
    let warmed = a.temperature_turf_share(300 * SCALE, 10_000 * SCALE, 150_000);
    assert_eq!(warmed, Some(301_363_636));
    assert_eq!(a.temperature, 386_363_636);
    let mut b = archived(400 * SCALE, gas);
    assert_eq!(b.temperature_turf_share(399_600_000, 10_000 * SCALE, 150_000), None);
    assert_eq!(b.temperature, 400 * SCALE);
    assert_eq!(b.temperature_turf_share(300 * SCALE, 0, 150_000), None);
    assert_eq!(b.temperature, 400 * SCALE);
}

#[test]
fn rebalance_keeps_the_temperature_of_a_body_without_heat_capacity() {
    assert_eq!(rebalance(1000 * SCALE, 300 * SCALE, 0, 0, 1000 * SCALE), 300 * SCALE);
    assert_eq!(rebalance(1000 * SCALE, 300 * SCALE, 0, 0, 300), 300 * SCALE);
    assert_eq!(
        rebalance(1000 * SCALE, 300 * SCALE, 0, 3_000_000_000_000_000, 1000 * SCALE),
        303 * SCALE
    );
    assert_eq!(
        rebalance(1000 * SCALE, 300 * SCALE, 3_000_000_000_000_000, 0, 500 * SCALE),
        594 * SCALE
    );
}

#[test]
fn pressure_difference_follows_the_ideal_gas_law() {
    // (300 * 100 - 280 * 60) * 8.31 / 2500
    assert_eq!(
        pressure_difference(300 * SCALE, 100 * SCALE, 280 * SCALE, 60 * SCALE, 2500 * SCALE),
        43_876_800
    );
    assert_eq!(pressure_difference(300 * SCALE, 100 * SCALE, 0, 0, 0), LIMIT);
    assert_eq!(pressure_difference(300 * SCALE, -100 * SCALE, 0, 0, 0), -LIMIT);
}

#[test]
fn turf_temperature_differs_by_more_than_half_a_kelvin() {
    let mut gas = Composition::empty();
    gas.oxygen = 50 * SCALE;
    let mut a = archived(400 * SCALE, gas);
    a.temperature = 0;
    assert!(!a.turf_temperature_differs(400 * SCALE));
    assert!(!a.turf_temperature_differs(400_500_000));
    assert!(a.turf_temperature_differs(400_500_001));
    assert!(!a.turf_temperature_differs(399_500_000));
    assert!(a.turf_temperature_differs(399_499_999));
    assert!(a.turf_temperature_differs(i64::MAX));
    assert!(a.turf_temperature_differs(i64::MIN));
    // Where it does not differ, nothing is conducted, whatever the cell.
    let before = a;
    assert_eq!(a.temperature_turf_share(400_500_000, LIMIT, SCALE), None);
    assert_eq!(a, before);
}
