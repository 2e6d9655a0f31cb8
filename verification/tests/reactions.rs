use atmos::fixed::SCALE;
use atmos::gas::{Composition, GasMixture};

fn mixture(temperature: i64, gas: Composition) -> GasMixture {
    let mut made = GasMixture::vacant();
    made.gas = gas;
    made.temperature = temperature;
    made.is_initialized = true;
    made
}

#[test]
fn toxins_burn_above_the_burn_temperature() {
    let mut gas = Composition::empty();
    gas.toxins = 10 * SCALE;
    gas.oxygen = 10 * SCALE;
    let mut burning = mixture(400 * SCALE, gas);
    burning.fuel_burnt = 77;
    let before = burning;
    assert!(burning.react());
    assert!(burning.gas.toxins < before.gas.toxins);
    assert!(burning.gas.carbon_dioxide > before.gas.carbon_dioxide);
    assert!(burning.temperature > before.temperature);
    assert_eq!(burning.gas.toxins, 9_994_714);
    assert_eq!(burning.gas.oxygen, 9_992_711);
    assert_eq!(burning.gas.carbon_dioxide, 5_286);
    assert_eq!(burning.temperature, 407_401_586);
    assert_eq!(burning.fuel_burnt, 12_575);
    assert_eq!(burning.gas.nitrogen, 0);
    assert_eq!(burning.archived, before.archived);
    assert_eq!(burning.volume, before.volume);
}

#[test]
fn burning_agrees_with_the_formula_in_real_numbers() {
    let mut gas = Composition::empty();
    gas.toxins = 10 * SCALE;
    gas.oxygen = 10 * SCALE;
    let mut burning = mixture(400 * SCALE, gas);
    burning.react();
    let scale = (400.0_f64 - 373.15) / (1643.15 - 373.15);
    let oxygen_rate = 1.4 - scale;
    let burn = scale * (10.0 / 10.0) / 4.0;
    let old_capacity = 10.0 * 200.0 + 10.0 * 20.0;
    let new_capacity = (10.0 - burn) * 200.0 + (10.0 - burn * oxygen_rate) * 20.0 + burn * 30.0;
    let temperature = (400.0 * old_capacity + 3_000_000.0 * burn) / new_capacity;
    assert!((burning.gas.toxins as f64 / 1e6 - (10.0 - burn)).abs() < 1e-5);
    assert!((burning.gas.oxygen as f64 / 1e6 - (10.0 - burn * oxygen_rate)).abs() < 1e-5);
    assert!((burning.temperature as f64 / 1e6 - temperature).abs() < 1e-3);
    assert!((burning.fuel_burnt as f64 / 1e6 - burn * (1.0 + oxygen_rate)).abs() < 1e-5);
}

#[test]
fn plentiful_oxygen_lets_the_toxins_limit_the_burn() {
    let mut gas = Composition::empty();
    gas.toxins = SCALE;
    gas.oxygen = 100 * SCALE;
    let mut burning = mixture(2000 * SCALE, gas);
    assert_eq!(burning.fire(), 350_000);
    assert_eq!(burning.gas.toxins, 750_000);
    assert_eq!(burning.gas.oxygen, 99_900_000);
    assert_eq!(burning.gas.carbon_dioxide, 250_000);
    assert_eq!(burning.temperature, 2_389_236_836);
    assert_eq!(burning.fuel_burnt, 350_000);
}

#[test]
fn nothing_burns_at_or_below_the_burn_temperature() {
    let mut gas = Composition::empty();
    gas.toxins = 10 * SCALE;
    gas.oxygen = 10 * SCALE;
    let mut cool = mixture(373_150_000, gas);
    cool.fuel_burnt = 5;
    let before = cool;
    assert!(!cool.react());
    assert_eq!(cool.gas, before.gas);
    assert_eq!(cool.temperature, before.temperature);
    assert_eq!(cool.fuel_burnt, 0);
}

#[test]
fn nothing_burns_without_toxins() {
    let mut gas = Composition::empty();
    gas.toxins = 300;
    gas.oxygen = 10 * SCALE;
    let mut hot = mixture(1000 * SCALE, gas);
    let before = hot;
    assert!(!hot.react());
    assert_eq!(hot.gas, before.gas);
    assert_eq!(hot.temperature, before.temperature);
    assert_eq!(hot.fire(), 0);
}

#[test]
fn a_burn_too_small_to_count_is_left_out() {
    let mut gas = Composition::empty();
    gas.toxins = 10 * SCALE;
    gas.oxygen = 100;
    let mut starved = mixture(400 * SCALE, gas);
    let before = starved;
    assert!(!starved.react());
    assert_eq!(starved.gas, before.gas);
    assert_eq!(starved.temperature, before.temperature);
}

#[test]
fn agent_b_turns_carbon_dioxide_into_oxygen() {
    let mut gas = Composition::empty();
    gas.carbon_dioxide = 10 * SCALE;
    gas.agent_b = 10 * SCALE;
    gas.toxins = 200;
    let hot = mixture(1000 * SCALE, gas);
    let mut with_toxins = hot;
    with_toxins.gas.toxins = 10 * SCALE;
    with_toxins.gas.oxygen = 0;
    // The trace reaction alone, then the fire on what it left.
    let mut traced = with_toxins;
    assert!(traced.react());
    assert_eq!(traced.gas.agent_b, 9_975_000);
    assert!(traced.gas.carbon_dioxide >= 9_500_000);
    // Without enough toxins the trace reaction does not run.
    let mut idle = hot;
    assert!(!idle.react());
    assert_eq!(idle.gas, hot.gas);
    assert_eq!(idle.temperature, hot.temperature);
}

#[test]
fn the_trace_reaction_needs_more_than_nine_hundred_kelvins() {
    let mut gas = Composition::empty();
    gas.carbon_dioxide = 10 * SCALE;
    gas.agent_b = 10 * SCALE;
    gas.toxins = 10 * SCALE;
    let mut warm = mixture(900 * SCALE, gas);
    // No oxygen: the fire finds nothing to burn with, but it is hot enough
    // for it to look.
    assert!(!warm.react());
    assert_eq!(warm.gas, gas);
    let mut hotter = mixture(900 * SCALE + 1, gas);
    assert!(hotter.react());
    assert_eq!(hotter.gas.agent_b, 9_975_000);
}
