use atmos::fixed::SCALE;
use atmos::gas::{Composition, GasMixture, Turf};
use atmos::similarity::too_far;

fn oxygen_at(temperature: i64, oxygen: i64) -> GasMixture {
    let mut made = GasMixture::vacant();
    made.gas.oxygen = oxygen;
    made.temperature = temperature;
    made.is_initialized = true;
    made.archive();
    made
}

#[test]
fn too_far_needs_both_the_amount_and_the_band() {
    assert!(!too_far(100 * SCALE, 100 * SCALE + 519_919, 519_919, 5_000));
    assert!(too_far(100 * SCALE, 100 * SCALE + 519_920, 519_919, 5_000));
    assert!(too_far(0, 519_920, 519_919, 5_000));
    assert!(!too_far(1000 * SCALE, 1004 * SCALE, 519_919, 5_000));
    assert!(too_far(1000 * SCALE, 1006 * SCALE, 519_919, 5_000));
}

#[test]
fn compare_accepts_a_like_sample() {
    let a = oxygen_at(300 * SCALE, 100 * SCALE);
    assert!(a.compare(&a));
    assert!(a.compare(&oxygen_at(300 * SCALE, 100 * SCALE + 519_919)));
    assert!(a.compare(&oxygen_at(304 * SCALE, 100 * SCALE)));
}

#[test]
fn compare_rejects_a_sample_with_other_gas() {
    let a = oxygen_at(300 * SCALE, 100 * SCALE);
    assert!(!a.compare(&oxygen_at(300 * SCALE, 101 * SCALE)));
    assert!(!a.compare(&oxygen_at(300 * SCALE, 99 * SCALE)));
    let mut other = a;
    other.gas.agent_b = SCALE;
    assert!(!a.compare(&other));
    assert!(!other.compare(&a));
}

#[test]
fn compare_is_not_symmetric() {
    // The band lies around the sample: 1000 is within half a percent of
    // 1005, but 1005 is not within half a percent of 1000.
    let small = oxygen_at(300 * SCALE, 1000 * SCALE);
    let large = oxygen_at(300 * SCALE, 1005 * SCALE + 1);
    assert!(small.compare(&large));
    assert!(!large.compare(&small));
}

#[test]
fn compare_looks_at_the_temperature_only_where_there_is_gas() {
    let a = oxygen_at(300 * SCALE, 100 * SCALE);
    assert!(!a.compare(&oxygen_at(305 * SCALE, 100 * SCALE)));
    assert!(!a.compare(&oxygen_at(296 * SCALE - 1, 100 * SCALE)));
    let thin = oxygen_at(300 * SCALE, 519_919);
    assert!(thin.compare(&oxygen_at(900 * SCALE, 519_919)));
    let just_enough = oxygen_at(300 * SCALE, 519_920);
    assert!(!just_enough.compare(&oxygen_at(900 * SCALE, 519_920)));
}

#[test]
fn check_turf_goes_by_the_archive() {
    let mut a = oxygen_at(300 * SCALE, 100 * SCALE);
    a.gas.oxygen = 0;
    a.temperature = 0;
    let mut model = Turf { gas: Composition::empty(), temperature: 300 * SCALE };
    model.gas.oxygen = 98 * SCALE;
    assert!(a.check_turf(model, 4));
    model.gas.oxygen = 97 * SCALE;
    assert!(!a.check_turf(model, 4));
    model.gas.oxygen = 100 * SCALE;
    model.temperature = 304 * SCALE;
    assert!(a.check_turf(model, 4));
    model.temperature = 304 * SCALE + 1;
    assert!(!a.check_turf(model, 4));
    model.temperature = 296 * SCALE - 1;
    assert!(!a.check_turf(model, 4));
}

#[test]
fn check_turf_total_goes_by_what_is_there() {
    let mut a = oxygen_at(300 * SCALE, 1000 * SCALE);
    a.archived = Composition::empty();
    a.temperature_archived = 0;
    let mut model = Turf { gas: Composition::empty(), temperature: 300 * SCALE };
    model.gas.oxygen = 996 * SCALE;
    assert!(a.check_turf_total(model, 0));
    model.gas.oxygen = 995 * SCALE;
    assert!(!a.check_turf_total(model, 0));
    model.gas.oxygen = 1005 * SCALE;
    assert!(!a.check_turf_total(model, 0));
    model.gas.oxygen = 1000 * SCALE;
    model.temperature = 304 * SCALE;
    assert!(a.check_turf_total(model, 4));
    model.temperature = 304 * SCALE + 1;
    assert!(!a.check_turf_total(model, 4));
}

#[test]
fn check_turf_total_splits_the_difference_among_the_neighbours() {
    let b = oxygen_at(300 * SCALE, 100 * SCALE);
    let mut model = Turf { gas: Composition::empty(), temperature: 300 * SCALE };
    model.gas.oxygen = 99 * SCALE;
    // A fifth of a mole is too little to count; a whole mole is not.
    assert!(b.check_turf_total(model, 4));
    assert!(!b.check_turf_total(model, 0));
    assert!(b.check_turf_total(model, 1));
    model.gas.oxygen = 97 * SCALE;
    assert!(!b.check_turf_total(model, 4));
    assert!(b.check_turf_total(model, 5));
    let a = oxygen_at(300 * SCALE, 1000 * SCALE);
    model.gas.oxygen = 975 * SCALE;
    assert!(!a.check_turf_total(model, 4));
    model.gas.oxygen = 976 * SCALE;
    assert!(a.check_turf_total(model, 4));
}
