use atmos::fixed::{LIMIT, SCALE};
use atmos::gas::{Composition, GasMixture};

fn mixture(temperature: i64, oxygen: i64, nitrogen: i64) -> GasMixture {
    let mut made = GasMixture::vacant();
    made.gas.oxygen = oxygen;
    made.gas.nitrogen = nitrogen;
    made.temperature = temperature;
    made.is_initialized = true;
    made
}

#[test]
fn archive_copies_gases_and_temperature() {
    let mut a = mixture(300 * SCALE, 21 * SCALE, 79 * SCALE);
    a.gas.agent_b = 5;
    a.last_share = 9;
    assert_eq!(a.archived, Composition::empty());
    a.archive();
    assert_eq!(a.archived, a.gas);
    assert_eq!(a.temperature_archived, 300 * SCALE);
    assert_eq!(a.last_share, 9);
    assert_eq!(a.gas.agent_b, 5);
}

#[test]
fn copy_from_overwrites_gases_and_temperature_only() {
    let mut a = mixture(300 * SCALE, 21 * SCALE, 79 * SCALE);
    a.archive();
    a.volume = 70 * SCALE;
    let mut sample = mixture(500 * SCALE, 1, 2);
    sample.gas.toxins = 3;
    sample.volume = 1;
    sample.is_initialized = false;
    let before = a;
    a.copy_from(&sample);
    assert_eq!(a.gas, sample.gas);
    assert_eq!(a.temperature, 500 * SCALE);
    assert_eq!(a.archived, before.archived);
    assert_eq!(a.temperature_archived, before.temperature_archived);
    assert_eq!(a.volume, 70 * SCALE);
    assert!(a.is_initialized);
}

#[test]
fn merge_adds_the_gas_and_averages_the_temperature() {
    let mut a = mixture(300 * SCALE, 10 * SCALE, 0);
    let mut giver = mixture(400 * SCALE, 30 * SCALE, 0);
    giver.gas.toxins = SCALE;
    let kept = giver;
    assert!(a.merge(&giver));
    assert_eq!(a.gas.oxygen, 40 * SCALE);
    assert_eq!(a.gas.toxins, SCALE);
    // (400 * 800 + 300 * 200) / 1000
    assert_eq!(a.temperature, 380 * SCALE);
    assert_eq!(giver, kept);
}

#[test]
fn merge_keeps_the_temperature_where_it_hardly_differs() {
    let mut a = mixture(300 * SCALE, 10 * SCALE, 0);
    let giver = mixture(300_500_000, 30 * SCALE, 0);
    assert!(a.merge(&giver));
    assert_eq!(a.temperature, 300 * SCALE);
    assert_eq!(a.gas.oxygen, 40 * SCALE);
}

#[test]
fn merge_with_a_giver_that_is_not_initialized_does_nothing() {
    let mut a = mixture(300 * SCALE, 10 * SCALE, 0);
    let mut giver = mixture(400 * SCALE, 30 * SCALE, 0);
    giver.is_initialized = false;
    let before = a;
    assert!(!a.merge(&giver));
    assert_eq!(a, before);
}

#[test]
fn remove_takes_each_gas_in_proportion() {
    let mut a = mixture(300 * SCALE, 21 * SCALE, 79 * SCALE);
    a.gas.carbon_dioxide = 333_333;
    let mut into = mixture(5, 1, 2);
    into.volume = 9;
    a.remove(&mut into, 10 * SCALE);
    assert_eq!(into.gas.oxygen, 2_093_000);
    assert_eq!(into.gas.nitrogen, 7_873_800);
    assert_eq!(into.gas.carbon_dioxide, 33_200);
    assert_eq!(into.gas.toxins, 0);
    assert_eq!(into.temperature, 300 * SCALE);
    assert_eq!(into.volume, 9);
    assert!(into.is_initialized);
    assert_eq!(a.gas.oxygen, 21 * SCALE - 2_093_000);
    assert_eq!(a.gas.nitrogen, 79 * SCALE - 7_873_800);
    assert_eq!(a.gas.carbon_dioxide, 333_333 - 33_200);
    assert_eq!(a.temperature, 300 * SCALE);
}

#[test]
fn remove_takes_no_more_than_there_is() {
    let mut a = mixture(300 * SCALE, 21 * SCALE, 79 * SCALE);
    let mut into = mixture(0, 0, 0);
    a.remove(&mut into, 1000 * SCALE);
    assert_eq!(into.gas.oxygen, 21 * SCALE);
    assert_eq!(into.gas.nitrogen, 79 * SCALE);
    assert_eq!(a.gas, Composition::empty());
    let mut more = mixture(300 * SCALE, 21 * SCALE, 79 * SCALE);
    more.remove(&mut into, i64::MAX);
    assert_eq!(more.gas, Composition::empty());
}

#[test]
fn remove_of_nothing_vacates_the_receiver() {
    let mut a = mixture(300 * SCALE, 21 * SCALE, 79 * SCALE);
    let before = a;
    let mut into = mixture(500 * SCALE, 7, 8);
    into.volume = 1;
    a.remove(&mut into, 0);
    assert_eq!(into, GasMixture::vacant());
    assert_eq!(a, before);
    let mut other = mixture(500 * SCALE, 7, 8);
    a.remove(&mut other, -5);
    assert_eq!(other, GasMixture::vacant());
    let mut empty = mixture(300 * SCALE, 0, 0);
    let mut third = mixture(500 * SCALE, 7, 8);
    empty.remove(&mut third, 5 * SCALE);
    assert_eq!(third, GasMixture::vacant());
    assert_eq!(a.taken(0), None);
}

#[test]
fn remove_ratio_takes_the_share_of_each_gas() {
    let mut a = mixture(300 * SCALE, 21_000_049, 79 * SCALE + 150);
    let mut into = mixture(0, 0, 0);
    a.remove_ratio(&mut into, 250_000);
    assert_eq!(into.gas.oxygen, 5_250_000);
    assert_eq!(into.gas.nitrogen, 19_750_000);
    assert_eq!(into.temperature, 300 * SCALE);
    assert_eq!(a.gas.oxygen, 21_000_049 - 5_250_000);
    assert_eq!(a.gas.nitrogen, 79 * SCALE + 150 - 19_750_000);
}

#[test]
fn remove_ratio_takes_all_at_most() {
    let mut a = mixture(300 * SCALE, 21 * SCALE, 79 * SCALE);
    let mut into = mixture(0, 0, 0);
    a.remove_ratio(&mut into, 5 * SCALE);
    assert_eq!(into.gas.oxygen, 21 * SCALE);
    assert_eq!(a.gas, Composition::empty());
    let mut b = mixture(300 * SCALE, 21 * SCALE, 79 * SCALE);
    let before = b;
    let mut gone = mixture(1, 2, 3);
    b.remove_ratio(&mut gone, 0);
    assert_eq!(gone, GasMixture::vacant());
    assert_eq!(b, before);
    assert_eq!(b.taken_ratio(-1), None);
}

#[test]
fn remove_then_merge_restores_the_gases() {
    let mut a = mixture(300 * SCALE, 21_123_457, 79_654_321);
    a.gas.toxins = 1_000_001;
    a.gas.agent_b = 17;
    let before = a;
    let mut into = mixture(900 * SCALE, 5, 6);
    a.remove(&mut into, 33_333_333);
    assert_ne!(a.gas, before.gas);
    assert!(a.merge(&into));
    assert_eq!(a.gas, before.gas);
    let mut c = before;
    let mut part = mixture(900 * SCALE, 5, 6);
    c.remove_ratio(&mut part, 123_456);
    assert!(c.merge(&part));
    assert_eq!(c.gas, before.gas);
}

#[test]
fn portions_are_whole_quanta() {
    let a = mixture(300 * SCALE, 21_123_457, 79_654_321);
    let part = a.gas.portion(12_345_678, a.total_moles());
    assert_eq!(part.oxygen % 100, 0);
    assert_eq!(part.nitrogen % 100, 0);
    let scaled = a.gas.scaled(333_333);
    assert_eq!(scaled.oxygen % 100, 0);
    assert_eq!(scaled.oxygen, 7_041_100);
    let huge = a.gas.scaled(LIMIT);
    assert_eq!(huge.oxygen, LIMIT);
}
