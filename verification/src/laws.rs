//! What holds of the engine as a whole: conservation of gas and of energy
//! and the round trips between its operations.
use crate::constants::{
    BREATH_VOLUME, CELL_VOLUME, MINIMUM_HEAT_CAPACITY, OPEN_HEAT_TRANSFER_COEFFICIENT,
    R_IDEAL_GAS_EQUATION,
};
use crate::exchange::{rebalanced_temperature, share_delta};
use crate::fixed::{
    in_range, lemma_quantized_bounded, lemma_quantized_idempotent, lemma_quantized_of_positive,
    lemma_quot_of_positive, lemma_round_div_bounded, lemma_round_div_error,
    lemma_round_div_multiple, lemma_round_div_unique, magnitude, quantized, quot, round_div, LIMIT,
    QUANTUM, SCALE,
};
use crate::gas::{Composition, GasMixture};
use vstd::prelude::*;

verus! {

impl Composition {
    /// Taking `delta` away keeps every amount within the limits, so that
    /// nothing is cut off.
    pub open spec fn can_give(self, delta: Composition) -> bool {
        &&& in_range(self.oxygen - delta.oxygen)
        &&& in_range(self.carbon_dioxide - delta.carbon_dioxide)
        &&& in_range(self.nitrogen - delta.nitrogen)
        &&& in_range(self.toxins - delta.toxins)
        &&& in_range(self.sleeping_agent - delta.sleeping_agent)
        &&& in_range(self.agent_b - delta.agent_b)
    }

    /// No amount is negative.
    pub open spec fn spec_non_negative(self) -> bool {
        &&& self.oxygen >= 0
        &&& self.carbon_dioxide >= 0
        &&& self.nitrogen >= 0
        &&& self.toxins >= 0
        &&& self.sleeping_agent >= 0
        &&& self.agent_b >= 0
    }

    /// Adding `delta` keeps every amount within the limits, so that nothing
    /// is cut off.
    pub open spec fn can_take(self, delta: Composition) -> bool {
        &&& in_range(self.oxygen + delta.oxygen)
        &&& in_range(self.carbon_dioxide + delta.carbon_dioxide)
        &&& in_range(self.nitrogen + delta.nitrogen)
        &&& in_range(self.toxins + delta.toxins)
        &&& in_range(self.sleeping_agent + delta.sleeping_agent)
        &&& in_range(self.agent_b + delta.agent_b)
    }
}

/// Rounding to the quantum is idempotent: an amount that was rounded is not
/// changed by rounding it again.
pub proof fn law_quantize_idempotent(x: i64)
    ensures
        quantized(quantized(x as int) as int) == quantized(x as int),
{
    lemma_quantized_idempotent(x as int);
}

/// What `share` does to the gases: nothing where the sharer is not
/// initialized or the archives agree, and else the archived difference of
/// each gas, rounded and split, leaves the one mixture and reaches the other.
pub proof fn lemma_share_gases(a: GasMixture, b: GasMixture, adjacent_turfs: u32)
    ensures
        !b.is_initialized || a.archives_agree(b) ==> a.spec_share(b, adjacent_turfs) == (a, b),
        b.is_initialized && !a.archives_agree(b) ==> a.spec_share(b, adjacent_turfs).0.gas
            == a.gas.spec_minus(a.spec_share_deltas(b, adjacent_turfs)) && a.spec_share(
            b,
            adjacent_turfs,
        ).1.gas == b.gas.spec_plus(a.spec_share_deltas(b, adjacent_turfs)),
{
    reveal(GasMixture::spec_share_moved);
    reveal(GasMixture::spec_share_heated);
    reveal(GasMixture::spec_temperature_share);
}

/// Diffusion conserves gas: the moles that two mixtures hold together are the
/// same after `share` as before, as long as no amount is cut off at the
/// limits of what the engine stores.
pub proof fn law_share_conserves_moles(a: GasMixture, b: GasMixture, adjacent_turfs: u32)
    requires
        a.wf(),
        b.wf(),
        a.gas.can_give(a.spec_share_deltas(b, adjacent_turfs)),
        b.gas.can_take(a.spec_share_deltas(b, adjacent_turfs)),
    ensures
        a.spec_share(b, adjacent_turfs).0.gas.spec_total() + a.spec_share(
            b,
            adjacent_turfs,
        ).1.gas.spec_total() == a.gas.spec_total() + b.gas.spec_total(),
        in_range(a.gas.spec_total()) && in_range(b.gas.spec_total()) && in_range(
            a.spec_share(b, adjacent_turfs).0.gas.spec_total(),
        ) && in_range(a.spec_share(b, adjacent_turfs).1.gas.spec_total()) ==> a.spec_share(
            b,
            adjacent_turfs,
        ).0.spec_total_moles() + a.spec_share(b, adjacent_turfs).1.spec_total_moles()
            == a.spec_total_moles() + b.spec_total_moles(),
{
    lemma_share_gases(a, b, adjacent_turfs);
}

impl Composition {
    /// No amount is larger in magnitude than `bound`.
    pub open spec fn spec_within(self, bound: int) -> bool {
        &&& -bound <= self.oxygen <= bound
        &&& -bound <= self.carbon_dioxide <= bound
        &&& -bound <= self.nitrogen <= bound
        &&& -bound <= self.toxins <= bound
        &&& -bound <= self.sleeping_agent <= bound
        &&& -bound <= self.agent_b <= bound
    }
}

/// The largest amount of a gas, live or archived, of which `share` can move
/// any part between two mixtures without reaching the limits of what the
/// engine stores: a thirty-second of the limit, over thirty million moles.
pub open spec fn modest_amount() -> int {
    31_250_000_000_000
}

/// The amount of a gas that `share` moves is no larger than the archived
/// difference and half a quantum.
pub proof fn lemma_share_delta_bounded(mine: i64, theirs: i64, adjacent_turfs: u32)
    ensures
        magnitude(share_delta(mine, theirs, adjacent_turfs) as int) <= magnitude(mine - theirs)
            + QUANTUM / 2,
{
    reveal(quot);
    lemma_quantized_bounded(mine - theirs);
    lemma_round_div_bounded(quantized(mine - theirs) as int, adjacent_turfs + 1);
}

/// Of a gas of which both mixtures hold and archived a modest amount, what
/// `share` moves leaves both well within the limits.
proof fn lemma_modest_exchange(
    giver: i64,
    taker: i64,
    mine: i64,
    theirs: i64,
    adjacent_turfs: u32,
)
    requires
        -modest_amount() <= giver <= modest_amount(),
        -modest_amount() <= taker <= modest_amount(),
        -modest_amount() <= mine <= modest_amount(),
        -modest_amount() <= theirs <= modest_amount(),
    ensures
        -(3 * modest_amount() + 50) <= giver - share_delta(mine, theirs, adjacent_turfs) <= 3
            * modest_amount() + 50,
        -(3 * modest_amount() + 50) <= taker + share_delta(mine, theirs, adjacent_turfs) <= 3
            * modest_amount() + 50,
{
    lemma_share_delta_bounded(mine, theirs, adjacent_turfs);
}

/// Diffusion conserves gas, for every pair of mixtures that hold and
/// archived modest amounts: the total moles of the two together are exactly
/// the same after `share` as before, however many neighbours there are and
/// whatever the temperatures.
pub proof fn law_share_conserves_total_moles(a: GasMixture, b: GasMixture, adjacent_turfs: u32)
    requires
        a.wf(),
        b.wf(),
        a.gas.spec_within(modest_amount()),
        a.archived.spec_within(modest_amount()),
        b.gas.spec_within(modest_amount()),
        b.archived.spec_within(modest_amount()),
    ensures
        a.spec_share(b, adjacent_turfs).0.spec_total_moles() + a.spec_share(
            b,
            adjacent_turfs,
        ).1.spec_total_moles() == a.spec_total_moles() + b.spec_total_moles(),
        a.spec_share(b, adjacent_turfs).0.gas.spec_total() + a.spec_share(
            b,
            adjacent_turfs,
        ).1.gas.spec_total() == a.gas.spec_total() + b.gas.spec_total(),
{
    let n = adjacent_turfs;
    let deltas = a.spec_share_deltas(b, n);
    let bound = 3 * modest_amount() + 50;
    lemma_modest_exchange(a.gas.oxygen, b.gas.oxygen, a.archived.oxygen, b.archived.oxygen, n);
    lemma_modest_exchange(
        a.gas.carbon_dioxide,
        b.gas.carbon_dioxide,
        a.archived.carbon_dioxide,
        b.archived.carbon_dioxide,
        n,
    );
    lemma_modest_exchange(
        a.gas.nitrogen,
        b.gas.nitrogen,
        a.archived.nitrogen,
        b.archived.nitrogen,
        n,
    );
    lemma_modest_exchange(a.gas.toxins, b.gas.toxins, a.archived.toxins, b.archived.toxins, n);
    lemma_modest_exchange(
        a.gas.sleeping_agent,
        b.gas.sleeping_agent,
        a.archived.sleeping_agent,
        b.archived.sleeping_agent,
        n,
    );
    lemma_modest_exchange(a.gas.agent_b, b.gas.agent_b, a.archived.agent_b, b.archived.agent_b, n);
    let less = a.gas.spec_minus(deltas);
    let more = b.gas.spec_plus(deltas);
    assert(less.spec_within(bound) && a.gas.can_give(deltas));
    assert(more.spec_within(bound) && b.gas.can_take(deltas));
    assert(in_range(less.spec_total()) && in_range(more.spec_total()));
    assert(in_range(a.gas.spec_total()) && in_range(b.gas.spec_total()));
    lemma_share_gases(a, b, n);
    law_share_conserves_moles(a, b, n);
}

/// The same in a store: after `share` between two different slots, the two
/// hold together the moles they held before, and no other slot has changed.
pub proof fn law_share_conserves_moles_in_store(
    slots: Seq<GasMixture>,
    id: int,
    sharer_id: int,
    adjacent_turfs: u32,
)
    requires
        0 <= id < slots.len(),
        0 <= sharer_id < slots.len(),
        id != sharer_id,
        slots[id].wf(),
        slots[sharer_id].wf(),
        slots[id].gas.can_give(slots[id].spec_share_deltas(slots[sharer_id], adjacent_turfs)),
        slots[sharer_id].gas.can_take(
            slots[id].spec_share_deltas(slots[sharer_id], adjacent_turfs),
        ),
    ensures
        ({
            let shared = slots[id].spec_share(slots[sharer_id], adjacent_turfs);
            let after = slots.update(id, shared.0).update(sharer_id, shared.1);
            &&& after.len() == slots.len()
            &&& after[id].gas.spec_total() + after[sharer_id].gas.spec_total()
                == slots[id].gas.spec_total() + slots[sharer_id].gas.spec_total()
            &&& forall|other: int|
                0 <= other < slots.len() && other != id && other != sharer_id ==> after[other]
                    == slots[other]
        }),
{
    law_share_conserves_moles(slots[id], slots[sharer_id], adjacent_turfs);
}

/// What `remove` takes from gases that are not negative is not negative
/// either and no more than the engine stores, so that taking it away and
/// adding it again cuts nothing off.
pub proof fn lemma_taken_can_be_given(a: GasMixture, amount: i64)
    requires
        a.wf(),
        a.gas.spec_non_negative(),
        a.spec_taken(amount).is_some(),
    ensures
        a.spec_taken(amount).unwrap().wf(),
        a.spec_taken(amount).unwrap().spec_non_negative(),
        a.gas.can_give(a.spec_taken(amount).unwrap()),
{
    let part = a.spec_removable(amount) as int;
    let whole = a.spec_total_moles() as int;
    assert(0 < part <= whole);
    lemma_portion_of_positive(a.gas.oxygen as int, part, whole);
    lemma_portion_of_positive(a.gas.carbon_dioxide as int, part, whole);
    lemma_portion_of_positive(a.gas.nitrogen as int, part, whole);
    lemma_portion_of_positive(a.gas.toxins as int, part, whole);
    lemma_portion_of_positive(a.gas.sleeping_agent as int, part, whole);
    lemma_portion_of_positive(a.gas.agent_b as int, part, whole);
}

/// The share of an amount that is not negative, rounded to the quantum, is
/// not negative and within the limits.
proof fn lemma_portion_of_positive(x: int, part: int, whole: int)
    requires
        0 <= x,
        0 < part,
        0 < whole,
    ensures
        0 <= quantized(quot(x * part, whole) as int) <= LIMIT,
{
    assert(x * part >= 0) by (nonlinear_arith)
        requires
            0 <= x,
            0 < part,
    ;
    lemma_quot_of_positive(x * part, whole);
    lemma_quantized_of_positive(quot(x * part, whole) as int);
}

/// The same for what `remove_ratio` takes.
pub proof fn lemma_taken_ratio_can_be_given(a: GasMixture, ratio: i64)
    requires
        a.wf(),
        a.gas.spec_non_negative(),
        a.spec_taken_ratio(ratio).is_some(),
    ensures
        a.spec_taken_ratio(ratio).unwrap().wf(),
        a.spec_taken_ratio(ratio).unwrap().spec_non_negative(),
        a.gas.can_give(a.spec_taken_ratio(ratio).unwrap()),
{
    let share = GasMixture::spec_removable_ratio(ratio) as int;
    assert(0 < share);
    lemma_portion_of_positive(a.gas.oxygen as int, share, SCALE as int);
    lemma_portion_of_positive(a.gas.carbon_dioxide as int, share, SCALE as int);
    lemma_portion_of_positive(a.gas.nitrogen as int, share, SCALE as int);
    lemma_portion_of_positive(a.gas.toxins as int, share, SCALE as int);
    lemma_portion_of_positive(a.gas.sleeping_agent as int, share, SCALE as int);
    lemma_portion_of_positive(a.gas.agent_b as int, share, SCALE as int);
}

/// Removing and merging back is a round trip: after `remove` has moved gas
/// from `a`, which holds no negative amount, into an initialized `b`, and
/// `merge` has let `a` absorb `b` again, `a` holds the gases it held at
/// first.  Its temperature may have changed.
pub proof fn law_remove_merge_round_trip(a: GasMixture, b: GasMixture, amount: i64)
    requires
        a.wf(),
        b.wf(),
        b.is_initialized,
        a.gas.spec_non_negative(),
    ensures
        match a.spec_taken(amount) {
            Some(taken) => a.spec_give(taken).spec_merge(b.spec_receive(taken, a)).gas == a.gas,
            None => a.spec_merge(GasMixture::spec_vacant()) == a,
        },
{
    if a.spec_taken(amount).is_some() {
        lemma_taken_can_be_given(a, amount);
    }
}

/// The same round trip for `remove_ratio`.
pub proof fn law_remove_ratio_merge_round_trip(a: GasMixture, b: GasMixture, ratio: i64)
    requires
        a.wf(),
        b.wf(),
        b.is_initialized,
        a.gas.spec_non_negative(),
    ensures
        match a.spec_taken_ratio(ratio) {
            Some(taken) => a.spec_give(taken).spec_merge(b.spec_receive(taken, a)).gas == a.gas,
            None => a.spec_merge(GasMixture::spec_vacant()) == a,
        },
{
    if a.spec_taken_ratio(ratio).is_some() {
        lemma_taken_ratio_can_be_given(a, ratio);
    }
}

/// Within its range the true breath pressure is the inverse of the breath
/// partial pressure: where the gas constant times the temperature exceeds the
/// volume of a breath, and the partial pressure of the amount `x` is no more
/// than the engine stores, the amount comes back exactly.
pub proof fn law_true_breath_pressure_inverts(a: GasMixture, x: i64)
    requires
        a.wf(),
        in_range(x as int),
        R_IDEAL_GAS_EQUATION * a.temperature > BREATH_VOLUME * SCALE,
        in_range(round_div(x * a.temperature * R_IDEAL_GAS_EQUATION, BREATH_VOLUME * SCALE)),
    ensures
        a.spec_true_breath_pressure(a.spec_breath_partial_pressure(x)) == x,
{
    reveal(quot);
    let breath = BREATH_VOLUME * SCALE;
    let strength = R_IDEAL_GAS_EQUATION * a.temperature;
    let exact = x * a.temperature * R_IDEAL_GAS_EQUATION;
    let partial = round_div(exact, breath);
    assert(a.spec_breath_partial_pressure(x) == partial);
    lemma_round_div_error(exact, breath);
    assert(exact == x * strength) by (nonlinear_arith)
        requires
            exact == x * a.temperature * R_IDEAL_GAS_EQUATION,
            strength == R_IDEAL_GAS_EQUATION * a.temperature,
    ;
    assert(partial * BREATH_VOLUME * SCALE == partial * breath) by (nonlinear_arith)
        requires
            breath == BREATH_VOLUME * SCALE,
    ;
    lemma_round_div_unique(partial * breath, strength, x as int);
}

impl GasMixture {
    /// Temperature times heat capacity, exactly: the thermal energy before
    /// it is rounded to a millionth of a joule.
    pub open spec fn spec_heat_content(self) -> int {
        self.temperature * self.spec_heat_capacity()
    }

    /// Conduction between the two with `coefficient` changes neither
    /// temperature by more than the engine can store.
    pub open spec fn conduction_fits(self, sharer: GasMixture, coefficient: i64) -> bool {
        let heat = self.spec_conduction(sharer, coefficient);
        let cooled = round_div(heat, self.spec_heat_capacity_archived() as int);
        let warmed = round_div(heat, sharer.spec_heat_capacity_archived() as int);
        &&& in_range(cooled)
        &&& in_range(warmed)
        &&& in_range(self.temperature - cooled)
        &&& in_range(sharer.temperature + warmed)
    }
}

/// Conduction conserves energy up to rounding: where two mixtures hold what
/// they archived, the heat that the one loses and the heat that the other
/// gains differ by no more than half of each heat capacity, which is what
/// rounding the two new temperatures to a millionth of a kelvin can make.
pub proof fn law_conduction_conserves_energy(a: GasMixture, b: GasMixture, coefficient: i64)
    requires
        a.wf(),
        b.wf(),
        a.gas == a.archived,
        b.gas == b.archived,
        a.conduction_fits(b, coefficient),
    ensures
        ({
            let after = a.spec_temperature_share(b, coefficient);
            let change = after.0.spec_heat_content() + after.1.spec_heat_content()
                - a.spec_heat_content() - b.spec_heat_content();
            -(magnitude(a.spec_heat_capacity() as int) + magnitude(b.spec_heat_capacity() as int))
                <= 2 * change <= magnitude(a.spec_heat_capacity() as int) + magnitude(
                b.spec_heat_capacity() as int,
            )
        }),
{
    reveal(GasMixture::spec_temperature_share);
    reveal(quot);
    if a.conducts_with(b) {
        let ca = a.spec_heat_capacity() as int;
        let cb = b.spec_heat_capacity() as int;
        let heat = a.spec_conduction(b, coefficient);
        let cooled = round_div(heat, ca);
        let warmed = round_div(heat, cb);
        lemma_round_div_error(heat, ca);
        lemma_round_div_error(heat, cb);
        let after = a.spec_temperature_share(b, coefficient);
        assert(after.0.temperature == a.temperature - cooled);
        assert(after.1.temperature == b.temperature + warmed);
        assert(after.0.spec_heat_capacity() == ca);
        assert(after.1.spec_heat_capacity() == cb);
        let ta = a.temperature as int;
        let tb = b.temperature as int;
        assert((ta - cooled) * ca + (tb + warmed) * cb - ta * ca - tb * cb == (warmed * cb - heat)
            - (cooled * ca - heat)) by (nonlinear_arith);
    }
}

/// Diffusion that moves no gas conserves energy up to rounding: where both
/// mixtures hold what they archived and the archived amounts are so close
/// that nothing moves, `share` only conducts heat, and the thermal energy of
/// the two together changes by no more than rounding the two temperatures
/// can make.
pub proof fn law_share_conserves_energy(a: GasMixture, b: GasMixture, adjacent_turfs: u32)
    requires
        a.wf(),
        b.wf(),
        a.gas == a.archived,
        b.gas == b.archived,
        a.spec_share_deltas(b, adjacent_turfs) == Composition::spec_empty(),
        a.conduction_fits(b, OPEN_HEAT_TRANSFER_COEFFICIENT),
    ensures
        ({
            let after = a.spec_share(b, adjacent_turfs);
            let change = after.0.spec_heat_content() + after.1.spec_heat_content()
                - a.spec_heat_content() - b.spec_heat_content();
            let energy_change = after.0.spec_thermal_energy() + after.1.spec_thermal_energy()
                - a.spec_thermal_energy() - b.spec_thermal_energy();
            let slack = magnitude(a.spec_heat_capacity() as int) + magnitude(
                b.spec_heat_capacity() as int,
            );
            &&& after.0.gas == a.gas
            &&& after.1.gas == b.gas
            &&& -slack <= 2 * change <= slack
            &&& -slack - 4 * SCALE <= 2 * SCALE * energy_change <= slack + 4 * SCALE
        }),
{
    reveal(GasMixture::spec_share_moved);
    reveal(GasMixture::spec_share_heated);
    reveal(rebalanced_temperature);
    reveal(quot);
    let after = a.spec_share(b, adjacent_turfs);
    let deltas = Composition::spec_empty();
    let moved = a.spec_share_moved(b, deltas);
    assert(moved.0.gas == a.gas && moved.1.gas == b.gas);
    if b.is_initialized && !a.archives_agree(b) && a.warmer_or_colder(b.temperature_archived) {
        let ca = a.spec_heat_capacity();
        let cb = b.spec_heat_capacity();
        let forward = deltas.spec_carried_forward();
        let back = deltas.spec_carried_back();
        assert(forward == 0 && back == 0);
        assert(forward * a.temperature_archived == 0 && back * b.temperature_archived == 0)
            by (nonlinear_arith)
            requires
                forward == 0,
                back == 0,
        ;
        if ca > MINIMUM_HEAT_CAPACITY {
            lemma_round_div_multiple(a.temperature as int, ca as int);
        }
        if cb > MINIMUM_HEAT_CAPACITY {
            lemma_round_div_multiple(b.temperature as int, cb as int);
        }
        let first = GasMixture {
            temperature: rebalanced_temperature(ca, moved.0.temperature, 0, 0, ca as int),
            ..moved.0
        };
        let second = GasMixture {
            temperature: rebalanced_temperature(cb, moved.1.temperature, 0, 0, cb as int),
            ..moved.1
        };
        assert(first.temperature == a.temperature);
        assert(second.temperature == b.temperature);
        if GasMixture::barely_changed(cb, cb as int) {
            assert(after == first.spec_temperature_share(second, OPEN_HEAT_TRANSFER_COEFFICIENT));
            assert(first.spec_conduction(second, OPEN_HEAT_TRANSFER_COEFFICIENT)
                == a.spec_conduction(b, OPEN_HEAT_TRANSFER_COEFFICIENT));
            law_conduction_conserves_energy(first, second, OPEN_HEAT_TRANSFER_COEFFICIENT);
            reveal(GasMixture::spec_temperature_share);
        } else {
            assert(after == (first, second));
        }
    }
    let slack = magnitude(a.spec_heat_capacity() as int) + magnitude(
        b.spec_heat_capacity() as int,
    );
    let (c0, c1, c2, c3) = (
        after.0.spec_heat_content(),
        after.1.spec_heat_content(),
        a.spec_heat_content(),
        b.spec_heat_content(),
    );
    assert(-slack <= 2 * (c0 + c1 - c2 - c3) <= slack);
    let (e0, e1, e2, e3) = (
        after.0.spec_thermal_energy(),
        after.1.spec_thermal_energy(),
        a.spec_thermal_energy(),
        b.spec_thermal_energy(),
    );
    lemma_round_div_error(c0, 1_000_000);
    lemma_round_div_error(c1, 1_000_000);
    lemma_round_div_error(c2, 1_000_000);
    lemma_round_div_error(c3, 1_000_000);
    assert(-slack - 4 * 1_000_000 <= 2 * 1_000_000 * (e0 + e1 - e2 - e3) <= slack + 4 * 1_000_000)
        by (nonlinear_arith)
        requires
            -slack <= 2 * (c0 + c1 - c2 - c3) <= slack,
            -1_000_000 <= 2 * (e0 * 1_000_000 - c0) <= 1_000_000,
            -1_000_000 <= 2 * (e1 * 1_000_000 - c1) <= 1_000_000,
            -1_000_000 <= 2 * (e2 * 1_000_000 - c2) <= 1_000_000,
            -1_000_000 <= 2 * (e3 * 1_000_000 - c3) <= 1_000_000,
    ;
}

/// Diffusion that moves no gas conserves energy to a part in a hundred
/// thousand: where, besides, no gas is negative, both mixtures are at one
/// kelvin at least and their heat capacities come to a quarter of a joule per
/// kelvin together, the thermal energy of the two changes by no more than a
/// hundred-thousandth of what it was.  Colder or thinner mixtures hold so
/// little energy that rounding it to a millionth of a joule weighs more.
pub proof fn law_share_conserves_energy_relatively(
    a: GasMixture,
    b: GasMixture,
    adjacent_turfs: u32,
)
    requires
        a.wf(),
        b.wf(),
        a.gas == a.archived,
        b.gas == b.archived,
        a.spec_share_deltas(b, adjacent_turfs) == Composition::spec_empty(),
        a.conduction_fits(b, OPEN_HEAT_TRANSFER_COEFFICIENT),
        a.gas.spec_non_negative(),
        b.gas.spec_non_negative(),
        a.temperature >= SCALE,
        b.temperature >= SCALE,
        a.spec_heat_capacity() + b.spec_heat_capacity() >= SCALE / 4,
    ensures
        ({
            let after = a.spec_share(b, adjacent_turfs);
            let before = a.spec_thermal_energy() + b.spec_thermal_energy();
            let change = after.0.spec_thermal_energy() + after.1.spec_thermal_energy() - before;
            &&& after.0.gas == a.gas
            &&& after.1.gas == b.gas
            &&& 100_000 * magnitude(change) <= before
        }),
{
    law_share_conserves_energy(a, b, adjacent_turfs);
    let after = a.spec_share(b, adjacent_turfs);
    let before = a.spec_thermal_energy() + b.spec_thermal_energy();
    let change = after.0.spec_thermal_energy() + after.1.spec_thermal_energy() - before;
    let ca = a.spec_heat_capacity() as int;
    let cb = b.spec_heat_capacity() as int;
    let ta = a.temperature as int;
    let tb = b.temperature as int;
    assert(ca >= 0 && cb >= 0);
    let ea = a.spec_thermal_energy();
    let eb = b.spec_thermal_energy();
    lemma_round_div_error(ta * ca, 1_000_000);
    lemma_round_div_error(tb * cb, 1_000_000);
    assert(ta * ca >= 1_000_000 * ca && tb * cb >= 1_000_000 * cb) by (nonlinear_arith)
        requires
            ta >= 1_000_000,
            tb >= 1_000_000,
            ca >= 0,
            cb >= 0,
    ;
    assert(-(ca + cb) - 4_000_000 <= 2_000_000 * change <= ca + cb + 4_000_000) by {
        assert(2 * SCALE * change == 2_000_000 * change) by (nonlinear_arith)
            requires
                SCALE == 1_000_000,
        ;
    }
    assert(2_000_000 * before >= 2_000_000 * (ca + cb) - 2_000_000) by (nonlinear_arith)
        requires
            before == ea + eb,
            -1_000_000 <= 2 * (ea * 1_000_000 - ta * ca) <= 1_000_000,
            -1_000_000 <= 2 * (eb * 1_000_000 - tb * cb) <= 1_000_000,
            ta * ca >= 1_000_000 * ca,
            tb * cb >= 1_000_000 * cb,
    ;
    assert(100_000 * magnitude(change) <= before) by (nonlinear_arith)
        requires
            -(ca + cb) - 4_000_000 <= 2_000_000 * change <= ca + cb + 4_000_000,
            2_000_000 * before >= 2_000_000 * (ca + cb) - 2_000_000,
            ca + cb >= 250_000,
    ;
}

/// A vacated slot reads as nothing: every gas and every archived value is
/// zero, the volume is that of a cell, and the slot is not initialized.
pub proof fn law_unregister_resets(slots: Seq<GasMixture>, id: int)
    requires
        0 <= id < slots.len(),
    ensures
        ({
            let slot = slots.update(id, GasMixture::spec_vacant())[id];
            &&& slot.gas == Composition::spec_empty()
            &&& slot.archived == Composition::spec_empty()
            &&& slot.gas.spec_total() == 0
            &&& slot.temperature == 0
            &&& slot.temperature_archived == 0
            &&& slot.last_share == 0
            &&& slot.fuel_burnt == 0
            &&& slot.volume == CELL_VOLUME
            &&& slot.volume == 2_500_000_000
            &&& !slot.is_initialized
        }),
{
}

} // verus!
