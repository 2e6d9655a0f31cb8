//! The operations of the engine on the mixtures of a store, by handle.
use crate::fixed::clamp;
use crate::gas::{Composition, GasMixture, Turf};
use crate::store::{GasError, Mixture};
use vstd::prelude::*;

verus! {

/// The store after mixture `id` has given `taken` to mixture `into`, or after
/// `into` has been vacated where nothing was taken.  The receiver is written
/// first, so a mixture that gives to itself ends up with none of the gases.
pub open spec fn moved_out(
    slots: Seq<GasMixture>,
    id: int,
    into: int,
    taken: Option<Composition>,
) -> Seq<GasMixture> {
    match taken {
        Some(gases) => {
            let received = slots.update(into, slots[into].spec_receive(gases, slots[id]));
            received.update(id, received[id].spec_give(gases))
        },
        None => slots.update(into, GasMixture::spec_vacant()),
    }
}

impl Mixture {

    /// Whether slot `id` holds a live mixture.
    pub fn get_is_initialized(&self, id: usize) -> (r: Result<bool, GasError>)
        requires
            self.wf(),
        ensures
            id < self@.len() ==> r == Ok::<bool, GasError>(self@[id as int].is_initialized),
            id >= self@.len() ==> r == Err::<bool, GasError>(GasError::HandleOutOfRange),
    {
        if id >= self.capacity() {
            return Err(GasError::HandleOutOfRange);
        }
        Ok(self.at(id).is_initialized)
    }

    /// Heat capacity of the mixture `id`: the sum over its gases of moles
    /// times specific heat.
    pub fn heat_capacity(&self, id: usize) -> (r: Result<i64, GasError>)
        requires
            self.wf(),
        ensures
            id < self@.len() ==> r == Ok::<i64, GasError>(self@[id as int].spec_heat_capacity()),
            id >= self@.len() ==> r == Err::<i64, GasError>(GasError::HandleOutOfRange),
    {
        if id >= self.capacity() {
            return Err(GasError::HandleOutOfRange);
        }
        Ok(self.at(id).heat_capacity())
    }

    /// Heat capacity of what the mixture `id` archived.
    pub fn get_heat_capacity_archived(&self, id: usize) -> (r: Result<i64, GasError>)
        requires
            self.wf(),
        ensures
            id < self@.len() ==> r == Ok::<i64, GasError>(self@[id as int].spec_heat_capacity_archived()),
            id >= self@.len() ==> r == Err::<i64, GasError>(GasError::HandleOutOfRange),
    {
        if id >= self.capacity() {
            return Err(GasError::HandleOutOfRange);
        }
        Ok(self.at(id).get_heat_capacity_archived())
    }

    /// Moles of all gases in the mixture `id`.
    pub fn total_moles(&self, id: usize) -> (r: Result<i64, GasError>)
        requires
            self.wf(),
        ensures
            id < self@.len() ==> r == Ok::<i64, GasError>(self@[id as int].spec_total_moles()),
            id >= self@.len() ==> r == Err::<i64, GasError>(GasError::HandleOutOfRange),
    {
        if id >= self.capacity() {
            return Err(GasError::HandleOutOfRange);
        }
        Ok(self.at(id).total_moles())
    }

    /// Moles of sleeping agent and agent B in the mixture `id`.
    pub fn get_total_trace_moles(&self, id: usize) -> (r: Result<i64, GasError>)
        requires
            self.wf(),
        ensures
            id < self@.len() ==> r == Ok::<i64, GasError>(self@[id as int].spec_total_trace_moles()),
            id >= self@.len() ==> r == Err::<i64, GasError>(GasError::HandleOutOfRange),
    {
        if id >= self.capacity() {
            return Err(GasError::HandleOutOfRange);
        }
        Ok(self.at(id).get_total_trace_moles())
    }

    /// Pressure of the mixture `id` by the ideal gas law, zero where its volume
    /// is not positive.
    pub fn return_pressure(&self, id: usize) -> (r: Result<i64, GasError>)
        requires
            self.wf(),
        ensures
            id < self@.len() ==> r == Ok::<i64, GasError>(self@[id as int].spec_return_pressure()),
            id >= self@.len() ==> r == Err::<i64, GasError>(GasError::HandleOutOfRange),
    {
        if id >= self.capacity() {
            return Err(GasError::HandleOutOfRange);
        }
        Ok(self.at(id).return_pressure())
    }

    /// Volume of the mixture `id`, a negative one read as zero.
    pub fn return_volume(&self, id: usize) -> (r: Result<i64, GasError>)
        requires
            self.wf(),
        ensures
            id < self@.len() ==> r == Ok::<i64, GasError>(self@[id as int].spec_return_volume()),
            id >= self@.len() ==> r == Err::<i64, GasError>(GasError::HandleOutOfRange),
    {
        if id >= self.capacity() {
            return Err(GasError::HandleOutOfRange);
        }
        Ok(self.at(id).return_volume())
    }

    /// Thermal energy of the mixture `id`: temperature times heat capacity.
    pub fn thermal_energy(&self, id: usize) -> (r: Result<i128, GasError>)
        requires
            self.wf(),
        ensures
            id < self@.len() ==> r == Ok::<i128, GasError>(self@[id as int].spec_thermal_energy() as i128),
            id >= self@.len() ==> r == Err::<i128, GasError>(GasError::HandleOutOfRange),
    {
        if id >= self.capacity() {
            return Err(GasError::HandleOutOfRange);
        }
        Ok(self.at(id).thermal_energy())
    }

    /// Partial pressure in a breath of a gas of which the mixture `id` holds
    /// `gas_pressure`.
    pub fn get_breath_partial_pressure(&self, id: usize, gas_pressure: i64) -> (r: Result<i64, GasError>)
        requires
            self.wf(),
        ensures
            id < self@.len() ==> r == Ok::<i64, GasError>(self@[id as int].spec_breath_partial_pressure(gas_pressure)),
            id >= self@.len() ==> r == Err::<i64, GasError>(GasError::HandleOutOfRange),
    {
        if id >= self.capacity() {
            return Err(GasError::HandleOutOfRange);
        }
        Ok(self.at(id).get_breath_partial_pressure(gas_pressure))
    }

    /// The inverse of `get_breath_partial_pressure`.
    pub fn get_true_breath_pressure(&self, id: usize, breath_pp: i64) -> (r: Result<i64, GasError>)
        requires
            self.wf(),
        ensures
            id < self@.len() ==> r == Ok::<i64, GasError>(self@[id as int].spec_true_breath_pressure(breath_pp)),
            id >= self@.len() ==> r == Err::<i64, GasError>(GasError::HandleOutOfRange),
    {
        if id >= self.capacity() {
            return Err(GasError::HandleOutOfRange);
        }
        Ok(self.at(id).get_true_breath_pressure(breath_pp))
    }

    /// Whether what the mixture `id` archived is close enough to the cell
    /// `turf_model` for its group to rest.
    pub fn check_turf(&self, id: usize, turf_model: Turf, adjacent_turfs: u32) -> (r: Result<bool, GasError>)
        requires
            self.wf(),
        ensures
            id < self@.len() ==> r == Ok::<bool, GasError>(self@[id as int].spec_check_turf(turf_model, adjacent_turfs)),
            id >= self@.len() ==> r == Err::<bool, GasError>(GasError::HandleOutOfRange),
    {
        if id >= self.capacity() {
            return Err(GasError::HandleOutOfRange);
        }
        Ok(self.at(id).check_turf(turf_model, adjacent_turfs))
    }

    /// Whether what the mixture `id` holds now is close enough to the cell
    /// `turf_model` for its group to rest.
    pub fn check_turf_total(&self, id: usize, turf_model: Turf, adjacent_turfs: u32) -> (r: Result<
        bool,
        GasError,
    >)
        requires
            self.wf(),
        ensures
            id < self@.len() ==> r == Ok::<bool, GasError>(
                self@[id as int].spec_check_turf_total(turf_model, adjacent_turfs),
            ),
            id >= self@.len() ==> r == Err::<bool, GasError>(GasError::HandleOutOfRange),
    {
        if id >= self.capacity() {
            return Err(GasError::HandleOutOfRange);
        }
        Ok(self.at(id).check_turf_total(turf_model, adjacent_turfs))
    }

    /// Marks slot `id` as holding a live mixture.  What the slot held before
    /// stays: only `unregister` clears a slot.
    pub fn register(&mut self, id: usize) -> (r: Result<(), GasError>)
        requires
            old(self).wf(),
        ensures
            final(self).wf(),
            id < old(self)@.len() ==> r.is_ok() && final(self)@ == old(self)@.update(
                id as int,
                (GasMixture { is_initialized: true, ..old(self)@[id as int] }),
            ),
            id >= old(self)@.len() ==> r == Err::<(), GasError>(GasError::HandleOutOfRange)
                && final(self)@ == old(self)@,
    {
        if id >= self.capacity() {
            return Err(GasError::HandleOutOfRange);
        }
        let mut mixture: GasMixture = self.at(id);
        mixture.is_initialized = true;
        self.put(id, mixture);
        Ok(())
    }

    /// Sets whether slot `id` holds a live mixture.
    pub fn set_is_initialized(&mut self, id: usize, value: bool) -> (r: Result<(), GasError>)
        requires
            old(self).wf(),
        ensures
            final(self).wf(),
            id < old(self)@.len() ==> r.is_ok() && final(self)@ == old(self)@.update(
                id as int,
                (GasMixture { is_initialized: value, ..old(self)@[id as int] }),
            ),
            id >= old(self)@.len() ==> r == Err::<(), GasError>(GasError::HandleOutOfRange)
                && final(self)@ == old(self)@,
    {
        if id >= self.capacity() {
            return Err(GasError::HandleOutOfRange);
        }
        let mut mixture: GasMixture = self.at(id);
        mixture.is_initialized = value;
        self.put(id, mixture);
        Ok(())
    }

    /// Vacates slot `id`: no gas, zero kelvins, nothing archived, a cell's
    /// volume, and not initialized.
    pub fn unregister(&mut self, id: usize) -> (r: Result<(), GasError>)
        requires
            old(self).wf(),
        ensures
            final(self).wf(),
            id < old(self)@.len() ==> r.is_ok() && final(self)@ == old(self)@.update(
                id as int,
                GasMixture::spec_vacant(),
            ),
            id >= old(self)@.len() ==> r == Err::<(), GasError>(GasError::HandleOutOfRange)
                && final(self)@ == old(self)@,
    {
        if id >= self.capacity() {
            return Err(GasError::HandleOutOfRange);
        }
        let mut mixture: GasMixture = self.at(id);
        mixture = GasMixture::vacant();
        self.put(id, mixture);
        Ok(())
    }

    /// One reaction step of the mixture `id`.  Returns whether a reaction took
    /// place.
    pub fn react(&mut self, id: usize) -> (r: Result<bool, GasError>)
        requires
            old(self).wf(),
        ensures
            final(self).wf(),
            id < old(self)@.len() ==> r == Ok::<bool, GasError>(old(self)@[id as int].spec_reacted()) && final(self)@ == old(self)@.update(
                id as int,
                old(self)@[id as int].spec_react(),
            ),
            id >= old(self)@.len() ==> r == Err::<bool, GasError>(GasError::HandleOutOfRange)
                && final(self)@ == old(self)@,
    {
        if id >= self.capacity() {
            return Err(GasError::HandleOutOfRange);
        }
        let mut mixture: GasMixture = self.at(id);
        let reacting: bool = mixture.react();
        self.put(id, mixture);
        Ok(reacting)
    }

    /// Archives the gases and the temperature of the mixture `id`.
    pub fn archive(&mut self, id: usize) -> (r: Result<(), GasError>)
        requires
            old(self).wf(),
        ensures
            final(self).wf(),
            id < old(self)@.len() ==> r.is_ok() && final(self)@ == old(self)@.update(
                id as int,
                old(self)@[id as int].spec_archive(),
            ),
            id >= old(self)@.len() ==> r == Err::<(), GasError>(GasError::HandleOutOfRange)
                && final(self)@ == old(self)@,
    {
        if id >= self.capacity() {
            return Err(GasError::HandleOutOfRange);
        }
        let mut mixture: GasMixture = self.at(id);
        mixture.archive();
        self.put(id, mixture);
        Ok(())
    }

    /// One-sided exchange of the mixture `id` with the cell `turf_model`.
    /// Returns the pressure difference between the two.
    pub fn mimic(&mut self, id: usize,
        turf_model: Turf,
        model_thermal_conductivity: i64,
        model_heat_capacity: i64,
        adjacent_turfs: u32) -> (r: Result<i64, GasError>)
        requires
            old(self).wf(),
        ensures
            final(self).wf(),
            id < old(self)@.len() ==> r == Ok::<i64, GasError>(old(self)@[id as int].spec_mimic_pressure(
                turf_model,
                model_thermal_conductivity,
                model_heat_capacity,
                adjacent_turfs,
            )) && final(self)@ == old(self)@.update(
                id as int,
                old(self)@[id as int].spec_mimic(
                    turf_model,
                    model_thermal_conductivity,
                    model_heat_capacity,
                    adjacent_turfs,
                ),
            ),
            id >= old(self)@.len() ==> r == Err::<i64, GasError>(GasError::HandleOutOfRange)
                && final(self)@ == old(self)@,
    {
        if id >= self.capacity() {
            return Err(GasError::HandleOutOfRange);
        }
        let mut mixture: GasMixture = self.at(id);
        let pressure: i64 = mixture.mimic(
            turf_model,
            model_thermal_conductivity,
            model_heat_capacity,
            adjacent_turfs,
        );
        self.put(id, mixture);
        Ok(pressure)
    }

    /// Conduction between the mixture `id` and a body that is no mixture.
    pub fn temperature_mimic(&mut self, id: usize,
        model_temperature: i64,
        model_heat_capacity: i64,
        conduction_coefficient: i64) -> (r: Result<(), GasError>)
        requires
            old(self).wf(),
        ensures
            final(self).wf(),
            id < old(self)@.len() ==> r.is_ok() && final(self)@ == old(self)@.update(
                id as int,
                (GasMixture {
                    temperature: old(self)@[id as int].spec_temperature_mimic(
                        model_temperature,
                        model_heat_capacity,
                        conduction_coefficient,
                    ),
                    ..old(self)@[id as int]
                }),
            ),
            id >= old(self)@.len() ==> r == Err::<(), GasError>(GasError::HandleOutOfRange)
                && final(self)@ == old(self)@,
    {
        if id >= self.capacity() {
            return Err(GasError::HandleOutOfRange);
        }
        let mut mixture: GasMixture = self.at(id);
        mixture.temperature_mimic(model_temperature, model_heat_capacity, conduction_coefficient);
        self.put(id, mixture);
        Ok(())
    }

    /// Whether the archived temperature of the mixture `id` and the
    /// temperature of the cell it stands on differ by more than half a
    /// kelvin.  Where they do not, `temperature_turf_share` does nothing,
    /// whatever the heat capacity of the cell.
    pub fn turf_temperature_differs(&self, id: usize, turf_temperature: i64) -> (r: Result<
        bool,
        GasError,
    >)
        requires
            self.wf(),
        ensures
            id < self@.len() ==> r == Ok::<bool, GasError>(
                self@[id as int].warmer_or_colder(clamp(turf_temperature as int)),
            ),
            id >= self@.len() ==> r == Err::<bool, GasError>(GasError::HandleOutOfRange),
    {
        if id >= self.capacity() {
            return Err(GasError::HandleOutOfRange);
        }
        Ok(self.at(id).turf_temperature_differs(turf_temperature))
    }

    /// Conduction between the mixture `id` and the cell it stands on.
    /// Returns the new temperature of the cell where heat moved, for the
    /// host to store.
    pub fn temperature_turf_share(
        &mut self,
        id: usize,
        turf_temperature: i64,
        turf_heat_capacity: i64,
        conduction_coefficient: i64,
    ) -> (r: Result<Option<i64>, GasError>)
        requires
            old(self).wf(),
        ensures
            final(self).wf(),
            id < old(self)@.len() ==> match old(self)@[id as int].spec_temperature_turf_share(
                turf_temperature,
                turf_heat_capacity,
                conduction_coefficient,
            ) {
                Some(temperatures) => r == Ok::<Option<i64>, GasError>(Some(temperatures.1))
                    && final(self)@ == old(self)@.update(
                    id as int,
                    (GasMixture { temperature: temperatures.0, ..old(self)@[id as int] }),
                ),
                None => r == Ok::<Option<i64>, GasError>(None) && final(self)@ == old(self)@,
            },
            id >= old(self)@.len() ==> r == Err::<Option<i64>, GasError>(
                GasError::HandleOutOfRange,
            ) && final(self)@ == old(self)@,
    {
        if id >= self.capacity() {
            return Err(GasError::HandleOutOfRange);
        }
        let mut mixture: GasMixture = self.at(id);
        let warmed: Option<i64> = mixture.temperature_turf_share(
            turf_temperature,
            turf_heat_capacity,
            conduction_coefficient,
        );
        self.put(id, mixture);
        assert(warmed.is_none() ==> self@ =~= old(self)@);
        Ok(warmed)
    }

    /// Whether both handles name slots of the store.
    pub open spec fn holds(&self, id: usize, other: usize) -> bool {
        id < self@.len() && other < self@.len()
    }

    /// Whether the mixture `id` is close enough to the mixture `sample_id`
    /// for their group to rest.
    pub fn compare(&self, id: usize, sample_id: usize) -> (r: Result<bool, GasError>)
        requires
            self.wf(),
        ensures
            self.holds(id, sample_id) ==> r == Ok::<bool, GasError>(
                self@[id as int].spec_compare(self@[sample_id as int]),
            ),
            !self.holds(id, sample_id) ==> r == Err::<bool, GasError>(GasError::HandleOutOfRange),
    {
        if id >= self.capacity() || sample_id >= self.capacity() {
            return Err(GasError::HandleOutOfRange);
        }
        let sample: GasMixture = self.at(sample_id);
        Ok(self.at(id).compare(&sample))
    }

    /// Overwrites the gases and the temperature of the mixture `id` with
    /// those of the mixture `sample_id`.
    pub fn copy_from(&mut self, id: usize, sample_id: usize) -> (r: Result<(), GasError>)
        requires
            old(self).wf(),
        ensures
            final(self).wf(),
            old(self).holds(id, sample_id) ==> r.is_ok() && final(self)@ == old(self)@.update(
                id as int,
                old(self)@[id as int].spec_copy_from(old(self)@[sample_id as int]),
            ),
            !old(self).holds(id, sample_id) ==> r == Err::<(), GasError>(
                GasError::HandleOutOfRange,
            ) && final(self)@ == old(self)@,
    {
        if id >= self.capacity() || sample_id >= self.capacity() {
            return Err(GasError::HandleOutOfRange);
        }
        let sample: GasMixture = self.at(sample_id);
        let mut mixture: GasMixture = self.at(id);
        mixture.copy_from(&sample);
        self.put(id, mixture);
        Ok(())
    }

    /// Lets the mixture `id` absorb the gas of the mixture `giver_id`.
    /// Returns whether the giver was initialized, and so anything was done.
    pub fn merge(&mut self, id: usize, giver_id: usize) -> (r: Result<bool, GasError>)
        requires
            old(self).wf(),
        ensures
            final(self).wf(),
            old(self).holds(id, giver_id) ==> r == Ok::<bool, GasError>(
                old(self)@[giver_id as int].is_initialized,
            ) && final(self)@ == old(self)@.update(
                id as int,
                old(self)@[id as int].spec_merge(old(self)@[giver_id as int]),
            ),
            !old(self).holds(id, giver_id) ==> r == Err::<bool, GasError>(
                GasError::HandleOutOfRange,
            ) && final(self)@ == old(self)@,
    {
        if id >= self.capacity() || giver_id >= self.capacity() {
            return Err(GasError::HandleOutOfRange);
        }
        let giver: GasMixture = self.at(giver_id);
        let mut mixture: GasMixture = self.at(id);
        let merged: bool = mixture.merge(&giver);
        self.put(id, mixture);
        Ok(merged)
    }

    /// Moves `taken` from the mixture `id` into the mixture `removed_id`, or
    /// vacates the latter where nothing is taken.
    fn move_out(&mut self, id: usize, removed_id: usize, taken: Option<Composition>)
        requires
            old(self).wf(),
            old(self).holds(id, removed_id),
            taken.is_some() ==> taken.unwrap().wf(),
        ensures
            final(self).wf(),
            final(self)@ == moved_out(old(self)@, id as int, removed_id as int, taken),
    {
        match taken {
            Some(gases) => {
                let source: GasMixture = self.at(id);
                let mut removed: GasMixture = self.at(removed_id);
                removed.gas = gases;
                removed.temperature = source.temperature;
                self.put(removed_id, removed);
                let mut mixture: GasMixture = self.at(id);
                mixture.gas = mixture.gas.minus(&gases);
                self.put(id, mixture);
            },
            None => {
                self.put(removed_id, GasMixture::vacant());
            },
        }
    }

    /// Takes `amount` moles out of the mixture `id` and puts them into the
    /// mixture `removed_id`, which is vacated instead where nothing is to be
    /// taken.
    pub fn remove(&mut self, id: usize, removed_id: usize, amount: i64) -> (r: Result<
        (),
        GasError,
    >)
        requires
            old(self).wf(),
        ensures
            final(self).wf(),
            old(self).holds(id, removed_id) ==> r.is_ok() && final(self)@ == moved_out(
                old(self)@,
                id as int,
                removed_id as int,
                old(self)@[id as int].spec_taken(amount),
            ),
            !old(self).holds(id, removed_id) ==> r == Err::<(), GasError>(
                GasError::HandleOutOfRange,
            ) && final(self)@ == old(self)@,
    {
        if id >= self.capacity() || removed_id >= self.capacity() {
            return Err(GasError::HandleOutOfRange);
        }
        let taken: Option<Composition> = self.at(id).taken(amount);
        self.move_out(id, removed_id, taken);
        Ok(())
    }

    /// Takes the share `ratio` of the mixture `id` and puts it into the
    /// mixture `removed_id`, which is vacated instead where the ratio is not
    /// positive.
    pub fn remove_ratio(&mut self, id: usize, removed_id: usize, ratio: i64) -> (r: Result<
        (),
        GasError,
    >)
        requires
            old(self).wf(),
        ensures
            final(self).wf(),
            old(self).holds(id, removed_id) ==> r.is_ok() && final(self)@ == moved_out(
                old(self)@,
                id as int,
                removed_id as int,
                old(self)@[id as int].spec_taken_ratio(ratio),
            ),
            !old(self).holds(id, removed_id) ==> r == Err::<(), GasError>(
                GasError::HandleOutOfRange,
            ) && final(self)@ == old(self)@,
    {
        if id >= self.capacity() || removed_id >= self.capacity() {
            return Err(GasError::HandleOutOfRange);
        }
        let taken: Option<Composition> = self.at(id).taken_ratio(ratio);
        self.move_out(id, removed_id, taken);
        Ok(())
    }

    /// Diffusion between the mixtures `id` and `sharer_id`.  Returns the
    /// pressure difference between them, or zero where it is not worth
    /// reporting.  Two mixtures that archived the same, and a sharer that is
    /// not initialized, are left as they are.
    pub fn share(&mut self, id: usize, sharer_id: usize, adjacent_turfs: u32) -> (r: Result<
        i64,
        GasError,
    >)
        requires
            old(self).wf(),
        ensures
            final(self).wf(),
            old(self).holds(id, sharer_id) ==> r == Ok::<i64, GasError>(
                old(self)@[id as int].spec_share_pressure(
                    old(self)@[sharer_id as int],
                    adjacent_turfs,
                ),
            ) && final(self)@ == old(self)@.update(
                id as int,
                old(self)@[id as int].spec_share(old(self)@[sharer_id as int], adjacent_turfs).0,
            ).update(
                sharer_id as int,
                old(self)@[id as int].spec_share(old(self)@[sharer_id as int], adjacent_turfs).1,
            ),
            old(self).holds(id, sharer_id) && old(self)@[id as int].archives_agree(
                old(self)@[sharer_id as int],
            ) ==> r == Ok::<i64, GasError>(0) && final(self)@ == old(self)@,
            !old(self).holds(id, sharer_id) ==> r == Err::<i64, GasError>(
                GasError::HandleOutOfRange,
            ) && final(self)@ == old(self)@,
    {
        if id >= self.capacity() || sharer_id >= self.capacity() {
            return Err(GasError::HandleOutOfRange);
        }
        let mut mixture: GasMixture = self.at(id);
        let mut sharer: GasMixture = self.at(sharer_id);
        let pressure: i64 = mixture.share(&mut sharer, adjacent_turfs);
        self.put(id, mixture);
        self.put(sharer_id, sharer);
        assert(old(self)@[id as int].archives_agree(old(self)@[sharer_id as int]) ==> self@
            =~= old(self)@);
        Ok(pressure)
    }

    /// Conduction between the mixtures `id` and `sharer_id`, by what they
    /// archived.
    pub fn temperature_share(
        &mut self,
        id: usize,
        sharer_id: usize,
        conduction_coefficient: i64,
    ) -> (r: Result<(), GasError>)
        requires
            old(self).wf(),
        ensures
            final(self).wf(),
            old(self).holds(id, sharer_id) ==> r.is_ok() && final(self)@ == old(self)@.update(
                id as int,
                old(self)@[id as int].spec_temperature_share(
                    old(self)@[sharer_id as int],
                    conduction_coefficient,
                ).0,
            ).update(
                sharer_id as int,
                old(self)@[id as int].spec_temperature_share(
                    old(self)@[sharer_id as int],
                    conduction_coefficient,
                ).1,
            ),
            !old(self).holds(id, sharer_id) ==> r == Err::<(), GasError>(
                GasError::HandleOutOfRange,
            ) && final(self)@ == old(self)@,
    {
        if id >= self.capacity() || sharer_id >= self.capacity() {
            return Err(GasError::HandleOutOfRange);
        }
        let mut mixture: GasMixture = self.at(id);
        let mut sharer: GasMixture = self.at(sharer_id);
        mixture.temperature_share(&mut sharer, conduction_coefficient);
        self.put(id, mixture);
        self.put(sharer_id, sharer);
        Ok(())
    }
}

} // verus!
