//! The store of all gas mixtures: one column per quantity, one slot per
//! handle.
use crate::constants::CELL_VOLUME;
use crate::fixed::{clamp, saturate};
use crate::gas::{Composition, GasMixture};
use vstd::prelude::*;

verus! {

/// Why the store refused a call.
#[derive(Clone, Copy, Debug, PartialEq, Eq, Structural)]
pub enum GasError {
    /// The handle names no slot of the store.
    HandleOutOfRange,
}

/// All gas mixtures of a world, as a struct of arrays: a handle is an index
/// into every column.
#[derive(Debug)]
pub struct Mixture {
    oxygen: Vec<i64>,
    carbon_dioxide: Vec<i64>,
    nitrogen: Vec<i64>,
    toxins: Vec<i64>,
    sleeping_agent: Vec<i64>,
    agent_b: Vec<i64>,
    oxygen_archived: Vec<i64>,
    carbon_dioxide_archived: Vec<i64>,
    nitrogen_archived: Vec<i64>,
    toxins_archived: Vec<i64>,
    sleeping_agent_archived: Vec<i64>,
    agent_b_archived: Vec<i64>,
    volume: Vec<i64>,
    temperature: Vec<i64>,
    last_share: Vec<i64>,
    temperature_archived: Vec<i64>,
    fuel_burnt: Vec<i64>,
    is_initialized: Vec<bool>,
}

impl Mixture {
    /// Number of slots that are allocated where the caller names no number.
    pub const DEFAULT_ALLOCATED_GAS_MIXTURES_COUNT: usize = 1_000_000;

    /// The mixture that the columns hold in slot `i`.
    pub closed spec fn slot(&self, i: int) -> GasMixture {
        GasMixture {
            gas: Composition {
                oxygen: self.oxygen@[i],
                carbon_dioxide: self.carbon_dioxide@[i],
                nitrogen: self.nitrogen@[i],
                toxins: self.toxins@[i],
                sleeping_agent: self.sleeping_agent@[i],
                agent_b: self.agent_b@[i],
            },
            archived: Composition {
                oxygen: self.oxygen_archived@[i],
                carbon_dioxide: self.carbon_dioxide_archived@[i],
                nitrogen: self.nitrogen_archived@[i],
                toxins: self.toxins_archived@[i],
                sleeping_agent: self.sleeping_agent_archived@[i],
                agent_b: self.agent_b_archived@[i],
            },
            temperature: self.temperature@[i],
            temperature_archived: self.temperature_archived@[i],
            volume: self.volume@[i],
            last_share: self.last_share@[i],
            fuel_burnt: self.fuel_burnt@[i],
            is_initialized: self.is_initialized@[i],
        }
    }

    /// The mixtures in the store, by handle.
    pub closed spec fn view(&self) -> Seq<GasMixture> {
        Seq::new(self.is_initialized@.len(), |i: int| self.slot(i))
    }

    /// All columns are of one length, and every quantity is in range.
    pub closed spec fn wf(&self) -> bool {
        &&& self.oxygen@.len() == self.is_initialized@.len()
        &&& self.carbon_dioxide@.len() == self.is_initialized@.len()
        &&& self.nitrogen@.len() == self.is_initialized@.len()
        &&& self.toxins@.len() == self.is_initialized@.len()
        &&& self.sleeping_agent@.len() == self.is_initialized@.len()
        &&& self.agent_b@.len() == self.is_initialized@.len()
        &&& self.oxygen_archived@.len() == self.is_initialized@.len()
        &&& self.carbon_dioxide_archived@.len() == self.is_initialized@.len()
        &&& self.nitrogen_archived@.len() == self.is_initialized@.len()
        &&& self.toxins_archived@.len() == self.is_initialized@.len()
        &&& self.sleeping_agent_archived@.len() == self.is_initialized@.len()
        &&& self.agent_b_archived@.len() == self.is_initialized@.len()
        &&& self.volume@.len() == self.is_initialized@.len()
        &&& self.temperature@.len() == self.is_initialized@.len()
        &&& self.last_share@.len() == self.is_initialized@.len()
        &&& self.temperature_archived@.len() == self.is_initialized@.len()
        &&& self.fuel_burnt@.len() == self.is_initialized@.len()
        &&& forall|i: int| 0 <= i < self.is_initialized@.len() ==> (#[trigger] self.slot(i)).wf()
    }

    /// A store of `capacity` vacant slots.
    pub fn new(capacity: usize) -> (store: Mixture)
        ensures
            store.wf(),
            store@.len() == capacity,
            forall|i: int| 0 <= i < capacity ==> store@[i] == GasMixture::spec_vacant(),
    {
        let store = Mixture {
            oxygen: vec![0i64; capacity],
            carbon_dioxide: vec![0i64; capacity],
            nitrogen: vec![0i64; capacity],
            toxins: vec![0i64; capacity],
            sleeping_agent: vec![0i64; capacity],
            agent_b: vec![0i64; capacity],
            oxygen_archived: vec![0i64; capacity],
            carbon_dioxide_archived: vec![0i64; capacity],
            nitrogen_archived: vec![0i64; capacity],
            toxins_archived: vec![0i64; capacity],
            sleeping_agent_archived: vec![0i64; capacity],
            agent_b_archived: vec![0i64; capacity],
            volume: vec![CELL_VOLUME; capacity],
            temperature: vec![0i64; capacity],
            last_share: vec![0i64; capacity],
            temperature_archived: vec![0i64; capacity],
            fuel_burnt: vec![0i64; capacity],
            is_initialized: vec![false; capacity],
        };
        assert forall|i: int| 0 <= i < capacity implies store.slot(i)
            == GasMixture::spec_vacant() by {}
        store
    }

    /// Number of slots.
    pub fn capacity(&self) -> (r: usize)
        requires
            self.wf(),
        ensures
            r == self@.len(),
    {
        self.is_initialized.len()
    }

    /// The mixture in slot `id`.
    pub fn load(&self, id: usize) -> (r: Result<GasMixture, GasError>)
        requires
            self.wf(),
        ensures
            id < self@.len() ==> r == Ok::<GasMixture, GasError>(self@[id as int]) && self@[id as int].wf(),
            id >= self@.len() ==> r == Err::<GasMixture, GasError>(GasError::HandleOutOfRange),
    {
        if id >= self.is_initialized.len() {
            return Err(GasError::HandleOutOfRange);
        }
        Ok(self.at(id))
    }

    /// The mixture in slot `id`.
    pub(crate) fn at(&self, id: usize) -> (r: GasMixture)
        requires
            self.wf(),
            id < self@.len(),
        ensures
            r == self@[id as int],
            r.wf(),
    {
        assert(self.slot(id as int).wf());
        GasMixture {
            gas: Composition {
                oxygen: self.oxygen[id],
                carbon_dioxide: self.carbon_dioxide[id],
                nitrogen: self.nitrogen[id],
                toxins: self.toxins[id],
                sleeping_agent: self.sleeping_agent[id],
                agent_b: self.agent_b[id],
            },
            archived: Composition {
                oxygen: self.oxygen_archived[id],
                carbon_dioxide: self.carbon_dioxide_archived[id],
                nitrogen: self.nitrogen_archived[id],
                toxins: self.toxins_archived[id],
                sleeping_agent: self.sleeping_agent_archived[id],
                agent_b: self.agent_b_archived[id],
            },
            temperature: self.temperature[id],
            temperature_archived: self.temperature_archived[id],
            volume: self.volume[id],
            last_share: self.last_share[id],
            fuel_burnt: self.fuel_burnt[id],
            is_initialized: self.is_initialized[id],
        }
    }

    /// Puts `mixture` into slot `id`.
    pub(crate) fn put(&mut self, id: usize, mixture: GasMixture)
        requires
            old(self).wf(),
            id < old(self)@.len(),
            mixture.wf(),
        ensures
            final(self).wf(),
            final(self)@ == old(self)@.update(id as int, mixture),
    {
        self.oxygen.set(id, mixture.gas.oxygen);
        self.carbon_dioxide.set(id, mixture.gas.carbon_dioxide);
        self.nitrogen.set(id, mixture.gas.nitrogen);
        self.toxins.set(id, mixture.gas.toxins);
        self.sleeping_agent.set(id, mixture.gas.sleeping_agent);
        self.agent_b.set(id, mixture.gas.agent_b);
        self.oxygen_archived.set(id, mixture.archived.oxygen);
        self.carbon_dioxide_archived.set(id, mixture.archived.carbon_dioxide);
        self.nitrogen_archived.set(id, mixture.archived.nitrogen);
        self.toxins_archived.set(id, mixture.archived.toxins);
        self.sleeping_agent_archived.set(id, mixture.archived.sleeping_agent);
        self.agent_b_archived.set(id, mixture.archived.agent_b);
        self.temperature.set(id, mixture.temperature);
        self.temperature_archived.set(id, mixture.temperature_archived);
        self.volume.set(id, mixture.volume);
        self.last_share.set(id, mixture.last_share);
        self.fuel_burnt.set(id, mixture.fuel_burnt);
        self.is_initialized.set(id, mixture.is_initialized);
        assert forall|i: int| 0 <= i < self.is_initialized@.len() implies (#[trigger] self.slot(
            i,
        )).wf() && self.slot(i) == old(self)@.update(id as int, mixture)[i] by {
            if i != id {
                assert(self.slot(i) == old(self).slot(i));
                assert(old(self).slot(i).wf());
            }
        }
        assert(self@ =~= old(self)@.update(id as int, mixture));
    }


    /// Moles of oxygen in the mixture `id`.
    pub fn get_oxygen(&self, id: usize) -> (r: Result<i64, GasError>)
        requires
            self.wf(),
        ensures
            id < self@.len() ==> r == Ok::<i64, GasError>(self@[id as int].gas.oxygen),
            id >= self@.len() ==> r == Err::<i64, GasError>(GasError::HandleOutOfRange),
    {
        if id >= self.is_initialized.len() {
            return Err(GasError::HandleOutOfRange);
        }
        Ok(self.oxygen[id])
    }

    /// Moles of carbon dioxide in the mixture `id`.
    pub fn get_carbon_dioxide(&self, id: usize) -> (r: Result<i64, GasError>)
        requires
            self.wf(),
        ensures
            id < self@.len() ==> r == Ok::<i64, GasError>(self@[id as int].gas.carbon_dioxide),
            id >= self@.len() ==> r == Err::<i64, GasError>(GasError::HandleOutOfRange),
    {
        if id >= self.is_initialized.len() {
            return Err(GasError::HandleOutOfRange);
        }
        Ok(self.carbon_dioxide[id])
    }

    /// Moles of nitrogen in the mixture `id`.
    pub fn get_nitrogen(&self, id: usize) -> (r: Result<i64, GasError>)
        requires
            self.wf(),
        ensures
            id < self@.len() ==> r == Ok::<i64, GasError>(self@[id as int].gas.nitrogen),
            id >= self@.len() ==> r == Err::<i64, GasError>(GasError::HandleOutOfRange),
    {
        if id >= self.is_initialized.len() {
            return Err(GasError::HandleOutOfRange);
        }
        Ok(self.nitrogen[id])
    }

    /// Moles of toxins in the mixture `id`.
    pub fn get_toxins(&self, id: usize) -> (r: Result<i64, GasError>)
        requires
            self.wf(),
        ensures
            id < self@.len() ==> r == Ok::<i64, GasError>(self@[id as int].gas.toxins),
            id >= self@.len() ==> r == Err::<i64, GasError>(GasError::HandleOutOfRange),
    {
        if id >= self.is_initialized.len() {
            return Err(GasError::HandleOutOfRange);
        }
        Ok(self.toxins[id])
    }

    /// Moles of sleeping agent in the mixture `id`.
    pub fn get_sleeping_agent(&self, id: usize) -> (r: Result<i64, GasError>)
        requires
            self.wf(),
        ensures
            id < self@.len() ==> r == Ok::<i64, GasError>(self@[id as int].gas.sleeping_agent),
            id >= self@.len() ==> r == Err::<i64, GasError>(GasError::HandleOutOfRange),
    {
        if id >= self.is_initialized.len() {
            return Err(GasError::HandleOutOfRange);
        }
        Ok(self.sleeping_agent[id])
    }

    /// Moles of agent B in the mixture `id`.
    pub fn get_agent_b(&self, id: usize) -> (r: Result<i64, GasError>)
        requires
            self.wf(),
        ensures
            id < self@.len() ==> r == Ok::<i64, GasError>(self@[id as int].gas.agent_b),
            id >= self@.len() ==> r == Err::<i64, GasError>(GasError::HandleOutOfRange),
    {
        if id >= self.is_initialized.len() {
            return Err(GasError::HandleOutOfRange);
        }
        Ok(self.agent_b[id])
    }

    /// Litres of the mixture `id`.
    pub fn get_volume(&self, id: usize) -> (r: Result<i64, GasError>)
        requires
            self.wf(),
        ensures
            id < self@.len() ==> r == Ok::<i64, GasError>(self@[id as int].volume),
            id >= self@.len() ==> r == Err::<i64, GasError>(GasError::HandleOutOfRange),
    {
        if id >= self.is_initialized.len() {
            return Err(GasError::HandleOutOfRange);
        }
        Ok(self.volume[id])
    }

    /// Kelvins of the mixture `id`.
    pub fn get_temperature(&self, id: usize) -> (r: Result<i64, GasError>)
        requires
            self.wf(),
        ensures
            id < self@.len() ==> r == Ok::<i64, GasError>(self@[id as int].temperature),
            id >= self@.len() ==> r == Err::<i64, GasError>(GasError::HandleOutOfRange),
    {
        if id >= self.is_initialized.len() {
            return Err(GasError::HandleOutOfRange);
        }
        Ok(self.temperature[id])
    }

    /// The amount that the last exchange of the mixture `id` moved.
    pub fn get_last_share(&self, id: usize) -> (r: Result<i64, GasError>)
        requires
            self.wf(),
        ensures
            id < self@.len() ==> r == Ok::<i64, GasError>(self@[id as int].last_share),
            id >= self@.len() ==> r == Err::<i64, GasError>(GasError::HandleOutOfRange),
    {
        if id >= self.is_initialized.len() {
            return Err(GasError::HandleOutOfRange);
        }
        Ok(self.last_share[id])
    }

    /// The fuel noted as burnt by the last reaction of the mixture `id`.
    pub fn get_fuel_burnt(&self, id: usize) -> (r: Result<i64, GasError>)
        requires
            self.wf(),
        ensures
            id < self@.len() ==> r == Ok::<i64, GasError>(self@[id as int].fuel_burnt),
            id >= self@.len() ==> r == Err::<i64, GasError>(GasError::HandleOutOfRange),
    {
        if id >= self.is_initialized.len() {
            return Err(GasError::HandleOutOfRange);
        }
        Ok(self.fuel_burnt[id])
    }

    /// Archived moles of oxygen of the mixture `id`.
    pub fn get_oxygen_archived(&self, id: usize) -> (r: Result<i64, GasError>)
        requires
            self.wf(),
        ensures
            id < self@.len() ==> r == Ok::<i64, GasError>(self@[id as int].archived.oxygen),
            id >= self@.len() ==> r == Err::<i64, GasError>(GasError::HandleOutOfRange),
    {
        if id >= self.is_initialized.len() {
            return Err(GasError::HandleOutOfRange);
        }
        Ok(self.oxygen_archived[id])
    }

    /// Archived moles of carbon dioxide of the mixture `id`.
    pub fn get_carbon_dioxide_archived(&self, id: usize) -> (r: Result<i64, GasError>)
        requires
            self.wf(),
        ensures
            id < self@.len() ==> r == Ok::<i64, GasError>(self@[id as int].archived.carbon_dioxide),
            id >= self@.len() ==> r == Err::<i64, GasError>(GasError::HandleOutOfRange),
    {
        if id >= self.is_initialized.len() {
            return Err(GasError::HandleOutOfRange);
        }
        Ok(self.carbon_dioxide_archived[id])
    }

    /// Archived moles of nitrogen of the mixture `id`.
    pub fn get_nitrogen_archived(&self, id: usize) -> (r: Result<i64, GasError>)
        requires
            self.wf(),
        ensures
            id < self@.len() ==> r == Ok::<i64, GasError>(self@[id as int].archived.nitrogen),
            id >= self@.len() ==> r == Err::<i64, GasError>(GasError::HandleOutOfRange),
    {
        if id >= self.is_initialized.len() {
            return Err(GasError::HandleOutOfRange);
        }
        Ok(self.nitrogen_archived[id])
    }

    /// Archived moles of toxins of the mixture `id`.
    pub fn get_toxins_archived(&self, id: usize) -> (r: Result<i64, GasError>)
        requires
            self.wf(),
        ensures
            id < self@.len() ==> r == Ok::<i64, GasError>(self@[id as int].archived.toxins),
            id >= self@.len() ==> r == Err::<i64, GasError>(GasError::HandleOutOfRange),
    {
        if id >= self.is_initialized.len() {
            return Err(GasError::HandleOutOfRange);
        }
        Ok(self.toxins_archived[id])
    }

    /// Archived moles of sleeping agent of the mixture `id`.
    pub fn get_sleeping_agent_archived(&self, id: usize) -> (r: Result<i64, GasError>)
        requires
            self.wf(),
        ensures
            id < self@.len() ==> r == Ok::<i64, GasError>(self@[id as int].archived.sleeping_agent),
            id >= self@.len() ==> r == Err::<i64, GasError>(GasError::HandleOutOfRange),
    {
        if id >= self.is_initialized.len() {
            return Err(GasError::HandleOutOfRange);
        }
        Ok(self.sleeping_agent_archived[id])
    }

    /// Archived moles of agent B of the mixture `id`.
    pub fn get_agent_b_archived(&self, id: usize) -> (r: Result<i64, GasError>)
        requires
            self.wf(),
        ensures
            id < self@.len() ==> r == Ok::<i64, GasError>(self@[id as int].archived.agent_b),
            id >= self@.len() ==> r == Err::<i64, GasError>(GasError::HandleOutOfRange),
    {
        if id >= self.is_initialized.len() {
            return Err(GasError::HandleOutOfRange);
        }
        Ok(self.agent_b_archived[id])
    }

    /// Archived kelvins of the mixture `id`.
    pub fn get_temperature_archived(&self, id: usize) -> (r: Result<i64, GasError>)
        requires
            self.wf(),
        ensures
            id < self@.len() ==> r == Ok::<i64, GasError>(self@[id as int].temperature_archived),
            id >= self@.len() ==> r == Err::<i64, GasError>(GasError::HandleOutOfRange),
    {
        if id >= self.is_initialized.len() {
            return Err(GasError::HandleOutOfRange);
        }
        Ok(self.temperature_archived[id])
    }

    /// Sets the moles of oxygen in the mixture `id`, brought into range.
    pub fn set_oxygen(&mut self, id: usize, value: i64) -> (r: Result<(), GasError>)
        requires
            old(self).wf(),
        ensures
            final(self).wf(),
            id < old(self)@.len() ==> r.is_ok() && final(self)@ == old(self)@.update(
                id as int,
                (GasMixture {
                    gas: (Composition { oxygen: clamp(value as int), ..old(self)@[id as int].gas }),
                    ..old(self)@[id as int]
                }),
            ),
            id >= old(self)@.len() ==> r == Err::<(), GasError>(GasError::HandleOutOfRange)
                && final(self)@ == old(self)@,
    {
        if id >= self.is_initialized.len() {
            return Err(GasError::HandleOutOfRange);
        }
        let mut mixture: GasMixture = self.at(id);
        mixture.gas.oxygen = saturate(value as i128);
        self.put(id, mixture);
        Ok(())
    }

    /// Sets the moles of carbon dioxide in the mixture `id`, brought into range.
    pub fn set_carbon_dioxide(&mut self, id: usize, value: i64) -> (r: Result<(), GasError>)
        requires
            old(self).wf(),
        ensures
            final(self).wf(),
            id < old(self)@.len() ==> r.is_ok() && final(self)@ == old(self)@.update(
                id as int,
                (GasMixture {
                    gas: (Composition { carbon_dioxide: clamp(value as int), ..old(self)@[id as int].gas }),
                    ..old(self)@[id as int]
                }),
            ),
            id >= old(self)@.len() ==> r == Err::<(), GasError>(GasError::HandleOutOfRange)
                && final(self)@ == old(self)@,
    {
        if id >= self.is_initialized.len() {
            return Err(GasError::HandleOutOfRange);
        }
        let mut mixture: GasMixture = self.at(id);
        mixture.gas.carbon_dioxide = saturate(value as i128);
        self.put(id, mixture);
        Ok(())
    }

    /// Sets the moles of nitrogen in the mixture `id`, brought into range.
    pub fn set_nitrogen(&mut self, id: usize, value: i64) -> (r: Result<(), GasError>)
        requires
            old(self).wf(),
        ensures
            final(self).wf(),
            id < old(self)@.len() ==> r.is_ok() && final(self)@ == old(self)@.update(
                id as int,
                (GasMixture {
                    gas: (Composition { nitrogen: clamp(value as int), ..old(self)@[id as int].gas }),
                    ..old(self)@[id as int]
                }),
            ),
            id >= old(self)@.len() ==> r == Err::<(), GasError>(GasError::HandleOutOfRange)
                && final(self)@ == old(self)@,
    {
        if id >= self.is_initialized.len() {
            return Err(GasError::HandleOutOfRange);
        }
        let mut mixture: GasMixture = self.at(id);
        mixture.gas.nitrogen = saturate(value as i128);
        self.put(id, mixture);
        Ok(())
    }

    /// Sets the moles of toxins in the mixture `id`, brought into range.
    pub fn set_toxins(&mut self, id: usize, value: i64) -> (r: Result<(), GasError>)
        requires
            old(self).wf(),
        ensures
            final(self).wf(),
            id < old(self)@.len() ==> r.is_ok() && final(self)@ == old(self)@.update(
                id as int,
                (GasMixture {
                    gas: (Composition { toxins: clamp(value as int), ..old(self)@[id as int].gas }),
                    ..old(self)@[id as int]
                }),
            ),
            id >= old(self)@.len() ==> r == Err::<(), GasError>(GasError::HandleOutOfRange)
                && final(self)@ == old(self)@,
    {
        if id >= self.is_initialized.len() {
            return Err(GasError::HandleOutOfRange);
        }
        let mut mixture: GasMixture = self.at(id);
        mixture.gas.toxins = saturate(value as i128);
        self.put(id, mixture);
        Ok(())
    }

    /// Sets the moles of sleeping agent in the mixture `id`, brought into range.
    pub fn set_sleeping_agent(&mut self, id: usize, value: i64) -> (r: Result<(), GasError>)
        requires
            old(self).wf(),
        ensures
            final(self).wf(),
            id < old(self)@.len() ==> r.is_ok() && final(self)@ == old(self)@.update(
                id as int,
                (GasMixture {
                    gas: (Composition { sleeping_agent: clamp(value as int), ..old(self)@[id as int].gas }),
                    ..old(self)@[id as int]
                }),
            ),
            id >= old(self)@.len() ==> r == Err::<(), GasError>(GasError::HandleOutOfRange)
                && final(self)@ == old(self)@,
    {
        if id >= self.is_initialized.len() {
            return Err(GasError::HandleOutOfRange);
        }
        let mut mixture: GasMixture = self.at(id);
        mixture.gas.sleeping_agent = saturate(value as i128);
        self.put(id, mixture);
        Ok(())
    }

    /// Sets the moles of agent B in the mixture `id`, brought into range.
    pub fn set_agent_b(&mut self, id: usize, value: i64) -> (r: Result<(), GasError>)
        requires
            old(self).wf(),
        ensures
            final(self).wf(),
            id < old(self)@.len() ==> r.is_ok() && final(self)@ == old(self)@.update(
                id as int,
                (GasMixture {
                    gas: (Composition { agent_b: clamp(value as int), ..old(self)@[id as int].gas }),
                    ..old(self)@[id as int]
                }),
            ),
            id >= old(self)@.len() ==> r == Err::<(), GasError>(GasError::HandleOutOfRange)
                && final(self)@ == old(self)@,
    {
        if id >= self.is_initialized.len() {
            return Err(GasError::HandleOutOfRange);
        }
        let mut mixture: GasMixture = self.at(id);
        mixture.gas.agent_b = saturate(value as i128);
        self.put(id, mixture);
        Ok(())
    }

    /// Sets the litres of the mixture `id`, brought into range.
    pub fn set_volume(&mut self, id: usize, value: i64) -> (r: Result<(), GasError>)
        requires
            old(self).wf(),
        ensures
            final(self).wf(),
            id < old(self)@.len() ==> r.is_ok() && final(self)@ == old(self)@.update(
                id as int,
                (GasMixture { volume: clamp(value as int), ..old(self)@[id as int] }),
            ),
            id >= old(self)@.len() ==> r == Err::<(), GasError>(GasError::HandleOutOfRange)
                && final(self)@ == old(self)@,
    {
        if id >= self.is_initialized.len() {
            return Err(GasError::HandleOutOfRange);
        }
        let mut mixture: GasMixture = self.at(id);
        mixture.volume = saturate(value as i128);
        self.put(id, mixture);
        Ok(())
    }

    /// Sets the kelvins of the mixture `id`, brought into range.
    pub fn set_temperature(&mut self, id: usize, value: i64) -> (r: Result<(), GasError>)
        requires
            old(self).wf(),
        ensures
            final(self).wf(),
            id < old(self)@.len() ==> r.is_ok() && final(self)@ == old(self)@.update(
                id as int,
                (GasMixture { temperature: clamp(value as int), ..old(self)@[id as int] }),
            ),
            id >= old(self)@.len() ==> r == Err::<(), GasError>(GasError::HandleOutOfRange)
                && final(self)@ == old(self)@,
    {
        if id >= self.is_initialized.len() {
            return Err(GasError::HandleOutOfRange);
        }
        let mut mixture: GasMixture = self.at(id);
        mixture.temperature = saturate(value as i128);
        self.put(id, mixture);
        Ok(())
    }

    /// Sets the amount noted for the last exchange of the mixture `id`, brought into range.
    pub fn set_last_share(&mut self, id: usize, value: i64) -> (r: Result<(), GasError>)
        requires
            old(self).wf(),
        ensures
            final(self).wf(),
            id < old(self)@.len() ==> r.is_ok() && final(self)@ == old(self)@.update(
                id as int,
                (GasMixture { last_share: clamp(value as int), ..old(self)@[id as int] }),
            ),
            id >= old(self)@.len() ==> r == Err::<(), GasError>(GasError::HandleOutOfRange)
                && final(self)@ == old(self)@,
    {
        if id >= self.is_initialized.len() {
            return Err(GasError::HandleOutOfRange);
        }
        let mut mixture: GasMixture = self.at(id);
        mixture.last_share = saturate(value as i128);
        self.put(id, mixture);
        Ok(())
    }

    /// Sets the fuel noted as burnt by the mixture `id`, brought into range.
    pub fn set_fuel_burnt(&mut self, id: usize, value: i64) -> (r: Result<(), GasError>)
        requires
            old(self).wf(),
        ensures
            final(self).wf(),
            id < old(self)@.len() ==> r.is_ok() && final(self)@ == old(self)@.update(
                id as int,
                (GasMixture { fuel_burnt: clamp(value as int), ..old(self)@[id as int] }),
            ),
            id >= old(self)@.len() ==> r == Err::<(), GasError>(GasError::HandleOutOfRange)
                && final(self)@ == old(self)@,
    {
        if id >= self.is_initialized.len() {
            return Err(GasError::HandleOutOfRange);
        }
        let mut mixture: GasMixture = self.at(id);
        mixture.fuel_burnt = saturate(value as i128);
        self.put(id, mixture);
        Ok(())
    }

    /// Sets the archived moles of oxygen of the mixture `id`, brought into range.
    pub fn set_oxygen_archived(&mut self, id: usize, value: i64) -> (r: Result<(), GasError>)
        requires
            old(self).wf(),
        ensures
            final(self).wf(),
            id < old(self)@.len() ==> r.is_ok() && final(self)@ == old(self)@.update(
                id as int,
                (GasMixture {
                    archived: (Composition {
                        oxygen: clamp(value as int),
                        ..old(self)@[id as int].archived
                    }),
                    ..old(self)@[id as int]
                }),
            ),
            id >= old(self)@.len() ==> r == Err::<(), GasError>(GasError::HandleOutOfRange)
                && final(self)@ == old(self)@,
    {
        if id >= self.is_initialized.len() {
            return Err(GasError::HandleOutOfRange);
        }
        let mut mixture: GasMixture = self.at(id);
        mixture.archived.oxygen = saturate(value as i128);
        self.put(id, mixture);
        Ok(())
    }

    /// Sets the archived moles of carbon dioxide of the mixture `id`, brought into range.
    pub fn set_carbon_dioxide_archived(&mut self, id: usize, value: i64) -> (r: Result<(), GasError>)
        requires
            old(self).wf(),
        ensures
            final(self).wf(),
            id < old(self)@.len() ==> r.is_ok() && final(self)@ == old(self)@.update(
                id as int,
                (GasMixture {
                    archived: (Composition {
                        carbon_dioxide: clamp(value as int),
                        ..old(self)@[id as int].archived
                    }),
                    ..old(self)@[id as int]
                }),
            ),
            id >= old(self)@.len() ==> r == Err::<(), GasError>(GasError::HandleOutOfRange)
                && final(self)@ == old(self)@,
    {
        if id >= self.is_initialized.len() {
            return Err(GasError::HandleOutOfRange);
        }
        let mut mixture: GasMixture = self.at(id);
        mixture.archived.carbon_dioxide = saturate(value as i128);
        self.put(id, mixture);
        Ok(())
    }

    /// Sets the archived moles of nitrogen of the mixture `id`, brought into range.
    pub fn set_nitrogen_archived(&mut self, id: usize, value: i64) -> (r: Result<(), GasError>)
        requires
            old(self).wf(),
        ensures
            final(self).wf(),
            id < old(self)@.len() ==> r.is_ok() && final(self)@ == old(self)@.update(
                id as int,
                (GasMixture {
                    archived: (Composition {
                        nitrogen: clamp(value as int),
                        ..old(self)@[id as int].archived
                    }),
                    ..old(self)@[id as int]
                }),
            ),
            id >= old(self)@.len() ==> r == Err::<(), GasError>(GasError::HandleOutOfRange)
                && final(self)@ == old(self)@,
    {
        if id >= self.is_initialized.len() {
            return Err(GasError::HandleOutOfRange);
        }
        let mut mixture: GasMixture = self.at(id);
        mixture.archived.nitrogen = saturate(value as i128);
        self.put(id, mixture);
        Ok(())
    }

    /// Sets the archived moles of toxins of the mixture `id`, brought into range.
    pub fn set_toxins_archived(&mut self, id: usize, value: i64) -> (r: Result<(), GasError>)
        requires
            old(self).wf(),
        ensures
            final(self).wf(),
            id < old(self)@.len() ==> r.is_ok() && final(self)@ == old(self)@.update(
                id as int,
                (GasMixture {
                    archived: (Composition {
                        toxins: clamp(value as int),
                        ..old(self)@[id as int].archived
                    }),
                    ..old(self)@[id as int]
                }),
            ),
            id >= old(self)@.len() ==> r == Err::<(), GasError>(GasError::HandleOutOfRange)
                && final(self)@ == old(self)@,
    {
        if id >= self.is_initialized.len() {
            return Err(GasError::HandleOutOfRange);
        }
        let mut mixture: GasMixture = self.at(id);
        mixture.archived.toxins = saturate(value as i128);
        self.put(id, mixture);
        Ok(())
    }

    /// Sets the archived moles of sleeping agent of the mixture `id`, brought into range.
    pub fn set_sleeping_agent_archived(&mut self, id: usize, value: i64) -> (r: Result<(), GasError>)
        requires
            old(self).wf(),
        ensures
            final(self).wf(),
            id < old(self)@.len() ==> r.is_ok() && final(self)@ == old(self)@.update(
                id as int,
                (GasMixture {
                    archived: (Composition {
                        sleeping_agent: clamp(value as int),
                        ..old(self)@[id as int].archived
                    }),
                    ..old(self)@[id as int]
                }),
            ),
            id >= old(self)@.len() ==> r == Err::<(), GasError>(GasError::HandleOutOfRange)
                && final(self)@ == old(self)@,
    {
        if id >= self.is_initialized.len() {
            return Err(GasError::HandleOutOfRange);
        }
        let mut mixture: GasMixture = self.at(id);
        mixture.archived.sleeping_agent = saturate(value as i128);
        self.put(id, mixture);
        Ok(())
    }

    /// Sets the archived moles of agent B of the mixture `id`, brought into range.
    pub fn set_agent_b_archived(&mut self, id: usize, value: i64) -> (r: Result<(), GasError>)
        requires
            old(self).wf(),
        ensures
            final(self).wf(),
            id < old(self)@.len() ==> r.is_ok() && final(self)@ == old(self)@.update(
                id as int,
                (GasMixture {
                    archived: (Composition {
                        agent_b: clamp(value as int),
                        ..old(self)@[id as int].archived
                    }),
                    ..old(self)@[id as int]
                }),
            ),
            id >= old(self)@.len() ==> r == Err::<(), GasError>(GasError::HandleOutOfRange)
                && final(self)@ == old(self)@,
    {
        if id >= self.is_initialized.len() {
            return Err(GasError::HandleOutOfRange);
        }
        let mut mixture: GasMixture = self.at(id);
        mixture.archived.agent_b = saturate(value as i128);
        self.put(id, mixture);
        Ok(())
    }

    /// Sets the archived kelvins of the mixture `id`, brought into range.
    pub fn set_temperature_archived(&mut self, id: usize, value: i64) -> (r: Result<(), GasError>)
        requires
            old(self).wf(),
        ensures
            final(self).wf(),
            id < old(self)@.len() ==> r.is_ok() && final(self)@ == old(self)@.update(
                id as int,
                (GasMixture { temperature_archived: clamp(value as int), ..old(self)@[id as int] }),
            ),
            id >= old(self)@.len() ==> r == Err::<(), GasError>(GasError::HandleOutOfRange)
                && final(self)@ == old(self)@,
    {
        if id >= self.is_initialized.len() {
            return Err(GasError::HandleOutOfRange);
        }
        let mut mixture: GasMixture = self.at(id);
        mixture.temperature_archived = saturate(value as i128);
        self.put(id, mixture);
        Ok(())
    }

}

} // verus!
