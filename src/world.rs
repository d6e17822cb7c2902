//! The arena that owns the entities of a simulation and hands out
//! generational handles to them.
use vstd::prelude::*;

use crate::world_object::{RigidBodyHandle, SensorHandle, WorldObject};

verus! {

/// An entity stored in a world: a rigid body or a sensor.
#[derive(Clone, Debug, PartialEq, Eq)]
pub enum Entity<R, S> {
    /// A rigid body.
    RigidBody(R),
    /// A sensor.
    Sensor(S),
}

/// One cell of a world: the entity it holds, if any, and how many
/// entities it has held before the current one.
#[derive(Debug)]
pub struct Slot<R, S> {
    pub generation: u64,
    pub entity: Option<Entity<R, S>>,
}

/// The storage that owns every entity of a simulation.
///
/// Entities are addressed by a slot index and the generation of that slot.
/// Removing an entity bumps the generation of its slot, so that handles to it
/// are recognised as stale even once the slot holds a new entity. A slot whose
/// generation cannot be bumped any further is retired and never reused.
#[derive(Debug)]
pub struct World<R, S> {
    slots: Vec<Slot<R, S>>,
    free: Vec<usize>,
}

impl<R, S> View for World<R, S> {
    type V = Seq<Slot<R, S>>;

    closed spec fn view(&self) -> Seq<Slot<R, S>> {
        self.slots@
    }
}

impl<R, S> World<R, S> {
    /// The free list names distinct slots that are empty and reusable.
    pub closed spec fn wf(&self) -> bool {
        &&& self.free@.no_duplicates()
        &&& forall|k: int|
            #![trigger self.free@[k]]
            0 <= k < self.free@.len() ==> {
                &&& self.free@[k] < self.slots@.len()
                &&& self.slots@[self.free@[k] as int].entity is None
            }
    }

    /// Whether slot `index` holds an entity inserted at `generation`.
    pub open spec fn occupied(self, index: int, generation: u64) -> bool {
        &&& 0 <= index < self@.len()
        &&& self@[index].generation == generation
        &&& self@[index].entity is Some
    }

    /// Whether `o` refers to an entity of this world, of the kind its tag says.
    pub open spec fn holds(self, o: WorldObject) -> bool {
        &&& self.occupied(o.spec_uid() as int, o.spec_generation())
        &&& match o {
            WorldObject::RigidBody(_) => self@[o.spec_uid() as int].entity.unwrap() is RigidBody,
            WorldObject::Sensor(_) => self@[o.spec_uid() as int].entity.unwrap() is Sensor,
        }
    }

    /// The entity that `o` refers to (meaningful where `holds(o)`).
    pub open spec fn entity_of(self, o: WorldObject) -> Entity<R, S> {
        self@[o.spec_uid() as int].entity.unwrap()
    }

    /// The rigid body that `rb` refers to (meaningful where it holds).
    pub open spec fn rigid_body(self, rb: RigidBodyHandle) -> R {
        self.entity_of(WorldObject::RigidBody(rb))->RigidBody_0
    }

    /// The sensor that `s` refers to (meaningful where it holds).
    pub open spec fn sensor(self, s: SensorHandle) -> S {
        self.entity_of(WorldObject::Sensor(s))->Sensor_0
    }

    /// The generation a slot gets once its entity is removed.
    pub open spec fn next_generation(generation: u64) -> u64 {
        if generation < u64::MAX {
            (generation + 1) as u64
        } else {
            generation
        }
    }

    /// The slots after `entity` was placed at `index` with `generation`.
    pub open spec fn placed(self, index: int, generation: u64, entity: Entity<R, S>) -> Seq<
        Slot<R, S>,
    > {
        let slot = Slot { generation, entity: Some(entity) };
        if index < self@.len() {
            self@.update(index, slot)
        } else {
            self@.push(slot)
        }
    }

    /// Whether `index` may receive a new entity at `generation`: an empty
    /// reusable slot at that generation, or the next slot past the end.
    pub open spec fn vacant(self, index: int, generation: u64) -> bool {
        ||| (0 <= index < self@.len() && self@[index].entity is None
            && self@[index].generation == generation)
        ||| (index == self@.len() && generation == 0)
    }

    /// An empty world.
    pub fn new() -> (w: Self)
        ensures
            w.wf(),
            w@.len() == 0,
    {
        World { slots: Vec::new(), free: Vec::new() }
    }

    /// Stores `entity` in a vacant slot and returns that slot with its generation.
    pub(crate) fn insert(&mut self, entity: Entity<R, S>) -> (r: (usize, u64))
        requires
            old(self).wf(),
            old(self)@.len() < usize::MAX,
        ensures
            final(self).wf(),
            old(self).vacant(r.0 as int, r.1),
            final(self)@ == old(self).placed(r.0 as int, r.1, entity),
    {
        if self.free.len() > 0 {
            let index = self.free.pop().unwrap();
            proof {
                assert(old(self).free@[old(self).free@.len() - 1] == index);
            }
            let generation = self.slots[index].generation;
            self.slots.set(index, Slot { generation, entity: Some(entity) });
            proof {
                assert forall|k: int| 0 <= k < self.free@.len() implies self.free@[k] != index by {
                    assert(old(self).free@[k] == self.free@[k]);
                }
                assert forall|k: int|
                    #![trigger self.free@[k]]
                    0 <= k < self.free@.len() implies {
                        &&& self.free@[k] < self.slots@.len()
                        &&& self.slots@[self.free@[k] as int].entity is None
                    } by {
                    assert(old(self).free@[k] == self.free@[k]);
                }
            }
            (index, generation)
        } else {
            let index = self.slots.len();
            self.slots.push(Slot { generation: 0, entity: Some(entity) });
            (index, 0)
        }
    }

    /// Adds a rigid body to this world and returns a handle to it.
    ///
    /// The handle matches no handle that referred to a live entity before.
    pub fn insert_rigid_body(&mut self, body: R) -> (rb: RigidBodyHandle)
        requires
            old(self).wf(),
            old(self)@.len() < usize::MAX,
        ensures
            final(self).wf(),
            old(self).vacant(rb.index as int, rb.generation),
            final(self)@ == old(self).placed(rb.index as int, rb.generation, Entity::RigidBody(body)),
    {
        let (index, generation) = self.insert(Entity::RigidBody(body));
        RigidBodyHandle { index, generation }
    }

    /// Adds a sensor to this world and returns a handle to it.
    ///
    /// The handle matches no handle that referred to a live entity before.
    pub fn insert_sensor(&mut self, sensor: S) -> (s: SensorHandle)
        requires
            old(self).wf(),
            old(self)@.len() < usize::MAX,
        ensures
            final(self).wf(),
            old(self).vacant(s.index as int, s.generation),
            final(self)@ == old(self).placed(s.index as int, s.generation, Entity::Sensor(sensor)),
    {
        let (index, generation) = self.insert(Entity::Sensor(sensor));
        SensorHandle { index, generation }
    }

    /// Whether `o` refers to an entity of this world (it has not been removed).
    pub fn contains(&self, o: &WorldObject) -> (r: bool)
        ensures
            r == self.holds(*o),
    {
        let index = o.uid();
        if index >= self.slots.len() {
            return false;
        }
        let slot = &self.slots[index];
        if slot.generation != o.generation() {
            return false;
        }
        match (&slot.entity, o) {
            (Some(Entity::RigidBody(_)), WorldObject::RigidBody(_)) => true,
            (Some(Entity::Sensor(_)), WorldObject::Sensor(_)) => true,
            _ => false,
        }
    }

    /// Shared access to slot `index`.
    pub(crate) fn slot(&self, index: usize) -> (r: &Slot<R, S>)
        requires
            index < self@.len(),
        ensures
            *r == self@[index as int],
    {
        &self.slots[index]
    }

    /// Exclusive access to the entity of an occupied slot, which keeps its generation.
    pub(crate) fn slot_mut(&mut self, index: usize) -> (r: &mut Slot<R, S>)
        requires
            old(self).wf(),
            index < old(self)@.len(),
            old(self)@[index as int].entity is Some,
        ensures
            *r == old(self)@[index as int],
            final(r).entity is Some ==> final(self).wf(),
            final(self)@ == old(self)@.update(index as int, *final(r)),
    {
        &mut self.slots[index]
    }

    /// Exclusive access to two distinct slots `i < j` at once.
    fn slot_pair_mut(&mut self, i: usize, j: usize) -> (r: (&mut Slot<R, S>, &mut Slot<R, S>))
        requires
            i < j < old(self)@.len(),
        ensures
            *r.0 == old(self)@[i as int],
            *r.1 == old(self)@[j as int],
            final(self).free == old(self).free,
            final(self)@ == old(self)@.update(i as int, *final(r.0)).update(j as int, *final(r.1)),
    {
        let slots = self.slots.as_mut_slice();
        let (left, right) = slots.split_at_mut(j);
        let (head, _) = left.split_at_mut(i + 1);
        let first = head.last_mut().unwrap();
        let second = right.first_mut().unwrap();
        (first, second)
    }

    /// Mutably borrows two distinct rigid bodies at once, such as the two
    /// bodies of a contact.
    ///
    /// Whatever is written through the two references is what the world
    /// holds for `a` and `b` afterwards; nothing else of the world changes.
    pub fn borrow_mut_rigid_bodies(&mut self, a: &RigidBodyHandle, b: &RigidBodyHandle) -> (r: (
        &mut R,
        &mut R,
    ))
        requires
            old(self).wf(),
            old(self).holds(WorldObject::RigidBody(*a)),
            old(self).holds(WorldObject::RigidBody(*b)),
            a.index != b.index,
        ensures
            *r.0 == old(self).rigid_body(*a),
            *r.1 == old(self).rigid_body(*b),
            final(self).wf(),
            final(self)@ == old(self)@.update(
                a.index as int,
                Slot { generation: a.generation, entity: Some(Entity::RigidBody(*final(r.0))) },
            ).update(
                b.index as int,
                Slot { generation: b.generation, entity: Some(Entity::RigidBody(*final(r.1))) },
            ),
    {
        let (lo, hi) = if a.index < b.index {
            (a.index, b.index)
        } else {
            (b.index, a.index)
        };
        let (first, second) = self.slot_pair_mut(lo, hi);
        let (first, second) = match (&mut first.entity, &mut second.entity) {
            (Some(Entity::RigidBody(x)), Some(Entity::RigidBody(y))) => (x, y),
            _ => vstd::pervasive::unreached(),
        };
        if a.index < b.index {
            (first, second)
        } else {
            (second, first)
        }
    }

    /// Takes the entity that `o` refers to out of this world.
    ///
    /// Returns `None`, and leaves the world as it was, where `o` refers to no
    /// entity of it. Otherwise the slot is emptied and its generation bumped,
    /// so `o` and every copy of it stop referring to anything.
    pub fn remove(&mut self, o: &WorldObject) -> (r: Option<Entity<R, S>>)
        requires
            old(self).wf(),
        ensures
            final(self).wf(),
            r is Some <==> old(self).holds(*o),
            old(self).holds(*o) ==> {
                &&& r == Some(old(self).entity_of(*o))
                &&& final(self)@ == old(self)@.update(
                    o.spec_uid() as int,
                    Slot { generation: Self::next_generation(o.spec_generation()), entity: None },
                )
            },
            !old(self).holds(*o) ==> final(self)@ == old(self)@,
    {
        if !self.contains(o) {
            return None;
        }
        let index = o.uid();
        let generation = self.slots[index].generation;
        let ghost old_free = self.free@;
        proof {
            assert forall|k: int| 0 <= k < old_free.len() implies old_free[k] != index by {
                assert(self.slots@[old_free[k] as int].entity is None);
            }
        }
        let mut slot = Slot { generation: 0, entity: None };
        if generation < u64::MAX {
            slot.generation = generation + 1;
            self.free.push(index);
            proof {
                assert(self.free@ == old_free.push(index));
                assert forall|i: int, j: int|
                    0 <= i < j < self.free@.len() implies self.free@[i] != self.free@[j] by {
                    if j < old_free.len() {
                        assert(old_free[i] != old_free[j]);
                    }
                }
            }
        } else {
            slot.generation = generation;
        }
        let mut old_slot = Slot { generation: 0, entity: None };
        std::mem::swap(&mut self.slots[index], &mut old_slot);
        self.slots.set(index, slot);
        proof {
            assert forall|k: int|
                #![trigger self.free@[k]]
                0 <= k < self.free@.len() implies {
                    &&& self.free@[k] < self.slots@.len()
                    &&& self.slots@[self.free@[k] as int].entity is None
                } by {
                if k < old_free.len() {
                    assert(old_free[k] == self.free@[k]);
                }
            }
        }
        old_slot.entity
    }
}

/// A slot that may receive a new entity is the slot of no object that refers
/// to an entity of the world: a new handle never aliases a live one.
pub proof fn vacant_is_fresh<R, S>(world: World<R, S>, o: WorldObject, index: int, generation: u64)
    requires
        world.holds(o),
        world.vacant(index, generation),
    ensures
        o.spec_uid() != index,
{
}

/// Placing an entity in a vacant slot keeps every object that referred to an
/// entity of the world referring to that same entity, and the new object
/// refers to the new entity.
pub proof fn placing_keeps_others<R, S>(
    before: World<R, S>,
    after: World<R, S>,
    o: WorldObject,
    fresh: WorldObject,
    entity: Entity<R, S>,
)
    requires
        before.vacant(fresh.spec_uid() as int, fresh.spec_generation()),
        after@ == before.placed(fresh.spec_uid() as int, fresh.spec_generation(), entity),
        fresh.spec_is_rigid_body() == entity is RigidBody,
    ensures
        after.holds(fresh),
        after.entity_of(fresh) == entity,
        before.holds(o) ==> after.holds(o) && after.entity_of(o) == before.entity_of(o),
{
}

/// Removing the entity of `o` leaves `o` referring to nothing, and keeps
/// every other object that referred to an entity referring to that same one.
pub proof fn removing_keeps_others<R, S>(
    before: World<R, S>,
    after: World<R, S>,
    o: WorldObject,
    other: WorldObject,
)
    requires
        before.holds(o),
        after@ == before@.update(
            o.spec_uid() as int,
            Slot { generation: World::<R, S>::next_generation(o.spec_generation()), entity: None },
        ),
        other.spec_uid() != o.spec_uid(),
    ensures
        !after.holds(o),
        before.holds(other) ==> after.holds(other) && after.entity_of(other) == before.entity_of(other),
{
}

} // verus!
