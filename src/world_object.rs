//! Handles to the entities of a world, the tagged object that wraps either
//! kind, and the views through which an entity is read or written.
//!
//! A shared view borrows the world as `&World`, an exclusive one as
//! `&mut World`: at any instant there are any number of shared views or one
//! exclusive view of a world, and so of each of its entities. Handles and
//! objects hold no borrow and can be copied and kept freely.
use vstd::prelude::*;

use crate::world::{Entity, Slot, World};

verus! {

/// Shared handle to a rigid body stored in a [`World`].
///
/// The handle names a slot of the world and the generation of the slot at
/// the time the body was inserted: a handle whose body has been removed no
/// longer matches its slot and is rejected.
#[derive(Clone, Copy, Debug, PartialEq, Eq, Hash, Structural)]
pub struct RigidBodyHandle {
    pub index: usize,
    pub generation: u64,
}

/// Shared handle to a sensor stored in a [`World`].
#[derive(Clone, Copy, Debug, PartialEq, Eq, Hash, Structural)]
pub struct SensorHandle {
    pub index: usize,
    pub generation: u64,
}

/// An object that has been added to a world.
#[derive(Clone, Copy, Debug, PartialEq, Eq, Hash, Structural)]
pub enum WorldObject {
    /// A rigid body handle.
    RigidBody(RigidBodyHandle),
    /// A sensor handle.
    Sensor(SensorHandle),
}

/// What collision and solver code read of an entity, whatever its kind.
pub trait Placed {
    /// The placement of an entity in space.
    type Transform;
    /// The geometry of an entity.
    type Shape;
    /// The scalar a margin is measured in.
    type Scalar;

    /// This entity's position.
    fn position(&self) -> Self::Transform;

    /// A reference to this entity's geometrical shape.
    fn shape(&self) -> &Self::Shape;

    /// This entity's margin.
    fn margin(&self) -> Self::Scalar;
}

/// Shared view of the entity a world object refers to.
pub enum WorldObjectBorrowed<'a, R, S> {
    /// A borrowed rigid body.
    RigidBody(&'a R),
    /// A borrowed sensor.
    Sensor(&'a S),
}

/// Exclusive view of the entity a world object refers to.
pub enum WorldObjectBorrowedMut<'a, R, S> {
    /// A mutably borrowed rigid body.
    RigidBody(&'a mut R),
    /// A mutably borrowed sensor.
    Sensor(&'a mut S),
}

impl WorldObject {
    /// The identifier of the entity this object refers to: its slot.
    pub open spec fn spec_uid(self) -> nat {
        match self {
            WorldObject::RigidBody(rb) => rb.index as nat,
            WorldObject::Sensor(s) => s.index as nat,
        }
    }

    /// Whether this object is tagged as a rigid body.
    pub open spec fn spec_is_rigid_body(self) -> bool {
        self is RigidBody
    }

    /// Whether this object is tagged as a sensor.
    pub open spec fn spec_is_sensor(self) -> bool {
        self is Sensor
    }

    /// Whether or not this is a rigid body.
    pub fn is_rigid_body(&self) -> (r: bool)
        ensures
            r == self.spec_is_rigid_body(),
    {
        match self {
            WorldObject::RigidBody(_) => true,
            _ => false,
        }
    }

    /// Whether or not this is a sensor.
    pub fn is_sensor(&self) -> (r: bool)
        ensures
            r == self.spec_is_sensor(),
    {
        match self {
            WorldObject::Sensor(_) => true,
            _ => false,
        }
    }

    /// Unwraps this object as a sensor; it must be one.
    pub fn unwrap_sensor(self) -> (s: SensorHandle)
        requires
            self.spec_is_sensor(),
        ensures
            self == WorldObject::Sensor(s),
    {
        match self {
            WorldObject::Sensor(s) => s,
            _ => vstd::pervasive::unreached(),
        }
    }

    /// Unwraps this object as a rigid body; it must be one.
    pub fn unwrap_rigid_body(self) -> (rb: RigidBodyHandle)
        requires
            self.spec_is_rigid_body(),
        ensures
            self == WorldObject::RigidBody(rb),
    {
        match self {
            WorldObject::RigidBody(rb) => rb,
            _ => vstd::pervasive::unreached(),
        }
    }

    /// This object as a sensor handle, or `None` where it is a rigid body.
    pub fn as_sensor(&self) -> (r: Option<SensorHandle>)
        ensures
            r is Some <==> self.spec_is_sensor(),
            r matches Some(s) ==> *self == WorldObject::Sensor(s),
    {
        match self {
            WorldObject::Sensor(s) => Some(*s),
            _ => None,
        }
    }

    /// This object as a rigid body handle, or `None` where it is a sensor.
    pub fn as_rigid_body(&self) -> (r: Option<RigidBodyHandle>)
        ensures
            r is Some <==> self.spec_is_rigid_body(),
            r matches Some(rb) ==> *self == WorldObject::RigidBody(rb),
    {
        match self {
            WorldObject::RigidBody(rb) => Some(*rb),
            _ => None,
        }
    }

    /// Borrows the entity this object refers to.
    pub fn borrow<'a, R, S>(&self, world: &'a World<R, S>) -> (b: WorldObjectBorrowed<'a, R, S>)
        requires
            world.holds(*self),
        ensures
            b.spec_entity() == world.entity_of(*self),
    {
        match &world.slot(self.uid()).entity {
            Some(Entity::RigidBody(rb)) => WorldObjectBorrowed::RigidBody(rb),
            Some(Entity::Sensor(s)) => WorldObjectBorrowed::Sensor(s),
            None => vstd::pervasive::unreached(),
        }
    }

    /// Borrows the entity this object refers to as a sensor; it must be one.
    pub fn borrow_sensor<'a, R, S>(&self, world: &'a World<R, S>) -> (s: &'a S)
        requires
            world.holds(*self),
            self.spec_is_sensor(),
        ensures
            world.entity_of(*self) == Entity::<R, S>::Sensor(*s),
    {
        match &world.slot(self.uid()).entity {
            Some(Entity::Sensor(s)) => s,
            _ => vstd::pervasive::unreached(),
        }
    }

    /// Borrows the entity this object refers to as a rigid body; it must be one.
    pub fn borrow_rigid_body<'a, R, S>(&self, world: &'a World<R, S>) -> (rb: &'a R)
        requires
            world.holds(*self),
            self.spec_is_rigid_body(),
        ensures
            world.entity_of(*self) == Entity::<R, S>::RigidBody(*rb),
    {
        match &world.slot(self.uid()).entity {
            Some(Entity::RigidBody(rb)) => rb,
            _ => vstd::pervasive::unreached(),
        }
    }

    /// Mutably borrows the entity this object refers to as a rigid body; it must be one.
    ///
    /// Whatever is written through the returned reference is what the world
    /// holds for this object afterwards; nothing else of the world changes.
    pub fn borrow_mut_rigid_body<'a, R, S>(&self, world: &'a mut World<R, S>) -> (rb: &'a mut R)
        requires
            old(world).wf(),
            old(world).holds(*self),
            self.spec_is_rigid_body(),
        ensures
            old(world).entity_of(*self) == Entity::<R, S>::RigidBody(*rb),
            final(world).wf(),
            final(world)@ == old(world)@.update(
                self.spec_uid() as int,
                Slot { generation: self.spec_generation(), entity: Some(Entity::RigidBody(*final(rb))) },
            ),
    {
        match &mut world.slot_mut(self.uid()).entity {
            Some(Entity::RigidBody(rb)) => rb,
            _ => vstd::pervasive::unreached(),
        }
    }

    /// Mutably borrows the entity this object refers to as a sensor; it must be one.
    ///
    /// Whatever is written through the returned reference is what the world
    /// holds for this object afterwards; nothing else of the world changes.
    pub fn borrow_mut_sensor<'a, R, S>(&self, world: &'a mut World<R, S>) -> (s: &'a mut S)
        requires
            old(world).wf(),
            old(world).holds(*self),
            self.spec_is_sensor(),
        ensures
            old(world).entity_of(*self) == Entity::<R, S>::Sensor(*s),
            final(world).wf(),
            final(world)@ == old(world)@.update(
                self.spec_uid() as int,
                Slot { generation: self.spec_generation(), entity: Some(Entity::Sensor(*final(s))) },
            ),
    {
        match &mut world.slot_mut(self.uid()).entity {
            Some(Entity::Sensor(s)) => s,
            _ => vstd::pervasive::unreached(),
        }
    }

    /// Mutably borrows the entity this object refers to.
    ///
    /// The view has the kind of this object. Whatever is written through it
    /// is what the world holds for this object afterwards; nothing else of
    /// the world changes.
    pub fn borrow_mut<'a, R, S>(&self, world: &'a mut World<R, S>) -> (b: WorldObjectBorrowedMut<'a, R, S>)
        requires
            old(world).wf(),
            old(world).holds(*self),
        ensures
            final(world).wf(),
            match b {
                WorldObjectBorrowedMut::RigidBody(rb) => {
                    &&& old(world).entity_of(*self) == Entity::<R, S>::RigidBody(*rb)
                    &&& final(world)@ == old(world)@.update(
                        self.spec_uid() as int,
                        Slot { generation: self.spec_generation(), entity: Some(Entity::RigidBody(*final(rb))) },
                    )
                },
                WorldObjectBorrowedMut::Sensor(s) => {
                    &&& old(world).entity_of(*self) == Entity::<R, S>::Sensor(*s)
                    &&& final(world)@ == old(world)@.update(
                        self.spec_uid() as int,
                        Slot { generation: self.spec_generation(), entity: Some(Entity::Sensor(*final(s))) },
                    )
                },
            },
    {
        match &mut world.slot_mut(self.uid()).entity {
            Some(Entity::RigidBody(rb)) => WorldObjectBorrowedMut::RigidBody(rb),
            Some(Entity::Sensor(s)) => WorldObjectBorrowedMut::Sensor(s),
            None => vstd::pervasive::unreached(),
        }
    }

    /// The generation of the slot this object was inserted in.
    pub open spec fn spec_generation(self) -> u64 {
        match self {
            WorldObject::RigidBody(rb) => rb.generation,
            WorldObject::Sensor(s) => s.generation,
        }
    }

    /// The generation of the slot this object was inserted in.
    pub fn generation(&self) -> (r: u64)
        ensures
            r == self.spec_generation(),
    {
        match self {
            WorldObject::RigidBody(rb) => rb.generation,
            WorldObject::Sensor(s) => s.generation,
        }
    }

    /// Returns a unique id for this world object.
    ///
    /// It stays the same as long as the entity is in its world, and no other
    /// entity of that world has it meanwhile.
    pub fn uid(&self) -> (r: usize)
        ensures
            r as nat == self.spec_uid(),
    {
        match self {
            WorldObject::RigidBody(rb) => WorldObject::rigid_body_uid(rb),
            WorldObject::Sensor(s) => WorldObject::sensor_uid(s),
        }
    }

    /// The unique identifier a sensor would have if it was wrapped on a `WorldObject`.
    pub fn sensor_uid(s: &SensorHandle) -> (r: usize)
        ensures
            r as nat == WorldObject::Sensor(*s).spec_uid(),
    {
        s.index
    }

    /// The unique identifier a rigid body would have if it was wrapped on a `WorldObject`.
    pub fn rigid_body_uid(rb: &RigidBodyHandle) -> (r: usize)
        ensures
            r as nat == WorldObject::RigidBody(*rb).spec_uid(),
    {
        rb.index
    }
}

} // verus!

verus! {

impl<'a, R, S> WorldObjectBorrowed<'a, R, S> {
    /// The borrowed entity.
    pub open spec fn spec_entity(self) -> Entity<R, S> {
        match self {
            WorldObjectBorrowed::RigidBody(rb) => Entity::RigidBody(*rb),
            WorldObjectBorrowed::Sensor(s) => Entity::Sensor(*s),
        }
    }

    /// Whether or not this is a rigid body.
    pub fn is_rigid_body(&self) -> (r: bool)
        ensures
            r == self is RigidBody,
    {
        match self {
            WorldObjectBorrowed::RigidBody(_) => true,
            _ => false,
        }
    }

    /// Whether or not this is a sensor.
    pub fn is_sensor(&self) -> (r: bool)
        ensures
            r == self is Sensor,
    {
        match self {
            WorldObjectBorrowed::Sensor(_) => true,
            _ => false,
        }
    }
}

impl<'a, R, S> WorldObjectBorrowed<'a, R, S> where
    R: Placed,
    S: Placed<Transform = R::Transform, Shape = R::Shape, Scalar = R::Scalar>,
 {
    /// This object's position.
    pub fn position(&self) -> (p: R::Transform)
        ensures
            match *self {
                WorldObjectBorrowed::RigidBody(rb) => call_ensures(R::position, (rb,), p),
                WorldObjectBorrowed::Sensor(s) => call_ensures(S::position, (s,), p),
            },
    {
        match self {
            WorldObjectBorrowed::RigidBody(rb) => rb.position(),
            WorldObjectBorrowed::Sensor(s) => s.position(),
        }
    }

    /// A reference to this object's geometrical shape.
    pub fn shape(&self) -> (sh: &R::Shape)
        ensures
            match *self {
                WorldObjectBorrowed::RigidBody(rb) => call_ensures(R::shape, (rb,), sh),
                WorldObjectBorrowed::Sensor(s) => call_ensures(S::shape, (s,), sh),
            },
    {
        match self {
            WorldObjectBorrowed::RigidBody(rb) => rb.shape(),
            WorldObjectBorrowed::Sensor(s) => s.shape(),
        }
    }

    /// This object's margin.
    pub fn margin(&self) -> (m: R::Scalar)
        ensures
            match *self {
                WorldObjectBorrowed::RigidBody(rb) => call_ensures(R::margin, (rb,), m),
                WorldObjectBorrowed::Sensor(s) => call_ensures(S::margin, (s,), m),
            },
    {
        match self {
            WorldObjectBorrowed::RigidBody(rb) => rb.margin(),
            WorldObjectBorrowed::Sensor(s) => s.margin(),
        }
    }
}

} // verus!

verus! {

impl<'a, R, S> WorldObjectBorrowedMut<'a, R, S> {
    /// The borrowed entity, as it stands now.
    pub open spec fn spec_entity(self) -> Entity<R, S> {
        match self {
            WorldObjectBorrowedMut::RigidBody(rb) => Entity::RigidBody(*rb),
            WorldObjectBorrowedMut::Sensor(s) => Entity::Sensor(*s),
        }
    }

    /// Whether or not this is a rigid body.
    pub fn is_rigid_body(&self) -> (r: bool)
        ensures
            r == self is RigidBody,
    {
        match self {
            WorldObjectBorrowedMut::RigidBody(_) => true,
            _ => false,
        }
    }

    /// Whether or not this is a sensor.
    pub fn is_sensor(&self) -> (r: bool)
        ensures
            r == self is Sensor,
    {
        match self {
            WorldObjectBorrowedMut::Sensor(_) => true,
            _ => false,
        }
    }
}

impl<'a, R, S> WorldObjectBorrowedMut<'a, R, S> where
    R: Placed,
    S: Placed<Transform = R::Transform, Shape = R::Shape, Scalar = R::Scalar>,
 {
    /// This object's position.
    pub fn position(&self) -> (p: R::Transform)
        ensures
            match *self {
                WorldObjectBorrowedMut::RigidBody(rb) => call_ensures(R::position, (&*rb,), p),
                WorldObjectBorrowedMut::Sensor(s) => call_ensures(S::position, (&*s,), p),
            },
    {
        match self {
            WorldObjectBorrowedMut::RigidBody(rb) => rb.position(),
            WorldObjectBorrowedMut::Sensor(s) => s.position(),
        }
    }

    /// A reference to this object's geometrical shape.
    pub fn shape(&self) -> (sh: &R::Shape)
        ensures
            match *self {
                WorldObjectBorrowedMut::RigidBody(rb) => call_ensures(R::shape, (&*rb,), sh),
                WorldObjectBorrowedMut::Sensor(s) => call_ensures(S::shape, (&*s,), sh),
            },
    {
        match self {
            WorldObjectBorrowedMut::RigidBody(rb) => rb.shape(),
            WorldObjectBorrowedMut::Sensor(s) => s.shape(),
        }
    }

    /// This object's margin.
    pub fn margin(&self) -> (m: R::Scalar)
        ensures
            match *self {
                WorldObjectBorrowedMut::RigidBody(rb) => call_ensures(R::margin, (&*rb,), m),
                WorldObjectBorrowedMut::Sensor(s) => call_ensures(S::margin, (&*s,), m),
            },
    {
        match self {
            WorldObjectBorrowedMut::RigidBody(rb) => rb.margin(),
            WorldObjectBorrowedMut::Sensor(s) => s.margin(),
        }
    }
}

} // verus!

verus! {

/// Two distinct objects that both refer to entities of one world have
/// distinct uids.
pub proof fn uid_distinct<R, S>(world: World<R, S>, a: WorldObject, b: WorldObject)
    requires
        world.holds(a),
        world.holds(b),
        a != b,
    ensures
        a.spec_uid() != b.spec_uid(),
{
    if a.spec_uid() == b.spec_uid() {
        match (a, b) {
            (WorldObject::RigidBody(x), WorldObject::RigidBody(y)) => assert(x == y),
            (WorldObject::Sensor(x), WorldObject::Sensor(y)) => assert(x == y),
            _ => {},
        }
    }
}

/// Exactly one of the two tags holds of an object, the one of the
/// constructor that made it, and an object that refers to an entity of a
/// world refers to one of that kind.
pub proof fn tag_agreement<R, S>(world: World<R, S>, o: WorldObject)
    ensures
        o.spec_is_rigid_body() != o.spec_is_sensor(),
        forall|rb: RigidBodyHandle|
            #![trigger WorldObject::RigidBody(rb).spec_is_rigid_body()]
            WorldObject::RigidBody(rb).spec_is_rigid_body() && !WorldObject::RigidBody(
                rb,
            ).spec_is_sensor(),
        forall|s: SensorHandle|
            #![trigger WorldObject::Sensor(s).spec_is_sensor()]
            WorldObject::Sensor(s).spec_is_sensor() && !WorldObject::Sensor(s).spec_is_rigid_body(),
        world.holds(o) ==> (o.spec_is_rigid_body() <==> world.entity_of(o) is RigidBody),
        world.holds(o) ==> (o.spec_is_sensor() <==> world.entity_of(o) is Sensor),
{
}

/// Unwrapping a rigid body handle `rb` wrapped in a world object gives back
/// a handle `r` with the same uid, which refers to the same entity of any
/// world.
pub proof fn unwrap_rigid_body_round_trip<R, S>(
    world: World<R, S>,
    rb: RigidBodyHandle,
    r: RigidBodyHandle,
)
    requires
        WorldObject::RigidBody(rb) == WorldObject::RigidBody(r),
    ensures
        WorldObject::RigidBody(r).spec_uid() == WorldObject::RigidBody(rb).spec_uid(),
        world.holds(WorldObject::RigidBody(r)) == world.holds(WorldObject::RigidBody(rb)),
        world.rigid_body(r) == world.rigid_body(rb),
{
}

} // verus!
