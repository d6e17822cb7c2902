use nphysics::world::{Entity, World};
use nphysics::world_object::{Placed, RigidBodyHandle, SensorHandle, WorldObject, WorldObjectBorrowedMut};

#[derive(Clone, Debug, PartialEq)]
struct Body {
    position: (f64, f64, f64),
    shape: String,
    margin: f64,
}

impl Placed for Body {
    type Transform = (f64, f64, f64);
    type Shape = String;
    type Scalar = f64;

    fn position(&self) -> (f64, f64, f64) {
        self.position
    }

    fn shape(&self) -> &String {
        &self.shape
    }

    fn margin(&self) -> f64 {
        self.margin
    }
}

fn body(x: f64, shape: &str, margin: f64) -> Body {
    Body { position: (x, 0.0, 0.0), shape: shape.to_string(), margin }
}

fn world_with_two() -> (World<Body, Body>, RigidBodyHandle, SensorHandle) {
    let mut w = World::new();
    let rb = w.insert_rigid_body(body(1.0, "ball", 0.04));
    let s = w.insert_sensor(body(2.0, "cuboid", 0.01));
    (w, rb, s)
}

#[test]
fn uid_is_stable() {
    let (mut w, rb, _) = world_with_two();
    let o = WorldObject::RigidBody(rb);
    let first = o.uid();
    w.insert_rigid_body(body(3.0, "ball", 0.0));
    assert_eq!(o.uid(), first);
    assert_eq!(WorldObject::rigid_body_uid(&rb), first);
}

#[test]
fn uids_of_live_objects_differ() {
    let (mut w, rb, s) = world_with_two();
    let rb2 = w.insert_rigid_body(body(3.0, "ball", 0.0));
    let a = WorldObject::RigidBody(rb);
    let b = WorldObject::Sensor(s);
    let c = WorldObject::RigidBody(rb2);
    assert_ne!(a.uid(), b.uid());
    assert_ne!(a.uid(), c.uid());
    assert_ne!(b.uid(), c.uid());
    assert_eq!(WorldObject::sensor_uid(&s), b.uid());
}

#[test]
fn tags_match_constructor() {
    let (_, rb, s) = world_with_two();
    let a = WorldObject::RigidBody(rb);
    let b = WorldObject::Sensor(s);
    assert!(a.is_rigid_body());
    assert!(!a.is_sensor());
    assert!(b.is_sensor());
    assert!(!b.is_rigid_body());
}

#[test]
fn unwrap_rigid_body_keeps_uid() {
    let (w, rb, _) = world_with_two();
    let o = WorldObject::RigidBody(rb);
    let back = o.unwrap_rigid_body();
    assert_eq!(back, rb);
    assert_eq!(WorldObject::rigid_body_uid(&back), WorldObject::rigid_body_uid(&rb));
    let again = WorldObject::RigidBody(back);
    assert_eq!(again.borrow_rigid_body(&w).shape, "ball");
}

#[test]
fn unwrap_sensor_keeps_handle() {
    let (_, _, s) = world_with_two();
    let back = WorldObject::Sensor(s).unwrap_sensor();
    assert_eq!(back, s);
    assert_eq!(WorldObject::sensor_uid(&back), WorldObject::sensor_uid(&s));
}

#[test]
fn fallible_accessors_check_the_tag() {
    let (_, rb, s) = world_with_two();
    let a = WorldObject::RigidBody(rb);
    let b = WorldObject::Sensor(s);
    assert_eq!(a.as_rigid_body(), Some(rb));
    assert_eq!(a.as_sensor(), None);
    assert_eq!(b.as_sensor(), Some(s));
    assert_eq!(b.as_rigid_body(), None);
}

#[test]
fn clone_shares_entity() {
    let (mut w, rb, _) = world_with_two();
    let o = WorldObject::RigidBody(rb);
    let copy = o.clone();
    copy.borrow_mut_rigid_body(&mut w).margin = 0.5;
    assert_eq!(o.borrow_rigid_body(&w).margin, 0.5);
    match copy.borrow_mut(&mut w) {
        WorldObjectBorrowedMut::RigidBody(b) => b.position = (7.0, 8.0, 9.0),
        WorldObjectBorrowedMut::Sensor(_) => panic!("a rigid body was borrowed as a sensor"),
    }
    assert_eq!(o.borrow(&w).position(), (7.0, 8.0, 9.0));
    assert_eq!(o.uid(), copy.uid());
}

#[test]
fn shared_view_reads_either_kind() {
    let (w, rb, s) = world_with_two();
    let a = WorldObject::RigidBody(rb);
    let b = WorldObject::Sensor(s);
    let va = a.borrow(&w);
    let vb = b.borrow(&w);
    assert!(va.is_rigid_body() && !va.is_sensor());
    assert!(vb.is_sensor() && !vb.is_rigid_body());
    assert_eq!(va.position(), (1.0, 0.0, 0.0));
    assert_eq!(vb.position(), (2.0, 0.0, 0.0));
    assert_eq!(va.shape(), "ball");
    assert_eq!(vb.shape(), "cuboid");
    assert_eq!(va.margin(), 0.04);
    assert_eq!(vb.margin(), 0.01);
    assert_eq!(b.borrow_sensor(&w).shape, "cuboid");
}

#[test]
fn exclusive_view_reads_and_writes_either_kind() {
    let (mut w, _, s) = world_with_two();
    let b = WorldObject::Sensor(s);
    {
        let v = b.borrow_mut(&mut w);
        assert!(v.is_sensor() && !v.is_rigid_body());
        assert_eq!(v.position(), (2.0, 0.0, 0.0));
        assert_eq!(v.shape(), "cuboid");
        assert_eq!(v.margin(), 0.01);
    }
    b.borrow_mut_sensor(&mut w).shape = "cone".to_string();
    assert_eq!(b.borrow(&w).shape(), "cone");
}

#[test]
fn removed_object_is_stale() {
    let (mut w, rb, s) = world_with_two();
    let a = WorldObject::RigidBody(rb);
    let b = WorldObject::Sensor(s);
    assert!(w.contains(&a));
    assert_eq!(w.remove(&a), Some(Entity::RigidBody(body(1.0, "ball", 0.04))));
    assert!(!w.contains(&a));
    assert!(w.contains(&b));
    assert_eq!(w.remove(&a), None);
    let rb2 = w.insert_rigid_body(body(5.0, "ball", 0.0));
    let c = WorldObject::RigidBody(rb2);
    assert_eq!(c.uid(), a.uid());
    assert_ne!(c, a);
    assert!(!w.contains(&a));
    assert!(w.contains(&c));
    assert_eq!(c.borrow_rigid_body(&w).position, (5.0, 0.0, 0.0));
}

#[test]
fn object_of_the_wrong_kind_is_not_contained() {
    let (mut w, rb, _) = world_with_two();
    let wrong = WorldObject::Sensor(SensorHandle { index: rb.index, generation: rb.generation });
    assert!(!w.contains(&wrong));
    assert_eq!(w.remove(&wrong), None);
    let beyond = WorldObject::RigidBody(RigidBodyHandle { index: 10, generation: 0 });
    assert!(!w.contains(&beyond));
    assert!(w.contains(&WorldObject::RigidBody(rb)));
}

#[test]
fn two_bodies_of_a_contact_borrowed_together() {
    let (mut w, a, _) = world_with_two();
    let b = w.insert_rigid_body(body(4.0, "capsule", 0.02));
    {
        let (x, y) = w.borrow_mut_rigid_bodies(&b, &a);
        assert_eq!(x.shape, "capsule");
        assert_eq!(y.shape, "ball");
        x.margin = 0.3;
        y.margin = 0.6;
    }
    assert_eq!(WorldObject::RigidBody(a).borrow(&w).margin(), 0.6);
    assert_eq!(WorldObject::RigidBody(b).borrow(&w).margin(), 0.3);
}
