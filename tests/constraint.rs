use std::sync::{Arc, RwLock};

use nphysics::constraint::Constraint;
use nphysics::world::World;
use nphysics::world_object::WorldObject;

#[derive(Clone, Debug, PartialEq)]
struct Contact {
    normal: (f64, f64, f64),
    depth: f64,
}

#[derive(Debug, PartialEq)]
struct FixedJoint {
    stiffness: f64,
}

#[derive(Debug, PartialEq)]
struct BallInSocketJoint {
    anchor: (f64, f64, f64),
}

type Joints = Constraint<Contact, Arc<RwLock<BallInSocketJoint>>, Arc<RwLock<FixedJoint>>>;

#[test]
fn contact_constraint_round_trip() {
    let mut w: World<u32, u32> = World::new();
    let a = w.insert_rigid_body(1);
    let b = w.insert_rigid_body(2);
    let contact = Contact { normal: (0.0, 1.0, 0.0), depth: -0.01 };
    let c: Joints = Constraint::RBRB(a, b, contact.clone());
    match c.clone() {
        Constraint::RBRB(a2, b2, c2) => {
            assert_eq!(WorldObject::rigid_body_uid(&a2), WorldObject::rigid_body_uid(&a));
            assert_eq!(WorldObject::rigid_body_uid(&b2), WorldObject::rigid_body_uid(&b));
            assert_eq!(c2, contact);
        }
        _ => panic!("a contact came back as a joint"),
    }
}

#[test]
fn fixed_joint_clones_share_identity() {
    let joint = Arc::new(RwLock::new(FixedJoint { stiffness: 1.0 }));
    let first: Joints = Constraint::Fixed(joint.clone());
    let second = first.clone();
    match (&first, &second) {
        (Constraint::Fixed(j1), Constraint::Fixed(j2)) => {
            assert!(Arc::ptr_eq(j1, j2));
            assert!(Arc::ptr_eq(j1, &joint));
            j2.write().unwrap().stiffness = 2.0;
            assert_eq!(j1.read().unwrap().stiffness, 2.0);
        }
        _ => panic!("a fixed joint changed kind"),
    }
}

#[test]
fn ball_in_socket_clone_keeps_kind() {
    let joint = Arc::new(RwLock::new(BallInSocketJoint { anchor: (0.0, 0.5, 0.0) }));
    let c: Joints = Constraint::BallInSocket(joint.clone());
    match c.clone() {
        Constraint::BallInSocket(j) => assert!(Arc::ptr_eq(&j, &joint)),
        _ => panic!("a ball-in-socket joint changed kind"),
    }
}
