use avian::collision::contact_types::Entity;
use avian::math::scalar::Scalar;
use avian::dim2::math::vector::Vector;
use avian::resources::Contact;
use avian::resources::DynamicContacts;
use avian::resources::Gravity;
use avian::resources::StaticContacts;
use avian::resources::SubDeltaTime;
use avian::resources::XPBDSubsteps;

#[test]
fn default_substeps_are_eight() {
    assert_eq!(XPBDSubsteps::default().0, 8);
    assert_eq!(XPBDSubsteps::default(), XPBDSubsteps(8));
}

#[test]
fn default_sub_delta_time_is_a_sixtieth_over_eight() {
    // 2^32 / 60 / 8, each quotient rounded toward zero
    assert_eq!(SubDeltaTime::default().0.raw, 8_947_848);
    let seconds = SubDeltaTime::default().0.raw as f64 / 4294967296.0;
    assert!((seconds - 1.0 / 480.0).abs() < 1e-9);
}

#[test]
fn default_gravity_points_down() {
    let gravity = Gravity::default();
    assert_eq!(gravity.0.x, Scalar::zero());
    assert_eq!(gravity.0.y.raw, -42_133_629_173);
    let y = gravity.0.y.raw as f64 / 4294967296.0;
    assert!((y + 9.81).abs() < 1e-9);
}

#[test]
fn contact_stores_begin_empty() {
    assert!(DynamicContacts::default().0.is_empty());
    assert!(StaticContacts::default().0.is_empty());
    let contact = Contact {
        entity_a: Entity { bits: 1 },
        entity_b: Entity { bits: 2 },
        r_a: Vector::zero(),
        r_b: Vector::zero(),
        normal: Vector::new(Scalar::one(), Scalar::zero()),
        penetration: Scalar::from_int(1),
    };
    let mut store = DynamicContacts::default();
    store.0.push(contact);
    assert_eq!(store.0[0], contact);
}
