//! Destructible objects and their debris. Health in hit points, sizes in
//! centimetres, times in milliseconds.

use island_rampage::environment::{
    destructible_damage_system, Debris, Destructible, DestructibleMaterial, DestructionEvent, Vector,
};
use island_rampage::mission::story_data::types::Position;

#[test]
fn materials_table() {
    assert_eq!(DestructibleMaterial::Glass.base_health(), 10);
    assert_eq!(DestructibleMaterial::Wood.base_health(), 50);
    assert_eq!(DestructibleMaterial::Metal.base_health(), 100);
    assert_eq!(DestructibleMaterial::Plastic.base_health(), 20);
    assert_eq!(DestructibleMaterial::Glass.debris_count(), 8);
    assert_eq!(DestructibleMaterial::Metal.debris_scale_range(), (80, 200));
    assert_eq!(DestructibleMaterial::Plastic.debris_lifetime(), 2_500);
    assert_eq!(DestructibleMaterial::default(), DestructibleMaterial::Glass);
}

#[test]
fn builders_set_size_and_health() {
    let w = Destructible::glass_window(200, 150);
    assert_eq!(w.original_size, Vector { x: 200, y: 150, z: 5 });
    assert_eq!(w.health, 10);
    assert_eq!(w.max_health, 10);
    let m = Destructible::metal_plate(100, 100);
    assert_eq!(m.original_size.z, 2);
    assert_eq!(m.health, 100);
    let p = Destructible::wooden_plank(300, 20, 4);
    assert_eq!(p.material, DestructibleMaterial::Wood);
    assert_eq!(Destructible::default().health, 10);
}

#[test]
fn damage_breaks_once() {
    let mut w = Destructible::wooden_plank(100, 100, 5);
    assert!(!w.take_damage(20, 1_000));
    assert_eq!(w.health, 30);
    assert_eq!(w.last_damage_time, 1_000);
    assert!(w.take_damage(40, 2_000));
    assert_eq!(w.health, 0);
    assert!(w.is_destroyed);
    // A broken object ignores further hits.
    assert!(!w.take_damage(5, 3_000));
    assert_eq!(w.last_damage_time, 2_000);
}

#[test]
fn damage_system_reports_destruction() {
    let mut glass = Destructible::glass_window(100, 100);
    let at = Position::new(10, 20, 30);
    assert_eq!(destructible_damage_system(&mut glass, 9, at, 4, None, 100), None);
    let dir = Vector { x: 1000, y: 0, z: 0 };
    let e = destructible_damage_system(&mut glass, 9, at, 6, Some(dir), 200).unwrap();
    assert_eq!(
        e,
        DestructionEvent::new(9, at, DestructibleMaterial::Glass, Vector { x: 100, y: 100, z: 5 }).with_impact_direction(dir)
    );
    assert_eq!(destructible_damage_system(&mut glass, 9, at, 6, None, 300), None);
}

#[test]
fn debris_spins_within_limits() {
    for _ in 0..50 {
        let d = Debris::new(DestructibleMaterial::Metal, Vector { x: 0, y: 300, z: 0 });
        for s in [d.angular_velocity.x, d.angular_velocity.y, d.angular_velocity.z] {
            assert!((-5000..5000).contains(&s));
        }
        assert_eq!(d.max_lifetime, 4_000);
        assert_eq!(d.lifetime, 0);
        assert!(d.has_gravity);
    }
}
