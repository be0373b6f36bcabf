//! Destructible objects: materials, health, destruction events and the
//! debris they leave. Health is in hit points, sizes in centimetres, times
//! in milliseconds, debris scales in thousandths.
use vstd::prelude::*;
use crate::mission::story_data::types::Position;
use crate::random::random_in;

verus! {

/// Three integer components (a size, a velocity or a direction); the unit
/// is given where it is used.
#[derive(Clone, Copy, Debug, PartialEq, Eq, Structural)]
pub struct Vector {
    pub x: i64,
    pub y: i64,
    pub z: i64,
}

/// What a destructible object is made of.
#[derive(Clone, Copy, Debug, PartialEq, Eq, Structural)]
pub enum DestructibleMaterial {
    /// Fragile, with see-through shards.
    Glass,
    /// Medium, with large chunks.
    Wood,
    /// Tough, with sparks.
    Metal,
    /// Breaks on light damage.
    Plastic,
}

impl Default for DestructibleMaterial {
    fn default() -> (m: DestructibleMaterial)
        ensures
            m == DestructibleMaterial::Glass,
    {
        DestructibleMaterial::Glass
    }
}

/// Starting health of a material.
pub open spec fn material_health(m: DestructibleMaterial) -> u32 {
    match m {
        DestructibleMaterial::Glass => 10,
        DestructibleMaterial::Wood => 50,
        DestructibleMaterial::Metal => 100,
        DestructibleMaterial::Plastic => 20,
    }
}

/// How long a material's debris lasts, in milliseconds.
pub open spec fn material_debris_lifetime(m: DestructibleMaterial) -> u64 {
    match m {
        DestructibleMaterial::Glass => 2000,
        DestructibleMaterial::Wood => 3000,
        DestructibleMaterial::Metal => 4000,
        DestructibleMaterial::Plastic => 2500,
    }
}

impl DestructibleMaterial {
    /// Starting health.
    pub fn base_health(&self) -> (h: u32)
        ensures
            h == material_health(*self),
    {
        match self {
            DestructibleMaterial::Glass => 10,
            DestructibleMaterial::Wood => 50,
            DestructibleMaterial::Metal => 100,
            DestructibleMaterial::Plastic => 20,
        }
    }

    /// Number of debris pieces.
    pub fn debris_count(&self) -> (n: usize)
        ensures
            n == match *self {
                DestructibleMaterial::Glass => 8usize,
                DestructibleMaterial::Wood => 5usize,
                DestructibleMaterial::Metal => 3usize,
                DestructibleMaterial::Plastic => 4usize,
            },
    {
        match self {
            DestructibleMaterial::Glass => 8,
            DestructibleMaterial::Wood => 5,
            DestructibleMaterial::Metal => 3,
            DestructibleMaterial::Plastic => 4,
        }
    }

    /// Smallest and largest debris scale, in thousandths.
    pub fn debris_scale_range(&self) -> (r: (u32, u32))
        ensures
            r == match *self {
                DestructibleMaterial::Glass => (50u32, 150u32),
                DestructibleMaterial::Wood => (100u32, 300u32),
                DestructibleMaterial::Metal => (80u32, 200u32),
                DestructibleMaterial::Plastic => (60u32, 180u32),
            },
            r.0 < r.1,
    {
        match self {
            DestructibleMaterial::Glass => (50, 150),
            DestructibleMaterial::Wood => (100, 300),
            DestructibleMaterial::Metal => (80, 200),
            DestructibleMaterial::Plastic => (60, 180),
        }
    }

    /// How long debris lasts, in milliseconds.
    pub fn debris_lifetime(&self) -> (t: u64)
        ensures
            t == material_debris_lifetime(*self),
    {
        match self {
            DestructibleMaterial::Glass => 2000,
            DestructibleMaterial::Wood => 3000,
            DestructibleMaterial::Metal => 4000,
            DestructibleMaterial::Plastic => 2500,
        }
    }
}

/// An object that can be broken.
#[derive(Clone, Copy, Debug, PartialEq, Eq, Structural)]
pub struct Destructible {
    pub material: DestructibleMaterial,
    pub health: u32,
    pub max_health: u32,
    pub is_destroyed: bool,
    /// Size before breaking (for the debris), in centimetres.
    pub original_size: Vector,
    /// When it was last hit, in milliseconds of play.
    pub last_damage_time: u64,
}

impl Default for Destructible {
    /// A one-metre glass cube.
    fn default() -> (d: Destructible)
        ensures
            d == (Destructible {
                material: DestructibleMaterial::Glass,
                health: 10,
                max_health: 10,
                is_destroyed: false,
                original_size: Vector { x: 100, y: 100, z: 100 },
                last_damage_time: 0,
            }),
    {
        Destructible {
            material: DestructibleMaterial::Glass,
            health: 10,
            max_health: 10,
            is_destroyed: false,
            original_size: Vector { x: 100, y: 100, z: 100 },
            last_damage_time: 0,
        }
    }
}

impl Destructible {
    /// An intact object of `material` and `size`, at the material's full health.
    pub fn new(material: DestructibleMaterial, size: Vector) -> (d: Destructible)
        ensures
            d == (Destructible {
                material,
                health: material_health(material),
                max_health: material_health(material),
                is_destroyed: false,
                original_size: size,
                last_damage_time: 0,
            }),
    {
        let base_health = material.base_health();
        Destructible {
            material,
            health: base_health,
            max_health: base_health,
            is_destroyed: false,
            original_size: size,
            last_damage_time: 0,
        }
    }

    /// A glass window five centimetres thick.
    pub fn glass_window(width: i64, height: i64) -> (d: Destructible)
        ensures
            d == Destructible::spec_new(DestructibleMaterial::Glass, Vector { x: width, y: height, z: 5 }),
    {
        Destructible::new(DestructibleMaterial::Glass, Vector { x: width, y: height, z: 5 })
    }

    /// A wooden plank.
    pub fn wooden_plank(width: i64, height: i64, depth: i64) -> (d: Destructible)
        ensures
            d == Destructible::spec_new(DestructibleMaterial::Wood, Vector { x: width, y: height, z: depth }),
    {
        Destructible::new(DestructibleMaterial::Wood, Vector { x: width, y: height, z: depth })
    }

    /// A metal plate two centimetres thick.
    pub fn metal_plate(width: i64, height: i64) -> (d: Destructible)
        ensures
            d == Destructible::spec_new(DestructibleMaterial::Metal, Vector { x: width, y: height, z: 2 }),
    {
        Destructible::new(DestructibleMaterial::Metal, Vector { x: width, y: height, z: 2 })
    }

    /// The object `new` makes.
    pub open spec fn spec_new(material: DestructibleMaterial, size: Vector) -> Destructible {
        Destructible {
            material,
            health: material_health(material),
            max_health: material_health(material),
            is_destroyed: false,
            original_size: size,
            last_damage_time: 0,
        }
    }

    /// Takes `amount` of damage at time `now`: health falls (not below
    /// zero) and reaching zero breaks the object. Returns whether this hit
    /// broke it; a broken object ignores further hits.
    pub fn take_damage(&mut self, amount: u32, now: u64) -> (broke: bool)
        ensures
            old(self).is_destroyed ==> !broke && *final(self) == *old(self),
            !old(self).is_destroyed ==> ({
                let h = if amount >= old(self).health { 0u32 } else { (old(self).health - amount) as u32 };
                &&& *final(self) == (Destructible {
                    health: h,
                    last_damage_time: now,
                    is_destroyed: h == 0,
                    ..*old(self)
                })
                &&& broke == (h == 0)
            }),
    {
        if self.is_destroyed {
            return false;
        }
        self.health = if amount >= self.health { 0 } else { self.health - amount };
        self.last_damage_time = now;
        if self.health == 0 {
            self.is_destroyed = true;
            return true;
        }
        false
    }
}

/// An object broke.
#[derive(Clone, Copy, Debug, PartialEq, Eq, Structural)]
pub struct DestructionEvent {
    /// The broken object.
    pub entity: u64,
    pub position: Position,
    pub material: DestructibleMaterial,
    /// Its size, in centimetres.
    pub size: Vector,
    /// Direction of the blow, in thousandths (where debris flies).
    pub impact_direction: Option<Vector>,
}

impl DestructionEvent {
    /// The breaking of `entity`, with no known blow direction.
    pub fn new(entity: u64, position: Position, material: DestructibleMaterial, size: Vector) -> (e: DestructionEvent)
        ensures
            e == (DestructionEvent { entity, position, material, size, impact_direction: None }),
    {
        DestructionEvent { entity, position, material, size, impact_direction: None }
    }

    /// Records the direction of the blow.
    pub fn with_impact_direction(self, direction: Vector) -> (e: DestructionEvent)
        ensures
            e == (DestructionEvent { impact_direction: Some(direction), ..self }),
    {
        let mut e = self;
        e.impact_direction = Some(direction);
        e
    }
}

/// A piece of debris.
#[derive(Clone, Copy, Debug, PartialEq, Eq, Structural)]
pub struct Debris {
    pub material: DestructibleMaterial,
    /// Centimetres per second.
    pub velocity: Vector,
    /// Thousandths of a radian per second.
    pub angular_velocity: Vector,
    /// Age, in milliseconds.
    pub lifetime: u64,
    pub max_lifetime: u64,
    pub has_gravity: bool,
    /// Bounces so far (bouncing stops after a few).
    pub bounce_count: u8,
}

/// A random spin on one axis, under five radians per second either way.
fn random_spin() -> (s: i64)
    ensures
        -5000 <= s < 5000,
{
    random_in(0, 9_999) as i64 - 5000
}

impl Debris {
    /// A fresh piece of `material` debris moving at `velocity`, spinning at
    /// random (under five radians per second on each axis), that lasts as
    /// long as the material's debris does.
    pub fn new(material: DestructibleMaterial, velocity: Vector) -> (d: Debris)
        ensures
            d.material == material,
            d.velocity == velocity,
            -5000 <= d.angular_velocity.x < 5000,
            -5000 <= d.angular_velocity.y < 5000,
            -5000 <= d.angular_velocity.z < 5000,
            d.lifetime == 0,
            d.max_lifetime == material_debris_lifetime(material),
            d.has_gravity,
            d.bounce_count == 0,
    {
        let x = random_spin();
        let y = random_spin();
        let z = random_spin();
        Debris {
            material,
            velocity,
            angular_velocity: Vector { x, y, z },
            lifetime: 0,
            max_lifetime: material.debris_lifetime(),
            has_gravity: true,
            bounce_count: 0,
        }
    }
}

/// Applies one hit to a destructible object (ignored once it is broken):
/// when the hit breaks it, returns its destruction event, with the blow's
/// direction when the hit position was known.
pub fn destructible_damage_system(
    destructible: &mut Destructible,
    entity: u64,
    position: Position,
    amount: u32,
    impact_direction: Option<Vector>,
    now: u64,
) -> (r: Option<DestructionEvent>)
    ensures
        old(destructible).is_destroyed ==> r is None && *final(destructible) == *old(destructible),
        !old(destructible).is_destroyed ==> ({
            let h = if amount >= old(destructible).health { 0u32 } else { (old(destructible).health - amount) as u32 };
            &&& *final(destructible) == (Destructible {
                health: h,
                last_damage_time: now,
                is_destroyed: h == 0,
                ..*old(destructible)
            })
            &&& h != 0 ==> r is None
            &&& h == 0 ==> r == Some(
                DestructionEvent {
                    entity,
                    position,
                    material: old(destructible).material,
                    size: old(destructible).original_size,
                    impact_direction,
                },
            )
        }),
{
    if destructible.is_destroyed {
        return None;
    }
    if !destructible.take_damage(amount, now) {
        return None;
    }
    let event = DestructionEvent::new(entity, position, destructible.material, destructible.original_size);
    match impact_direction {
        Some(d) => Some(event.with_impact_direction(d)),
        None => Some(event),
    }
}

} // verus!
