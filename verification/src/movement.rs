//! The movement update: what one frame of held keys asks of the player.
//!
//! Time is counted in ticks, equal subdivisions of the second, and distance in the same
//! subdivisions of the distance unit, so that five distance units per second are five
//! lattice units per tick.
use vstd::prelude::*;
use crate::keys::{Key, KeySet};
use crate::orientation::{Frame, Orientation};
use crate::vector::{Vec3, Vector};

verus! {

/// The player's speed, in lattice units per tick.
pub const SPEED: u64 = 5;

/// What one key adds to the direction: its camera-relative vector where it is held,
/// nothing where it is not.
pub open spec fn contribution(keys: Set<Key>, key: Key, camera: Frame) -> Vector {
    if keys.contains(key) {
        camera.toward(key)
    } else {
        Vector::zero()
    }
}

/// The sum of the camera-relative vectors of the keys that are held.
pub open spec fn accumulated(keys: Set<Key>, camera: Frame) -> Vector {
    contribution(keys, Key::Forward, camera).plus(contribution(keys, Key::Left, camera)).plus(
        contribution(keys, Key::Right, camera),
    ).plus(contribution(keys, Key::Back, camera))
}

/// The direction of travel: the accumulated vector projected onto the horizontal plane.
pub open spec fn heading(keys: Set<Key>, camera: Frame) -> Vector {
    accumulated(keys, camera).flat()
}

/// A step over unbounded numbers.
pub struct StepView {
    pub heading: Vector,
    pub reach: nat,
}

impl StepView {
    /// Whether the step turns the player: it does unless it has no horizontal direction.
    pub open spec fn turns(self) -> bool {
        !self.heading.flat().is_zero()
    }

    /// Whether the vector `d` is the displacement that the step stands for: horizontal
    /// and, where the step has a horizontal direction, parallel to it, of the same sense
    /// and `reach` long; zero where it has none. Length and parallelism are stated
    /// without a square root, on the squares and on the cross product. A step along a
    /// diagonal has a displacement with irrational coordinates, which no vector here is.
    pub open spec fn is_displacement(self, d: Vector) -> bool {
        let h = self.heading.flat();
        if h.is_zero() {
            d.is_zero()
        } else {
            &&& d.y == 0
            &&& d.cross(h) == 0
            &&& d.dot(h) >= 0
            &&& d.norm_sq() == self.reach * self.reach
        }
    }
}

/// What a frame asks of the player, exactly: to move `reach` lattice units along the
/// horizontal direction of `heading`, whatever the length of `heading`, and to turn to
/// face it. A `heading` without a horizontal part asks for neither.
#[derive(Clone, Copy, Debug, PartialEq, Eq, Structural)]
pub struct Step {
    pub heading: Vec3,
    pub reach: u128,
}

impl View for Step {
    type V = StepView;

    open spec fn view(&self) -> StepView {
        StepView { heading: self.heading@, reach: self.reach as nat }
    }
}

impl Step {
    /// Whether the step turns the player.
    pub fn turns(&self) -> (b: bool)
        ensures
            b == self@.turns(),
    {
        self.heading.x != 0 || self.heading.z != 0
    }
}

/// The step that the held keys ask for over `ticks`: along the direction of travel, as
/// far as the speed carries in that time.
pub open spec fn planned(keys: Set<Key>, camera: Frame, ticks: nat) -> StepView {
    StepView { heading: heading(keys, camera), reach: (SPEED * ticks) as nat }
}

/// The sum of two vectors that is known to fit.
fn sum(a: Vec3, b: Vec3) -> (v: Vec3)
    requires
        i64::MIN <= a.x + b.x <= i64::MAX,
        i64::MIN <= a.y + b.y <= i64::MAX,
        i64::MIN <= a.z + b.z <= i64::MAX,
    ensures
        v@ == a@.plus(b@),
{
    Vec3 { x: a.x + b.x, y: a.y + b.y, z: a.z + b.z }
}

/// The sum of the camera-relative vectors of the keys that are held.
pub fn accumulate(keys: &KeySet, camera: &Orientation) -> (direction: Vec3)
    ensures
        direction@ == accumulated(keys@, camera@),
{
    let mut direction = Vec3::zero();
    if keys.pressed(Key::Forward) {
        direction = sum(direction, camera.toward(Key::Forward));
    }
    if keys.pressed(Key::Left) {
        direction = sum(direction, camera.toward(Key::Left));
    }
    if keys.pressed(Key::Right) {
        direction = sum(direction, camera.toward(Key::Right));
    }
    if keys.pressed(Key::Back) {
        direction = sum(direction, camera.toward(Key::Back));
    }
    direction
}

/// Decides one frame of movement: the step along the direction that the held keys give
/// relative to the camera, `SPEED * ticks` long. The step is horizontal, and it is the
/// empty step, which neither moves nor turns the player, exactly when that direction is
/// zero.
pub fn movement_update(camera: &Orientation, keys: &KeySet, ticks: u64) -> (step: Step)
    ensures
        step@ == planned(keys@, camera@, ticks as nat),
        step.heading.y == 0,
        step@.turns() == !heading(keys@, camera@).is_zero(),
{
    let direction = accumulate(keys, camera).flatten();
    let reach: u128 = (SPEED as u128) * (ticks as u128);
    Step { heading: direction, reach }
}

} // verus!
