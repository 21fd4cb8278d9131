//! What holds of every movement update.
use vstd::prelude::*;
use crate::keys::Key;
use crate::movement::{accumulated, heading, planned, StepView, SPEED};
use crate::orientation::Frame;
use crate::vector::Vector;

verus! {

/// For horizontal vectors, the product of the squared lengths is the square of the scalar
/// product plus the square of the cross product.
proof fn lemma_lagrange(d: Vector, h: Vector)
    requires
        d.y == 0,
        h.y == 0,
    ensures
        d.norm_sq() * h.norm_sq() == d.dot(h) * d.dot(h) + d.cross(h) * d.cross(h),
{
    let (a, b, p, q) = (d.x, d.z, h.x, h.z);
    let (ap, bq, bp, aq) = (a * p, b * q, b * p, a * q);
    assert((a * a) * (p * p) == ap * ap && (b * b) * (q * q) == bq * bq) by (nonlinear_arith)
        requires
            ap == a * p,
            bq == b * q,
    ;
    assert((b * b) * (p * p) == bp * bp && (a * a) * (q * q) == aq * aq) by (nonlinear_arith)
        requires
            bp == b * p,
            aq == a * q,
    ;
    assert(ap * bq == bp * aq) by (nonlinear_arith)
        requires
            ap == a * p,
            bq == b * q,
            bp == b * p,
            aq == a * q,
    ;
    assert((a * a + b * b) * (p * p + q * q) == (a * a) * (p * p) + (a * a) * (q * q) + (b * b)
        * (p * p) + (b * b) * (q * q)) by (nonlinear_arith);
    assert((ap + bq) * (ap + bq) == ap * ap + 2 * (ap * bq) + bq * bq) by (nonlinear_arith);
    assert((bp - aq) * (bp - aq) == bp * bp - 2 * (bp * aq) + aq * aq) by (nonlinear_arith);
    assert(d.y * d.y == 0 && h.y * h.y == 0 && d.y * h.y == 0) by (nonlinear_arith)
        requires
            d.y == 0,
            h.y == 0,
    ;
}

/// A horizontal vector parallel to `h` is fixed by its scalar product with `h`: each of
/// its coordinates, times the squared length of `h`, is that of `h` times the product.
proof fn lemma_parallel_coordinates(d: Vector, h: Vector)
    requires
        d.y == 0,
        h.y == 0,
        d.cross(h) == 0,
    ensures
        d.x * h.norm_sq() == h.x * d.dot(h),
        d.z * h.norm_sq() == h.z * d.dot(h),
{
    let c = d.z * h.x - d.x * h.z;
    assert(d.x * (h.x * h.x + h.z * h.z) == h.x * (d.x * h.x + d.z * h.z) - h.z * c)
        by (nonlinear_arith)
        requires
            c == d.z * h.x - d.x * h.z,
    ;
    assert(d.z * (h.x * h.x + h.z * h.z) == h.z * (d.x * h.x + d.z * h.z) + h.x * c)
        by (nonlinear_arith)
        requires
            c == d.z * h.x - d.x * h.z,
    ;
    assert(h.y * h.y == 0 && d.y * h.y == 0) by (nonlinear_arith)
        requires
            d.y == 0,
            h.y == 0,
    ;
    assert(h.z * c == 0 && h.x * c == 0) by (nonlinear_arith)
        requires
            c == 0,
    ;
}

/// A step stands for one displacement at most: two vectors that both are its
/// displacement are the same vector.
pub proof fn lemma_displacement_is_unique(step: StepView, first: Vector, second: Vector)
    requires
        step.is_displacement(first),
        step.is_displacement(second),
    ensures
        first == second,
{
    let h = step.heading.flat();
    if !h.is_zero() {
        let l = h.norm_sq();
        let s = first.dot(h);
        let t = second.dot(h);
        assert(l > 0) by (nonlinear_arith)
            requires
                l == h.x * h.x + h.y * h.y + h.z * h.z,
                h.x != 0 || h.z != 0,
        ;
        lemma_lagrange(first, h);
        lemma_lagrange(second, h);
        assert(s * s == t * t) by (nonlinear_arith)
            requires
                first.norm_sq() * l == s * s + first.cross(h) * first.cross(h),
                second.norm_sq() * l == t * t + second.cross(h) * second.cross(h),
                first.cross(h) == 0,
                second.cross(h) == 0,
                first.norm_sq() == second.norm_sq(),
        ;
        assert(s == t) by (nonlinear_arith)
            requires
                s * s == t * t,
                s >= 0,
                t >= 0,
        ;
        lemma_parallel_coordinates(first, h);
        lemma_parallel_coordinates(second, h);
        assert(first.x == second.x) by (nonlinear_arith)
            requires
                first.x * l == second.x * l,
                l > 0,
        ;
        assert(first.z == second.z) by (nonlinear_arith)
            requires
                first.z * l == second.z * l,
                l > 0,
        ;
    }
}

/// The displacement of a step with a horizontal direction and a reach above zero points
/// the way of the direction, not the opposite way and not across it.
pub proof fn lemma_displacement_has_the_sense_of_the_heading(step: StepView, d: Vector)
    requires
        step.is_displacement(d),
        !step.heading.flat().is_zero(),
        step.reach > 0,
    ensures
        d.dot(step.heading.flat()) > 0,
{
    let h = step.heading.flat();
    let r = step.reach as int;
    lemma_lagrange(d, h);
    assert(h.norm_sq() > 0) by (nonlinear_arith)
        requires
            h.norm_sq() == h.x * h.x + h.y * h.y + h.z * h.z,
            h.x != 0 || h.z != 0,
    ;
    assert(d.dot(h) != 0) by (nonlinear_arith)
        requires
            d.norm_sq() * h.norm_sq() == d.dot(h) * d.dot(h) + d.cross(h) * d.cross(h),
            d.cross(h) == 0,
            d.norm_sq() == r * r,
            r > 0,
            h.norm_sq() > 0,
    ;
}

/// Along an axis the displacement is a whole-number vector: a step whose direction has
/// one horizontal coordinate zero is displaced by `reach` on the other axis, toward the
/// side to which the direction points.
pub proof fn lemma_axis_displacement(step: StepView)
    requires
        !step.heading.flat().is_zero(),
        step.heading.x == 0 || step.heading.z == 0,
    ensures
        step.heading.x == 0 && step.heading.z > 0 ==> step.is_displacement(
            Vector { x: 0, y: 0, z: step.reach as int },
        ),
        step.heading.x == 0 && step.heading.z < 0 ==> step.is_displacement(
            Vector { x: 0, y: 0, z: -(step.reach as int) },
        ),
        step.heading.z == 0 && step.heading.x > 0 ==> step.is_displacement(
            Vector { x: step.reach as int, y: 0, z: 0 },
        ),
        step.heading.z == 0 && step.heading.x < 0 ==> step.is_displacement(
            Vector { x: -(step.reach as int), y: 0, z: 0 },
        ),
{
    let h = step.heading.flat();
    let r = step.reach as int;
    assert(0 * h.x == 0 && 0 * h.z == 0 && 0int * 0 == 0 && (-r) * (-r) == r * r)
        by (nonlinear_arith);
    assert(r * h.x >= 0 <== h.x >= 0) by (nonlinear_arith)
        requires
            r >= 0,
    ;
    assert(r * h.z >= 0 <== h.z >= 0) by (nonlinear_arith)
        requires
            r >= 0,
    ;
    assert((-r) * h.x >= 0 <== h.x <= 0) by (nonlinear_arith)
        requires
            r >= 0,
    ;
    assert((-r) * h.z >= 0 <== h.z <= 0) by (nonlinear_arith)
        requires
            r >= 0,
    ;
}

/// Displacement is always horizontal: the direction of a planned step has no vertical
/// part, and neither has its displacement, however the camera is pitched.
pub proof fn lemma_step_is_horizontal(camera: Frame, keys: Set<Key>, ticks: nat, d: Vector)
    ensures
        planned(keys, camera, ticks).heading.y == 0,
        planned(keys, camera, ticks).is_displacement(d) ==> d.y == 0,
{
}

/// Keys whose vectors sum to the zero vector ask for nothing: the displacement is the
/// zero vector and the player is not turned.
pub proof fn lemma_cancelled_keys_ask_nothing(
    camera: Frame,
    keys: Set<Key>,
    ticks: nat,
    d: Vector,
)
    requires
        accumulated(keys, camera).is_zero(),
    ensures
        !planned(keys, camera, ticks).turns(),
        planned(keys, camera, ticks).is_displacement(d) <==> d.is_zero(),
{
}

/// Keys whose vectors sum to a vertical vector ask for nothing either, as under a camera
/// that looks straight down: with no horizontal direction there is no motion and no turn.
pub proof fn lemma_vertical_sum_asks_nothing(
    camera: Frame,
    keys: Set<Key>,
    ticks: nat,
    d: Vector,
)
    requires
        heading(keys, camera).is_zero(),
    ensures
        !planned(keys, camera, ticks).turns(),
        planned(keys, camera, ticks).is_displacement(d) <==> d.is_zero(),
{
}

/// Opposite keys cancel: where forward is held exactly when back is, and left exactly
/// when right is, the vectors sum to zero. No key, forward with back, left with right and
/// all four are such sets.
pub proof fn lemma_opposite_keys_cancel(camera: Frame, keys: Set<Key>)
    requires
        keys.contains(Key::Forward) == keys.contains(Key::Back),
        keys.contains(Key::Left) == keys.contains(Key::Right),
    ensures
        accumulated(keys, camera).is_zero(),
{
}

/// The player is turned if and only if the direction of travel is not zero, and then
/// toward that direction.
pub proof fn lemma_turns_iff_heading_nonzero(camera: Frame, keys: Set<Key>, ticks: nat)
    ensures
        planned(keys, camera, ticks).turns() <==> !heading(keys, camera).is_zero(),
        planned(keys, camera, ticks).heading == heading(keys, camera),
{
}

/// With one key held, the direction of travel is the horizontal part of that key's
/// vector.
pub proof fn lemma_single_key_heading(camera: Frame, key: Key)
    ensures
        heading(set![key], camera) == camera.toward(key).flat(),
{
}

/// With one key held, the step is `SPEED * ticks` long and points along the horizontal
/// part of that key's vector, and it turns the player unless that part is zero.
pub proof fn lemma_single_key_step(camera: Frame, key: Key, ticks: nat)
    ensures
        planned(set![key], camera, ticks).reach == SPEED * ticks,
        planned(set![key], camera, ticks).heading == camera.toward(key).flat(),
        planned(set![key], camera, ticks).turns() <==> !camera.toward(key).flat().is_zero(),
{
    lemma_single_key_heading(camera, key);
}

/// With one key held, whatever vector is the step's displacement has the length
/// `SPEED * ticks` exactly, is parallel to the horizontal part of that key's vector, and
/// has its sense.
pub proof fn lemma_single_key_displacement(camera: Frame, key: Key, ticks: nat, d: Vector)
    requires
        !camera.toward(key).flat().is_zero(),
        planned(set![key], camera, ticks).is_displacement(d),
    ensures
        d.y == 0,
        d.norm_sq() == (SPEED * ticks) * (SPEED * ticks),
        d.cross(camera.toward(key).flat()) == 0,
        d.dot(camera.toward(key).flat()) >= 0,
        ticks > 0 ==> d.dot(camera.toward(key).flat()) > 0,
{
    lemma_single_key_heading(camera, key);
    if ticks > 0 {
        lemma_displacement_has_the_sense_of_the_heading(planned(set![key], camera, ticks), d);
    }
}

} // verus!
