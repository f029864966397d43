use crate::vector::Vector;
use core::ops::{Add, Div, Mul, Neg};
use vstd::prelude::*;
use vstd::std_specs::ops::{AddSpec, DivSpec, MulSpec, NegSpec};

verus! {

/// What the simulation asks of its numbers: they can be copied, negated,
/// added, multiplied and divided, each time giving a number of the same type.
/// Every type that can do so is a `Scalar`.
pub trait Scalar: Copy + Neg<Output = Self> + Add<Output = Self> + Mul<Output = Self> + Div<
    Output = Self,
> {
}

impl<T: Copy + Neg<Output = T> + Add<Output = T> + Mul<Output = T> + Div<Output = T>> Scalar for T {
}

/// A ball on a rigid arm that swings about a fixed pivot.
///
/// `angle` is measured from the downward vertical. One step is one unit of
/// time, so the velocity is an angle per step and the acceleration an angle
/// per step squared.
#[derive(Debug)]
pub struct Pendulum<T> {
    /// The pivot. No step moves it.
    pub origin: Vector<T>,
    /// Where the ball is. Every step computes it afresh.
    pub position: Vector<T>,
    pub angle: T,
    pub angular_velocity: T,
    /// The acceleration that the last step applied.
    pub angular_acceleration: T,
    pub arm_length: T,
    pub gravity: T,
}

impl<T: Copy> Pendulum<T> {
    /// The state that `new` builds.
    pub open spec fn fresh(
        origin_x: T,
        origin_y: T,
        arm_length: T,
        gravity: T,
        angle: T,
        rest: T,
    ) -> Self {
        Pendulum {
            origin: Vector::of(origin_x, origin_y),
            position: Vector::of(rest, rest),
            angle,
            angular_velocity: rest,
            angular_acceleration: rest,
            arm_length,
            gravity,
        }
    }

    /// Whether two pendulums agree on all that a step reads: pivot, angle,
    /// velocity, arm and gravity. The ball and the stored acceleration may
    /// differ.
    pub open spec fn same_motion(self, other: Self) -> bool {
        &&& self.origin == other.origin
        &&& self.angle == other.angle
        &&& self.angular_velocity == other.angular_velocity
        &&& self.arm_length == other.arm_length
        &&& self.gravity == other.gravity
    }

    /// A pendulum hung at `(origin_x, origin_y)` and held at `angle`.
    ///
    /// `rest` is the scalar's zero: the pendulum starts with that velocity and
    /// that acceleration, and the ball is parked at `(rest, rest)` until the
    /// first step places it.
    pub fn new(origin_x: T, origin_y: T, arm_length: T, gravity: T, angle: T, rest: T) -> (p: Self)
        ensures
            p == Self::fresh(origin_x, origin_y, arm_length, gravity, angle, rest),
    {
        Pendulum {
            origin: Vector::new(origin_x, origin_y),
            position: Vector::new(rest, rest),
            angle,
            angular_velocity: rest,
            angular_acceleration: rest,
            arm_length,
            gravity,
        }
    }
}

impl<T: Scalar> Pendulum<T> {
    /// Whether each of the four operators of `T` returns what `neg_spec`,
    /// `add_spec`, `mul_spec` and `div_spec` give for its operands.
    pub open spec fn exact() -> bool {
        &&& T::obeys_neg_spec()
        &&& T::obeys_add_spec()
        &&& T::obeys_mul_spec()
        &&& T::obeys_div_spec()
    }

    /// The restoring acceleration at an angle whose sine is `sin_angle`:
    /// `-gravity * sin_angle / arm_length`, evaluated from left to right.
    pub open spec fn acceleration_at(self, sin_angle: T) -> T {
        self.gravity.neg_spec().mul_spec(sin_angle).div_spec(self.arm_length)
    }

    /// Whether `T` admits every operation of `swung` on these values.
    pub open spec fn can_swing(self, sin_angle: T) -> bool {
        let pull = self.acceleration_at(sin_angle);
        &&& self.gravity.neg_req()
        &&& self.gravity.neg_spec().mul_req(sin_angle)
        &&& self.gravity.neg_spec().mul_spec(sin_angle).div_req(self.arm_length)
        &&& self.angular_velocity.add_req(pull)
        &&& self.angle.add_req(self.angular_velocity.add_spec(pull))
    }

    /// The pendulum after the angular half of a step. The acceleration comes
    /// from the angle before the step, the velocity takes that acceleration up,
    /// and the angle then moves by the new velocity, not the old one.
    pub open spec fn swung(self, sin_angle: T) -> Self {
        let pull = self.acceleration_at(sin_angle);
        let speed = self.angular_velocity.add_spec(pull);
        Pendulum {
            angular_acceleration: pull,
            angular_velocity: speed,
            angle: self.angle.add_spec(speed),
            ..self
        }
    }

    /// Where the ball hangs when the sine and cosine of the angle are as given:
    /// `arm_length * (sin_angle, cos_angle)`, moved by `origin`.
    pub open spec fn ball_at(self, sin_angle: T, cos_angle: T) -> Vector<T> {
        Vector::of(
            self.arm_length.mul_spec(sin_angle),
            self.arm_length.mul_spec(cos_angle),
        ).plus(self.origin)
    }

    /// Whether `T` admits every operation of `ball_at` on these values.
    pub open spec fn can_place(self, sin_angle: T, cos_angle: T) -> bool {
        &&& self.arm_length.mul_req(sin_angle)
        &&& self.arm_length.mul_req(cos_angle)
        &&& Vector::of(
            self.arm_length.mul_spec(sin_angle),
            self.arm_length.mul_spec(cos_angle),
        ).can_add(self.origin)
    }

    /// The pendulum with its ball put where `ball_at` says.
    pub open spec fn placed(self, sin_angle: T, cos_angle: T) -> Self {
        Pendulum { position: self.ball_at(sin_angle, cos_angle), ..self }
    }

    /// One whole step: `sin_before` is the sine of the angle before the step,
    /// `sin_after` and `cos_after` are the sine and cosine of the angle that
    /// the step arrives at.
    pub open spec fn stepped(self, sin_before: T, sin_after: T, cos_after: T) -> Self {
        self.swung(sin_before).placed(sin_after, cos_after)
    }

    /// The pendulum after one step for each entry of `readings`, first entry
    /// first. An entry holds what `stepped` takes, in that order.
    pub open spec fn run(self, readings: Seq<(T, T, T)>) -> Self
        decreases readings.len(),
    {
        if readings.len() == 0 {
            self
        } else {
            let last = readings.last();
            self.run(readings.drop_last()).stepped(last.0, last.1, last.2)
        }
    }

    /// Whether one step from `self` can have read these three values from `sin`
    /// and `cos`: the sine of the angle before the step, then the sine and the
    /// cosine of the angle after it.
    pub open spec fn reads<S: Fn(T) -> T, C: Fn(T) -> T>(
        self,
        sin: S,
        cos: C,
        sin_before: T,
        sin_after: T,
        cos_after: T,
    ) -> bool {
        let arrived = self.swung(sin_before).angle;
        &&& sin.ensures((self.angle,), sin_before)
        &&& sin.ensures((arrived,), sin_after)
        &&& cos.ensures((arrived,), cos_after)
    }

    /// Whether a step from `self` may ask `sin` and `cos` where it does, and `T`
    /// admits every operation of the step on whatever they answer.
    pub open spec fn can_update<S: Fn(T) -> T, C: Fn(T) -> T>(self, sin: S, cos: C) -> bool {
        &&& sin.requires((self.angle,))
        &&& forall|s0: T| #[trigger]
            sin.ensures((self.angle,), s0) ==> {
                &&& self.can_swing(s0)
                &&& sin.requires((self.swung(s0).angle,))
                &&& cos.requires((self.swung(s0).angle,))
            }
        &&& forall|s0: T, s1: T, c1: T| #[trigger]
            self.reads(sin, cos, s0, s1, c1) ==> self.swung(s0).can_place(s1, c1)
    }

    /// Advances acceleration, velocity and angle by one step, given the sine of
    /// the present angle. The ball is not moved.
    ///
    /// Division by `arm_length` must be admitted by `T`: for the integer types
    /// that rules out an arm of length zero.
    pub fn swing(&mut self, sin_angle: T)
        requires
            Self::exact(),
            old(self).can_swing(sin_angle),
        ensures
            *final(self) == old(self).swung(sin_angle),
    {
        self.angular_acceleration = self.gravity.neg() * sin_angle / self.arm_length;
        self.angular_velocity = self.angular_velocity + self.angular_acceleration;
        self.angle = self.angle + self.angular_velocity;
    }

    /// Puts the ball at the end of the arm, given the sine and cosine of the
    /// present angle. Nothing else changes.
    pub fn place(&mut self, sin_angle: T, cos_angle: T)
        requires
            Self::exact(),
            old(self).can_place(sin_angle, cos_angle),
        ensures
            *final(self) == old(self).placed(sin_angle, cos_angle),
    {
        self.position.set(self.arm_length * sin_angle, self.arm_length * cos_angle);
        self.position.add(&self.origin);
    }

    /// One step of the simulation: `swing`, then `place`, with the sines and the
    /// cosine taken from `sin` and `cos`.
    ///
    /// Nothing is assumed of what `sin` and `cos` return, so the result is
    /// stated for whichever values they gave: `sin` is asked at the angle before
    /// the step and again at the angle after it, `cos` at the angle after it.
    pub fn update<S: Fn(T) -> T, C: Fn(T) -> T>(&mut self, sin: S, cos: C)
        requires
            Self::exact(),
            old(self).can_update(sin, cos),
        ensures
            exists|s0: T, s1: T, c1: T| #[trigger]
                old(self).reads(sin, cos, s0, s1, c1) && *final(self) == old(self).stepped(
                    s0,
                    s1,
                    c1,
                ),
    {
        let sin_before = sin(self.angle);
        self.swing(sin_before);
        let sin_after = sin(self.angle);
        let cos_after = cos(self.angle);
        proof {
            assert(old(self).reads(sin, cos, sin_before, sin_after, cos_after));
        }
        self.place(sin_after, cos_after);
    }
}

/// The first step from rest. The acceleration is `-gravity * sin / arm_length`
/// at the starting angle, the velocity is `rest` plus that acceleration, the
/// angle is the starting angle plus that velocity, and the ball hangs at
/// `origin + arm_length * (sin, cos)` of the angle arrived at.
pub proof fn lemma_first_step<T: Scalar>(
    origin_x: T,
    origin_y: T,
    arm_length: T,
    gravity: T,
    angle: T,
    rest: T,
    sin_before: T,
    sin_after: T,
    cos_after: T,
)
    ensures
        ({
            let start = Pendulum::fresh(origin_x, origin_y, arm_length, gravity, angle, rest);
            let end = start.stepped(sin_before, sin_after, cos_after);
            let pull = gravity.neg_spec().mul_spec(sin_before).div_spec(arm_length);
            &&& end.angular_acceleration == pull
            &&& end.angular_velocity == rest.add_spec(pull)
            &&& end.angle == angle.add_spec(rest.add_spec(pull))
            &&& end.position.x == arm_length.mul_spec(sin_after).add_spec(origin_x)
            &&& end.position.y == arm_length.mul_spec(cos_after).add_spec(origin_y)
            &&& end.origin == start.origin
            &&& end.arm_length == arm_length
            &&& end.gravity == gravity
        }),
{
}

/// Hanging straight down and not moving, the pendulum stays so. `zero` is the
/// angle, the velocity and the sine of the angle; it has to behave as zero on
/// the values involved: a product with it and its quotient by the arm are
/// `zero`, and so is its sum with itself.
pub proof fn lemma_hanging_still<T: Scalar>(p: Pendulum<T>, zero: T)
    requires
        p.angle == zero,
        p.angular_velocity == zero,
        p.gravity.neg_spec().mul_spec(zero) == zero,
        zero.div_spec(p.arm_length) == zero,
        zero.add_spec(zero) == zero,
    ensures
        p.acceleration_at(zero) == zero,
        p.swung(zero).angular_acceleration == zero,
        p.swung(zero).angular_velocity == zero,
        p.swung(zero).angle == zero,
{
}

/// A step reads neither the ball nor the stored acceleration: both are
/// computed afresh. So two pendulums with the same motion are equal after one
/// step on the same readings.
pub proof fn lemma_step_forgets<T: Scalar>(a: Pendulum<T>, b: Pendulum<T>, sin_before: T, sin_after: T, cos_after: T)
    requires
        a.same_motion(b),
    ensures
        a.stepped(sin_before, sin_after, cos_after) == b.stepped(sin_before, sin_after, cos_after),
{
}

/// A run is decided by the starting motion and the readings alone: from the
/// same motion, the same readings lead to the same motion, and after at least
/// one step to the same state in every field.
pub proof fn lemma_run_deterministic<T: Scalar>(a: Pendulum<T>, b: Pendulum<T>, readings: Seq<(T, T, T)>)
    requires
        a.same_motion(b),
    ensures
        a.run(readings).same_motion(b.run(readings)),
        readings.len() > 0 ==> a.run(readings) == b.run(readings),
    decreases readings.len(),
{
    if readings.len() > 0 {
        let last = readings.last();
        lemma_run_deterministic(a, b, readings.drop_last());
        lemma_step_forgets(
            a.run(readings.drop_last()),
            b.run(readings.drop_last()),
            last.0,
            last.1,
            last.2,
        );
    }
}

/// A step with `update` has one outcome, if `sin` and `cos` are functions of
/// their argument: whatever readings two such steps took from the same motion,
/// the readings agree and so do the states arrived at.
pub proof fn lemma_update_deterministic<
    T: Scalar,
    S: Fn(T) -> T,
    C: Fn(T) -> T,
>(a: Pendulum<T>, b: Pendulum<T>, sin: S, cos: C, first: (T, T, T), second: (T, T, T))
    requires
        a.same_motion(b),
        forall|x: T, y: T, z: T| #[trigger]
            sin.ensures((x,), y) && #[trigger] sin.ensures((x,), z) ==> y == z,
        forall|x: T, y: T, z: T| #[trigger]
            cos.ensures((x,), y) && #[trigger] cos.ensures((x,), z) ==> y == z,
        a.reads(sin, cos, first.0, first.1, first.2),
        b.reads(sin, cos, second.0, second.1, second.2),
    ensures
        first == second,
        a.stepped(first.0, first.1, first.2) == b.stepped(second.0, second.1, second.2),
{
}

/// No run moves the pivot, stretches the arm or changes gravity.
pub proof fn lemma_run_keeps_constants<T: Scalar>(a: Pendulum<T>, readings: Seq<(T, T, T)>)
    ensures
        a.run(readings).origin == a.origin,
        a.run(readings).arm_length == a.arm_length,
        a.run(readings).gravity == a.gravity,
    decreases readings.len(),
{
    if readings.len() > 0 {
        lemma_run_keeps_constants(a, readings.drop_last());
    }
}

/// After any run of at least one step the ball hangs at
/// `origin + arm_length * (sin, cos)` of the last readings.
pub proof fn lemma_ball_follows_angle<T: Scalar>(a: Pendulum<T>, readings: Seq<(T, T, T)>)
    requires
        readings.len() > 0,
    ensures
        a.run(readings).position == a.ball_at(readings.last().1, readings.last().2),
{
    lemma_run_keeps_constants(a, readings.drop_last());
}

} // verus!
