//! Angles that keep the integer lattice in place: whole quarter turns.

use crate::arith::lemma_mul_by_sign;
use vstd::arithmetic::div_mod::lemma_mod_mod;
use vstd::prelude::*;

verus! {

/// A counter-clockwise turn by a whole number of quarter turns, taken modulo
/// a full turn.
#[derive(Clone, Copy, Debug, PartialEq, Eq, Structural)]
pub enum Angle {
    Zero,
    Quarter,
    Half,
    ThreeQuarters,
}

/// The degrees `d` reduced to a single turn, from 0 to 359.
fn rem_full_turn(d: i64) -> (r: i64)
    ensures
        r == d % 360,
        0 <= r < 360,
{
    if d >= 0 {
        d % 360
    } else {
        359 - (-(d + 1)) % 360
    }
}

impl Angle {
    /// The number of quarter turns, from 0 to 3.
    pub open spec fn quarter_turns(self) -> int {
        match self {
            Angle::Zero => 0,
            Angle::Quarter => 1,
            Angle::Half => 2,
            Angle::ThreeQuarters => 3,
        }
    }

    /// The angle of `n` quarter turns, for `n` from 0 to 3.
    pub open spec fn of_quarter_turns(n: int) -> Angle {
        if n == 0 {
            Angle::Zero
        } else if n == 1 {
            Angle::Quarter
        } else if n == 2 {
            Angle::Half
        } else {
            Angle::ThreeQuarters
        }
    }

    pub open spec fn cos_spec(self) -> int {
        match self {
            Angle::Zero => 1,
            Angle::Quarter => 0,
            Angle::Half => -1,
            Angle::ThreeQuarters => 0,
        }
    }

    pub open spec fn sin_spec(self) -> int {
        match self {
            Angle::Zero => 0,
            Angle::Quarter => 1,
            Angle::Half => 0,
            Angle::ThreeQuarters => -1,
        }
    }

    /// The angle of `n` quarter turns counter-clockwise; a negative `n`
    /// turns clockwise.
    pub fn from_quarter_turns(n: i64) -> (a: Angle)
        ensures
            a == Angle::of_quarter_turns((n % 4) as int),
            a.quarter_turns() == n % 4,
    {
        let r: i64 = if n >= 0 {
            n % 4
        } else {
            3 - (-(n + 1)) % 4
        };
        if r == 0 {
            Angle::Zero
        } else if r == 1 {
            Angle::Quarter
        } else if r == 2 {
            Angle::Half
        } else {
            Angle::ThreeQuarters
        }
    }

    /// The angle of `d` degrees, where that is a whole number of quarter turns.
    pub fn from_degrees(d: i64) -> (a: Option<Angle>)
        ensures
            d % 90 == 0 ==> a == Some(Angle::of_quarter_turns(((d % 360) / 90) as int)),
            d % 90 != 0 ==> a.is_none(),
    {
        let r: i64 = rem_full_turn(d);
        proof {
            lemma_mod_mod(d as int, 90, 4);
        }
        if r == 0 {
            Some(Angle::Zero)
        } else if r == 90 {
            Some(Angle::Quarter)
        } else if r == 180 {
            Some(Angle::Half)
        } else if r == 270 {
            Some(Angle::ThreeQuarters)
        } else {
            None
        }
    }

    pub fn cos(&self) -> (c: i64)
        ensures
            c == self.cos_spec(),
    {
        match self {
            Angle::Zero => 1,
            Angle::Quarter => 0,
            Angle::Half => -1,
            Angle::ThreeQuarters => 0,
        }
    }

    pub fn sin(&self) -> (s: i64)
        ensures
            s == self.sin_spec(),
    {
        match self {
            Angle::Zero => 0,
            Angle::Quarter => 1,
            Angle::Half => 0,
            Angle::ThreeQuarters => -1,
        }
    }

    /// Cosine and sine lie on the unit circle, and each is -1, 0 or 1.
    pub proof fn lemma_unit_circle(self)
        ensures
            self.cos_spec() * self.cos_spec() + self.sin_spec() * self.sin_spec() == 1,
            -1 <= self.cos_spec() <= 1,
            -1 <= self.sin_spec() <= 1,
    {
        lemma_mul_by_sign(self.cos_spec(), self.cos_spec());
        lemma_mul_by_sign(self.sin_spec(), self.sin_spec());
    }
}

} // verus!
