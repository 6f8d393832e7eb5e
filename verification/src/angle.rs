//! Angles as an encoder measures them: whole counts on a wheel of a known
//! number of counts per revolution.

use vstd::prelude::*;

verus! {

/// The quotient of `numerator` by a positive `denominator`, rounded towards
/// zero.
pub open spec fn quotient_towards_zero(numerator: int, denominator: int) -> int {
    if numerator >= 0 {
        numerator / denominator
    } else {
        -((-numerator) / denominator)
    }
}

/// The position of a rotating member: the counts that its encoder has
/// stepped since tracking began, on a wheel of `counts_per_revolution`
/// counts, which stood `origin_offset_counts` counts from the origin when
/// tracking began. The wheel has at least one count per revolution.
#[derive(Clone, Copy, Debug, PartialEq, Eq, Structural)]
pub struct Angle {
    counts: i32,
    counts_per_revolution: u32,
    origin_offset_counts: i32,
}

impl Angle {
    #[verifier::type_invariant]
    spec fn well_formed(self) -> bool {
        self.counts_per_revolution > 0
    }

    /// The counts stepped since tracking began.
    pub closed spec fn spec_counts(&self) -> i32 {
        self.counts
    }

    /// The counts in one revolution.
    pub closed spec fn spec_counts_per_revolution(&self) -> u32 {
        self.counts_per_revolution
    }

    /// The counts between the origin and the position where tracking began.
    pub closed spec fn spec_origin_offset_counts(&self) -> i32 {
        self.origin_offset_counts
    }

    /// The counts between the origin and the present position.
    pub open spec fn counts_from_origin(&self) -> int {
        self.counts() + self.origin_offset_counts()
    }

    /// Whether this angle and `other` are measured on the same wheel from
    /// the same origin.
    pub open spec fn same_wheel(&self, other: Angle) -> bool {
        &&& self.counts_per_revolution() == other.counts_per_revolution()
        &&& self.origin_offset_counts() == other.origin_offset_counts()
    }

    /// The angle at which tracking begins, or `None` for a wheel without
    /// counts.
    pub fn new(counts_per_revolution: u32, origin_offset_counts: i32) -> (angle: Option<Angle>)
        ensures
            angle is Some <==> counts_per_revolution > 0,
            angle matches Some(a) ==> {
                &&& a.counts() == 0
                &&& a.counts_per_revolution() == counts_per_revolution
                &&& a.origin_offset_counts() == origin_offset_counts
            },
    {
        if counts_per_revolution == 0 {
            None
        } else {
            Some(Angle { counts: 0, counts_per_revolution, origin_offset_counts })
        }
    }

    /// The counts stepped since tracking began.
    #[verifier::when_used_as_spec(spec_counts)]
    pub fn counts(&self) -> (counts: i32)
        ensures
            counts == self.counts(),
    {
        self.counts
    }

    /// The counts in one revolution. Never zero.
    #[verifier::when_used_as_spec(spec_counts_per_revolution)]
    pub fn counts_per_revolution(&self) -> (counts: u32)
        ensures
            counts == self.counts_per_revolution(),
            counts > 0,
    {
        proof {
            use_type_invariant(self);
        }
        self.counts_per_revolution
    }

    /// The counts between the origin and the position where tracking began.
    #[verifier::when_used_as_spec(spec_origin_offset_counts)]
    pub fn origin_offset_counts(&self) -> (counts: i32)
        ensures
            counts == self.origin_offset_counts(),
    {
        self.origin_offset_counts
    }

    /// Whether the count has room for `change` more counts.
    pub open spec fn has_room_for(&self, change: int) -> bool {
        i32::MIN <= self.counts() + change <= i32::MAX
    }

    /// The same wheel with `change` more counts, where the count has room
    /// for them.
    pub closed spec fn moved_by(&self, change: int) -> Angle {
        Angle {
            counts: (self.counts + change) as i32,
            counts_per_revolution: self.counts_per_revolution,
            origin_offset_counts: self.origin_offset_counts,
        }
    }

    /// What `moved_by` gives: the same wheel, `change` counts further.
    pub proof fn lemma_moved_by(&self, change: int)
        requires
            self.has_room_for(change),
        ensures
            self.moved_by(change).counts() == self.counts() + change,
            self.moved_by(change).same_wheel(*self),
            self.moved_by(0) == *self,
    {
    }

    /// The same wheel moved by `change` counts, or `None` where the count
    /// would leave the range of 32 bits.
    pub fn stepped(&self, change: i8) -> (moved: Option<Angle>)
        ensures
            moved == if self.has_room_for(change as int) {
                Some(self.moved_by(change as int))
            } else {
                None
            },
            moved matches Some(a) ==> a.counts() == self.counts() + change && a.same_wheel(*self),
    {
        proof {
            use_type_invariant(self);
        }
        let wide: i64 = self.counts as i64 + change as i64;
        if wide < i32::MIN as i64 || wide > i32::MAX as i64 {
            None
        } else {
            Some(
                Angle {
                    counts: wide as i32,
                    counts_per_revolution: self.counts_per_revolution,
                    origin_offset_counts: self.origin_offset_counts,
                },
            )
        }
    }

    /// The angle from the origin in thousandths of a degree, rounded towards
    /// zero: a revolution is 360 000 of them.
    pub open spec fn millidegrees_from_origin(&self) -> int {
        quotient_towards_zero(
            self.counts_from_origin() * 360_000,
            self.counts_per_revolution() as int,
        )
    }

    /// The angle from the origin in whole degrees, rounded towards zero.
    pub open spec fn degrees_from_origin(&self) -> int {
        quotient_towards_zero(
            self.counts_from_origin() * 360,
            self.counts_per_revolution() as int,
        )
    }

    /// The angle from the origin in thousandths of a degree, rounded towards
    /// zero: a revolution is 360 000 of them.
    pub fn millidegrees(&self) -> (angle: i64)
        ensures
            angle == self.millidegrees_from_origin(),
    {
        proof {
            use_type_invariant(self);
        }
        let from_origin: i64 = self.counts as i64 + self.origin_offset_counts as i64;
        let per_revolution: i64 = self.counts_per_revolution as i64;
        if from_origin >= 0 {
            (from_origin * 360_000) / per_revolution
        } else {
            -(((-from_origin) * 360_000) / per_revolution)
        }
    }

    /// The angle from the origin in whole degrees, rounded towards zero.
    pub fn degrees(&self) -> (angle: i64)
        ensures
            angle == self.degrees_from_origin(),
    {
        proof {
            use_type_invariant(self);
        }
        let from_origin: i64 = self.counts as i64 + self.origin_offset_counts as i64;
        let per_revolution: i64 = self.counts_per_revolution as i64;
        if from_origin >= 0 {
            (from_origin * 360) / per_revolution
        } else {
            -(((-from_origin) * 360) / per_revolution)
        }
    }
}

} // verus!
