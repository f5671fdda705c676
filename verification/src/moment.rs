//! Fixed-point simulation time: whole seconds plus thousandths of a second.
use core::cmp::Ordering;
use vstd::prelude::*;

verus! {

/// A point on (or a span of) the simulation clock.
///
/// `s` counts whole seconds and `m` counts thousandths. A moment is
/// *normalized* when `0 <= m < 1000`; addition always returns a normalized
/// moment.
#[derive(Clone, Copy, PartialEq, Eq, Structural, Debug)]
pub struct Moment {
    pub s: i32,
    pub m: i32,
}

impl Moment {
    /// The moment's position on the clock, in thousandths of a second.
    pub open spec fn millis(self) -> int {
        self.s * 1000 + self.m
    }

    /// The subsecond part lies in `[0, 1000)`.
    pub open spec fn normalized(self) -> bool {
        0 <= self.m < 1000
    }

    /// Neither part is below zero.
    pub open spec fn non_negative(self) -> bool {
        self.s >= 0 && self.m >= 0
    }

    /// `self` comes strictly before `other`: seconds decide, then subseconds.
    pub open spec fn before(self, other: Moment) -> bool {
        self.s < other.s || (self.s == other.s && self.m < other.m)
    }

    /// `self` comes before `other` or is the same moment.
    pub open spec fn at_or_before(self, other: Moment) -> bool {
        self.s < other.s || (self.s == other.s && self.m <= other.m)
    }

    /// The seconds of the normalized sum, carry included.
    pub open spec fn sum_seconds(self, other: Moment) -> int {
        self.s + other.s + (self.m + other.m) / 1000
    }

    /// The subseconds of the normalized sum.
    pub open spec fn sum_subseconds(self, other: Moment) -> int {
        (self.m + other.m) % 1000
    }

    /// The normalized sum is representable.
    pub open spec fn can_add(self, other: Moment) -> bool {
        i32::MIN <= self.sum_seconds(other) <= i32::MAX
    }

    /// The normalized sum of two moments.
    pub open spec fn plus(self, other: Moment) -> Moment
        recommends
            self.can_add(other),
    {
        Moment { s: self.sum_seconds(other) as i32, m: self.sum_subseconds(other) as i32 }
    }

    /// Where the clock stands after `span` has elapsed from `self`: defined
    /// for spans that are not negative and whose sum is representable.
    pub open spec fn after(self, span: Moment) -> Option<Moment> {
        if span.non_negative() && self.can_add(span) {
            Some(self.plus(span))
        } else {
            None
        }
    }

    /// The moment with these two parts, as they are.
    pub fn new(s: i32, m: i32) -> (r: Moment)
        ensures
            r.s == s,
            r.m == m,
    {
        Moment { s, m }
    }

    /// The zero moment.
    pub fn zero() -> (r: Moment)
        ensures
            r == (Moment { s: 0, m: 0 }),
    {
        Moment { s: 0, m: 0 }
    }

    /// Strictly earlier than `other`.
    pub fn is_before(&self, other: &Moment) -> (r: bool)
        ensures
            r == self.before(*other),
    {
        self.s < other.s || (self.s == other.s && self.m < other.m)
    }

    /// Earlier than `other`, or the same moment.
    pub fn is_at_or_before(&self, other: &Moment) -> (r: bool)
        ensures
            r == self.at_or_before(*other),
    {
        self.s < other.s || (self.s == other.s && self.m <= other.m)
    }

    /// The normalized sum, or `None` when its seconds do not fit.
    pub fn checked_add(self, other: Moment) -> (r: Option<Moment>)
        ensures
            r == (if self.can_add(other) {
                Some(self.plus(other))
            } else {
                None
            }),
            r matches Some(t) ==> t.normalized(),
    {
        let total: i64 = self.m as i64 + other.m as i64;
        let carry: i64 = if total >= 0 {
            total / 1000
        } else {
            -((999 - total) / 1000)
        };
        let rest: i64 = total - carry * 1000;
        assert(carry == (self.m + other.m) / 1000 && rest == (self.m + other.m) % 1000) by {
            vstd::arithmetic::div_mod::lemma_fundamental_div_mod_converse(
                total as int,
                1000,
                carry as int,
                rest as int,
            );
        }
        let seconds: i64 = self.s as i64 + other.s as i64 + carry;
        if seconds < -2147483648 || seconds > 2147483647 {
            None
        } else {
            Some(Moment { s: seconds as i32, m: rest as i32 })
        }
    }

    /// `self + span` for a span that is not negative, or `None` when the span
    /// is negative or the sum is not representable.
    pub fn checked_after(self, span: Moment) -> (r: Option<Moment>)
        ensures
            r == self.after(span),
            r matches Some(t) ==> t.normalized(),
    {
        if span.s < 0 || span.m < 0 {
            None
        } else {
            self.checked_add(span)
        }
    }
}

impl core::ops::Add for Moment {
    type Output = Moment;

    /// Adds two moments, carrying whole seconds out of the subsecond sum.
    /// The sum is normalized whether or not the two moments are.
    fn add(self, other: Moment) -> (r: Moment)
        ensures
            0 <= r.m < 1000,
            r.s == self.s + other.s + (self.m + other.m) / 1000,
            r.m == (self.m + other.m) % 1000,
    {
        match self.checked_add(other) {
            Some(t) => t,
            None => vstd::pervasive::unreached(),
        }
    }
}

impl vstd::std_specs::ops::AddSpecImpl for Moment {
    open spec fn obeys_add_spec() -> bool {
        true
    }

    open spec fn add_req(self, other: Moment) -> bool {
        self.can_add(other)
    }

    open spec fn add_spec(self, other: Moment) -> Moment {
        self.plus(other)
    }
}

impl PartialOrd for Moment {
    fn partial_cmp(&self, rhs: &Moment) -> (r: Option<Ordering>) {
        if self.s < rhs.s {
            return Some(Ordering::Less);
        }
        if self.s > rhs.s {
            return Some(Ordering::Greater);
        }
        if self.m < rhs.m {
            return Some(Ordering::Less);
        }
        if self.m > rhs.m {
            return Some(Ordering::Greater);
        }
        Some(Ordering::Equal)
    }
}

impl vstd::std_specs::cmp::PartialOrdSpecImpl for Moment {
    open spec fn obeys_partial_cmp_spec() -> bool {
        true
    }

    open spec fn partial_cmp_spec(&self, rhs: &Moment) -> Option<Ordering> {
        if self.before(*rhs) {
            Some(Ordering::Less)
        } else if rhs.before(*self) {
            Some(Ordering::Greater)
        } else {
            Some(Ordering::Equal)
        }
    }
}

/// The sum of two moments is normalized, and its seconds are the two
/// seconds plus the whole seconds carried out of the subsecond sum.
pub proof fn lemma_sum_is_normalized(a: Moment, b: Moment)
    requires
        a.can_add(b),
    ensures
        0 <= a.plus(b).m < 1000,
        a.plus(b).s == a.s + b.s + (a.m + b.m) / 1000,
        a.plus(b).millis() == a.millis() + b.millis(),
{
    vstd::arithmetic::div_mod::lemma_fundamental_div_mod(a.m + b.m, 1000);
}

/// The order on moments is the order of their clock positions, for
/// normalized moments.
pub proof fn lemma_order_is_clock_order(a: Moment, b: Moment)
    requires
        a.normalized(),
        b.normalized(),
    ensures
        a.before(b) <==> a.millis() < b.millis(),
        a.at_or_before(b) <==> a.millis() <= b.millis(),
{
}

/// The order on moments is a total order: of two moments, exactly one
/// comes before the other unless they are the same, and what comes before
/// an earlier moment comes before a later one.
pub proof fn lemma_order_is_a_total_order(a: Moment, b: Moment, c: Moment)
    ensures
        a.before(b) || b.before(a) || a == b,
        !(a.before(b) && b.before(a)),
        a.before(b) && b.before(c) ==> a.before(c),
        a.at_or_before(b) <==> (a.before(b) || a == b),
{
}

} // verus!
