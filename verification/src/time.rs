use std::cmp::Ordering;
use vstd::prelude::*;
use vstd::std_specs::cmp::PartialOrdSpecImpl;

verus! {

/// Nanoseconds in a second.
pub const NANOS_PER_SEC: i64 = 1_000_000_000;

/// A point in monotonic time: whole seconds and nanoseconds, as in a `timespec`.
#[derive(Debug, Clone, Copy, PartialEq, Eq, Structural, Ord)]
pub struct Monotonic {
    pub tv_sec: i64,
    pub tv_nsec: i64,
}

/// The point in time as a number of nanoseconds.
pub open spec fn total_nanos(m: Monotonic) -> int {
    m.tv_sec * NANOS_PER_SEC + m.tv_nsec
}

/// Whether adding `nanos` nanoseconds to `m` carries a second.
pub open spec fn add_carries(m: Monotonic, nanos: u128) -> bool {
    m.tv_nsec + nanos % (NANOS_PER_SEC as u128) >= NANOS_PER_SEC
}

/// `m` moved `nanos` nanoseconds later, the nanoseconds of the duration carried into the
/// seconds when they reach a full second.
pub open spec fn added(m: Monotonic, nanos: u128) -> Monotonic {
    let carry: int = if add_carries(m, nanos) { 1 } else { 0 };
    Monotonic {
        tv_sec: (m.tv_sec + nanos / (NANOS_PER_SEC as u128) + carry) as i64,
        tv_nsec: (m.tv_nsec + nanos % (NANOS_PER_SEC as u128) - carry * NANOS_PER_SEC) as i64,
    }
}

/// Whether subtracting `nanos` nanoseconds from `m` borrows a second.
pub open spec fn sub_borrows(m: Monotonic, nanos: u128) -> bool {
    m.tv_nsec < nanos % (NANOS_PER_SEC as u128)
}

/// `m` moved `nanos` nanoseconds earlier, a second borrowed when the nanoseconds of the
/// duration exceed those of the instant.
pub open spec fn subtracted(m: Monotonic, nanos: u128) -> Monotonic {
    let borrow: int = if sub_borrows(m, nanos) { 1 } else { 0 };
    Monotonic {
        tv_sec: (m.tv_sec - nanos / (NANOS_PER_SEC as u128) - borrow) as i64,
        tv_nsec: (m.tv_nsec - nanos % (NANOS_PER_SEC as u128) + borrow * NANOS_PER_SEC) as i64,
    }
}

/// `add(m, nanos)` neither panics nor overflows.
pub open spec fn can_add(m: Monotonic, nanos: u128) -> bool {
    let carry: int = if add_carries(m, nanos) { 1 } else { 0 };
    &&& m.tv_sec >= 0
    &&& m.tv_nsec >= 0
    &&& nanos / (NANOS_PER_SEC as u128) <= i64::MAX
    &&& m.tv_nsec + nanos % (NANOS_PER_SEC as u128) <= i64::MAX
    &&& m.tv_sec + nanos / (NANOS_PER_SEC as u128) + carry <= i64::MAX
}

/// The instant `m` is normalized and `nanos` nanoseconds later still fits: its whole seconds
/// do not exceed `i64::MAX`.
pub open spec fn sum_fits(m: Monotonic, nanos: u128) -> bool {
    &&& m.tv_sec >= 0
    &&& 0 <= m.tv_nsec < NANOS_PER_SEC
    &&& m.tv_sec + (m.tv_nsec + nanos) / (NANOS_PER_SEC as int) <= i64::MAX
}

/// `sub(m, nanos)` neither panics nor overflows.
pub open spec fn can_sub(m: Monotonic, nanos: u128) -> bool {
    &&& m.tv_sec >= 0
    &&& m.tv_nsec >= 0
    &&& nanos / (NANOS_PER_SEC as u128) <= i64::MAX
}

impl Monotonic {
    /// The point in time `tv_sec` seconds and `tv_nsec` nanoseconds after the clock's
    /// origin.
    pub fn from_parts(tv_sec: i64, tv_nsec: i64) -> (r: Self)
        ensures
            r.tv_sec == tv_sec,
            r.tv_nsec == tv_nsec,
    {
        Monotonic { tv_sec, tv_nsec }
    }

    /// Adds a duration of `duration_nanos` nanoseconds to the instant.
    pub fn add(self, duration_nanos: u128) -> (r: Self)
        requires
            can_add(self, duration_nanos),
        ensures
            r == added(self, duration_nanos),
            total_nanos(r) == total_nanos(self) + duration_nanos,
            0 <= self.tv_nsec < NANOS_PER_SEC ==> 0 <= r.tv_nsec < NANOS_PER_SEC,
    {
        let mut seconds = self.tv_sec;
        let mut nanos = self.tv_nsec;

        let add_secs = duration_nanos / 1_000_000_000;
        assert(add_secs * 1_000_000_000 <= duration_nanos) by (nonlinear_arith)
            requires add_secs == duration_nanos / 1_000_000_000;
        let add_nanos = duration_nanos - add_secs * 1_000_000_000;

        let add_secs = add_secs as i64;
        let mut add_nanos = add_nanos as i64;

        if nanos + add_nanos >= 1_000_000_000 {
            seconds += 1;
            add_nanos -= 1_000_000_000;
        }
        seconds += add_secs;
        nanos += add_nanos;

        Monotonic { tv_sec: seconds, tv_nsec: nanos }
    }

    /// Adds a duration of `duration_nanos` nanoseconds to the instant, or nothing when the
    /// instant is negative or the result does not fit.
    pub fn try_add(self, duration_nanos: u128) -> (r: Option<Self>)
        ensures
            can_add(self, duration_nanos) ==> r == Some(added(self, duration_nanos)),
            !can_add(self, duration_nanos) ==> r is None,
            sum_fits(self, duration_nanos) ==> (r matches Some(t) && total_nanos(t) == total_nanos(self)
                + duration_nanos && 0 <= t.tv_nsec < NANOS_PER_SEC),
            r matches Some(t) ==> total_nanos(t) == total_nanos(self) + duration_nanos,
    {
        proof {
            if sum_fits(self, duration_nanos) {
                law_add_when_sum_fits(self, duration_nanos);
            }
        }
        if self.tv_sec < 0 || self.tv_nsec < 0 {
            return None;
        }
        let add_secs = duration_nanos / 1_000_000_000;
        if add_secs > 0x7fff_ffff_ffff_ffff {
            return None;
        }
        let add_nanos = duration_nanos % 1_000_000_000;
        if self.tv_nsec as u128 + add_nanos > 0x7fff_ffff_ffff_ffff {
            return None;
        }
        let carry: u128 = if self.tv_nsec as u128 + add_nanos >= 1_000_000_000 { 1 } else { 0 };
        if self.tv_sec as u128 + add_secs + carry > 0x7fff_ffff_ffff_ffff {
            return None;
        }
        Some(self.add(duration_nanos))
    }

    /// Subtracts a duration of `duration_nanos` nanoseconds from the instant, or nothing when
    /// the instant is negative or the duration is too large.
    pub fn try_sub(self, duration_nanos: u128) -> (r: Option<Self>)
        ensures
            can_sub(self, duration_nanos) ==> r == Some(subtracted(self, duration_nanos)),
            !can_sub(self, duration_nanos) ==> r is None,
            self.tv_sec >= 0 && self.tv_nsec >= 0 && duration_nanos / (NANOS_PER_SEC as u128) <= i64::MAX ==> r is Some,
            r matches Some(t) ==> total_nanos(t) == total_nanos(self) - duration_nanos,
            0 <= self.tv_nsec < NANOS_PER_SEC ==> (r matches Some(t) ==> 0 <= t.tv_nsec < NANOS_PER_SEC),
    {
        if self.tv_sec < 0 || self.tv_nsec < 0 || duration_nanos / 1_000_000_000 > 0x7fff_ffff_ffff_ffff {
            return None;
        }
        Some(self.sub(duration_nanos))
    }

    /// The instant that lies `ahead` nanoseconds later when `ahead` is given, and otherwise
    /// `behind` nanoseconds earlier; nothing when that instant cannot be computed.
    pub fn towards(self, ahead: Option<u128>, behind: u128) -> (r: Option<Self>)
        ensures
            r == match ahead {
                Some(later) => if can_add(self, later) {
                    Some(added(self, later))
                } else {
                    None
                },
                None => if can_sub(self, behind) {
                    Some(subtracted(self, behind))
                } else {
                    None
                },
            },
            ahead matches Some(later) ==> (sum_fits(self, later) ==> (r matches Some(t) && total_nanos(t)
                == total_nanos(self) + later)),
            ahead is None && self.tv_sec >= 0 && self.tv_nsec >= 0 && behind / (NANOS_PER_SEC as u128) <= i64::MAX
                ==> (r matches Some(t) && total_nanos(t) == total_nanos(self) - behind),
    {
        match ahead {
            Some(later) => self.try_add(later),
            None => self.try_sub(behind),
        }
    }

    /// Subtracts a duration of `duration_nanos` nanoseconds from the instant.
    pub fn sub(self, duration_nanos: u128) -> (r: Self)
        requires
            can_sub(self, duration_nanos),
        ensures
            r == subtracted(self, duration_nanos),
            total_nanos(r) == total_nanos(self) - duration_nanos,
            0 <= self.tv_nsec < NANOS_PER_SEC ==> 0 <= r.tv_nsec < NANOS_PER_SEC,
    {
        let mut seconds = self.tv_sec;
        let mut nanos = self.tv_nsec;

        let sub_secs = duration_nanos / 1_000_000_000;
        assert(sub_secs * 1_000_000_000 <= duration_nanos) by (nonlinear_arith)
            requires sub_secs == duration_nanos / 1_000_000_000;
        let sub_nanos = duration_nanos - sub_secs * 1_000_000_000;

        let sub_secs = sub_secs as i64;
        let sub_nanos = sub_nanos as i64;

        if nanos < sub_nanos {
            seconds -= 1;
            nanos += 1_000_000_000;
        }

        seconds -= sub_secs;
        nanos -= sub_nanos;

        Monotonic { tv_sec: seconds, tv_nsec: nanos }
    }
}

/// Instants are ordered by their seconds, then by their nanoseconds.
pub open spec fn monotonic_order(a: Monotonic, b: Monotonic) -> Ordering {
    if a.tv_sec < b.tv_sec {
        Ordering::Less
    } else if a.tv_sec > b.tv_sec {
        Ordering::Greater
    } else if a.tv_nsec < b.tv_nsec {
        Ordering::Less
    } else if a.tv_nsec > b.tv_nsec {
        Ordering::Greater
    } else {
        Ordering::Equal
    }
}

impl PartialOrd for Monotonic {
    fn partial_cmp(&self, other: &Self) -> (r: Option<Ordering>) {
        if self.tv_sec < other.tv_sec {
            Some(Ordering::Less)
        } else if self.tv_sec > other.tv_sec {
            Some(Ordering::Greater)
        } else if self.tv_nsec < other.tv_nsec {
            Some(Ordering::Less)
        } else if self.tv_nsec > other.tv_nsec {
            Some(Ordering::Greater)
        } else {
            Some(Ordering::Equal)
        }
    }
}

impl PartialOrdSpecImpl for Monotonic {
    open spec fn obeys_partial_cmp_spec() -> bool {
        true
    }

    open spec fn partial_cmp_spec(&self, other: &Self) -> Option<Ordering> {
        Some(monotonic_order(*self, *other))
    }
}

/// Moving an instant later by a duration and then earlier by the same duration gives the
/// same instant back, when its nanoseconds are below a second.
pub proof fn law_add_then_sub(m: Monotonic, nanos: u128)
    requires
        can_add(m, nanos),
        m.tv_nsec < NANOS_PER_SEC,
    ensures
        can_sub(added(m, nanos), nanos),
        subtracted(added(m, nanos), nanos) == m,
{
}

/// Cutting `n + d` into whole seconds: the seconds of `d`, and one more when the
/// nanoseconds of `n` and of `d` reach a second.
proof fn lemma_carry(n: int, d: int)
    requires
        0 <= n < NANOS_PER_SEC,
        d >= 0,
    ensures
        (n + d) / (NANOS_PER_SEC as int) == d / (NANOS_PER_SEC as int) + (if n + d % (NANOS_PER_SEC as int)
            >= NANOS_PER_SEC { 1int } else { 0int }),
{
    let b = NANOS_PER_SEC as int;
    vstd::arithmetic::div_mod::lemma_fundamental_div_mod(d, b);
    let q = d / b;
    let r = d % b;
    let c: int = if n + r >= b { 1 } else { 0 };
    vstd::arithmetic::div_mod::lemma_fundamental_div_mod_converse(n + d, b, q + c, n + r - c * b);
}

/// Adding a duration to a normalized instant succeeds whenever the later instant's seconds
/// fit, and gives the instant that many nanoseconds later, normalized.
pub proof fn law_add_when_sum_fits(m: Monotonic, nanos: u128)
    requires
        sum_fits(m, nanos),
    ensures
        can_add(m, nanos),
        total_nanos(added(m, nanos)) == total_nanos(m) + nanos,
        0 <= added(m, nanos).tv_nsec < NANOS_PER_SEC,
{
    lemma_carry(m.tv_nsec as int, nanos as int);
    vstd::arithmetic::div_mod::lemma_fundamental_div_mod(nanos as int, NANOS_PER_SEC as int);
}

/// Moving an instant earlier keeps its nanoseconds below a second.
pub proof fn law_sub_normalizes(m: Monotonic, nanos: u128)
    requires
        can_sub(m, nanos),
        m.tv_nsec < NANOS_PER_SEC,
    ensures
        0 <= subtracted(m, nanos).tv_nsec < NANOS_PER_SEC,
        total_nanos(subtracted(m, nanos)) == total_nanos(m) - nanos,
{
}

} // verus!
