use vstd::prelude::*;

verus! {

/// Nanoseconds in one second.
pub const NANOS_PER_SEC: u32 = 1_000_000_000;

/// An instant in UTC: whole seconds since the Unix epoch plus a sub-second part.
#[derive(Clone, Copy, Debug)]
pub struct DateTime {
    secs: i64,
    nanos: u32,
}

/// Whole seconds from instant `from` to instant `to` (both in nanoseconds),
/// rounded down; zero when `to` lies before `from`.
pub open spec fn lead_secs(from: int, to: int) -> int {
    if to >= from {
        (to - from) / (NANOS_PER_SEC as int)
    } else {
        0
    }
}

impl View for DateTime {
    /// The instant as nanoseconds since the Unix epoch.
    type V = int;

    closed spec fn view(&self) -> int {
        self.secs as int * NANOS_PER_SEC as int + self.nanos as int
    }
}

impl DateTime {
    #[verifier::type_invariant]
    spec fn wf(self) -> bool {
        self.nanos < NANOS_PER_SEC
    }

    pub closed spec fn secs_spec(self) -> int {
        self.secs as int
    }

    pub closed spec fn nanos_spec(self) -> int {
        self.nanos as int
    }

    /// The instant `secs` seconds and `nanos` nanoseconds after the epoch;
    /// `None` when `nanos` is not below one second.
    pub fn from_timestamp(secs: i64, nanos: u32) -> (r: Option<DateTime>)
        ensures
            r is Some <==> nanos < NANOS_PER_SEC,
            r matches Some(t) ==> t.secs_spec() == secs && t.nanos_spec() == nanos
                && t@ == secs as int * NANOS_PER_SEC as int + nanos as int,
    {
        if nanos < NANOS_PER_SEC {
            let t = DateTime { secs, nanos };
            proof {
                assert(t@ == secs as int * NANOS_PER_SEC as int + nanos as int);
            }
            Some(t)
        } else {
            None
        }
    }

    /// Whole seconds since the epoch.
    pub fn timestamp(&self) -> (r: i64)
        ensures
            r == self.secs_spec(),
    {
        self.secs
    }

    /// The sub-second part, in nanoseconds.
    pub fn timestamp_subsec_nanos(&self) -> (r: u32)
        ensures
            r == self.nanos_spec(),
            r < NANOS_PER_SEC,
    {
        proof {
            use_type_invariant(self);
        }
        self.nanos
    }

    /// Whether this instant lies strictly after `other`.
    pub fn is_after(&self, other: &DateTime) -> (r: bool)
        ensures
            r == (self@ > other@),
    {
        proof {
            use_type_invariant(self);
            use_type_invariant(other);
            let a = self.secs as int;
            let b = other.secs as int;
            let an = self.nanos as int;
            let bn = other.nanos as int;
            let k = NANOS_PER_SEC as int;
            assert(a < b ==> a * k + an < b * k + bn) by (nonlinear_arith)
                requires
                    0 <= an < k,
                    0 <= bn < k,
            ;
            assert(a > b ==> a * k + an > b * k + bn) by (nonlinear_arith)
                requires
                    0 <= an < k,
                    0 <= bn < k,
            ;
        }
        self.secs > other.secs || (self.secs == other.secs && self.nanos > other.nanos)
    }

    /// Whole seconds elapsed from `self` to `later`, rounded down, and zero
    /// when `later` lies before `self`.
    pub fn lead_seconds_until(&self, later: &DateTime) -> (r: u64)
        ensures
            r == lead_secs(self@, later@),
    {
        proof {
            use_type_invariant(self);
            use_type_invariant(later);
        }
        let k: i128 = NANOS_PER_SEC as i128;
        let ds: i128 = later.secs as i128 - self.secs as i128;
        let dn: i128 = later.nanos as i128 - self.nanos as i128;
        proof {
            assert(-0x1_0000_0000_0000_0000 < ds < 0x1_0000_0000_0000_0000);
            assert(ds * k <= 0x1_0000_0000_0000_0000 * 1_000_000_000) by (nonlinear_arith)
                requires
                    ds < 0x1_0000_0000_0000_0000,
                    k == 1_000_000_000,
            ;
            assert(ds * k >= -0x1_0000_0000_0000_0000 * 1_000_000_000) by (nonlinear_arith)
                requires
                    ds > -0x1_0000_0000_0000_0000,
                    k == 1_000_000_000,
            ;
        }
        let diff: i128 = ds * k + dn;
        proof {
            assert(diff == later@ - self@) by (nonlinear_arith)
                requires
                    diff == ds * k + dn,
                    ds == later.secs as int - self.secs as int,
                    dn == later.nanos as int - self.nanos as int,
                    later@ == later.secs as int * k + later.nanos as int,
                    self@ == self.secs as int * k + self.nanos as int,
            ;
        }
        if diff <= 0 {
            0
        } else {
            let q: u128 = diff as u128 / NANOS_PER_SEC as u128;
            proof {
                assert(q <= ds) by (nonlinear_arith)
                    requires
                        q == diff / k,
                        diff == ds * k + dn,
                        dn < k,
                        k == 1_000_000_000,
                        diff > 0,
                ;
            }
            q as u64
        }
    }
}

} // verus!
