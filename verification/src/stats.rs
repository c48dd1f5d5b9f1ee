use vstd::prelude::*;

verus! {

/// Largest value a signed 64-bit counter datum can carry.
pub const COUNTER_MAX: u64 = 0x7fff_ffff_ffff_ffff;

/// What a `u64` counter becomes on the signed wire format of the
/// metrics backend: itself when it fits, the maximum otherwise.
pub open spec fn clamped(v: u64) -> i64 {
    if v > COUNTER_MAX {
        COUNTER_MAX as i64
    } else {
        v as i64
    }
}

/// A counter bumped by one, held at the top instead of wrapping.
pub open spec fn sat_inc(v: u64) -> u64 {
    if v == u64::MAX {
        u64::MAX
    } else {
        (v + 1) as u64
    }
}

/// Monotonic counters of the certificate backend: attempts and
/// successes of refresh and request operations.  Each counter
/// saturates at `u64::MAX` instead of overflowing.
pub struct BackendStats {
    refresh_total: u64,
    refresh_ok: u64,
    request_total: u64,
    request_ok: u64,
}

/// One drained reading of all four counters, clamped to the signed
/// range the metrics backend accepts.
pub struct BackendSnapshot {
    pub refresh_total: i64,
    pub refresh_ok: i64,
    pub request_total: i64,
    pub request_ok: i64,
}

impl BackendStats {
    pub closed spec fn refresh_total_spec(&self) -> u64 {
        self.refresh_total
    }

    pub closed spec fn refresh_ok_spec(&self) -> u64 {
        self.refresh_ok
    }

    pub closed spec fn request_total_spec(&self) -> u64 {
        self.request_total
    }

    pub closed spec fn request_ok_spec(&self) -> u64 {
        self.request_ok
    }

    pub fn new() -> (r: Self)
        ensures
            r.refresh_total_spec() == 0,
            r.refresh_ok_spec() == 0,
            r.request_total_spec() == 0,
            r.request_ok_spec() == 0,
    {
        BackendStats { refresh_total: 0, refresh_ok: 0, request_total: 0, request_ok: 0 }
    }

    /// Counters restored to given values, as a reloaded backend
    /// would carry them.
    pub fn with_counts(refresh_total: u64, refresh_ok: u64, request_total: u64, request_ok: u64)
        -> (r: Self)
        ensures
            r.refresh_total_spec() == refresh_total,
            r.refresh_ok_spec() == refresh_ok,
            r.request_total_spec() == request_total,
            r.request_ok_spec() == request_ok,
    {
        BackendStats { refresh_total, refresh_ok, request_total, request_ok }
    }

    pub fn add_refresh_total(&mut self)
        ensures
            final(self).refresh_total_spec() == sat_inc(old(self).refresh_total_spec()),
            final(self).refresh_ok_spec() == old(self).refresh_ok_spec(),
            final(self).request_total_spec() == old(self).request_total_spec(),
            final(self).request_ok_spec() == old(self).request_ok_spec(),
    {
        self.refresh_total = self.refresh_total.saturating_add(1);
    }

    pub fn add_refresh_ok(&mut self)
        ensures
            final(self).refresh_ok_spec() == sat_inc(old(self).refresh_ok_spec()),
            final(self).refresh_total_spec() == old(self).refresh_total_spec(),
            final(self).request_total_spec() == old(self).request_total_spec(),
            final(self).request_ok_spec() == old(self).request_ok_spec(),
    {
        self.refresh_ok = self.refresh_ok.saturating_add(1);
    }

    pub fn add_request_total(&mut self)
        ensures
            final(self).request_total_spec() == sat_inc(old(self).request_total_spec()),
            final(self).refresh_total_spec() == old(self).refresh_total_spec(),
            final(self).refresh_ok_spec() == old(self).refresh_ok_spec(),
            final(self).request_ok_spec() == old(self).request_ok_spec(),
    {
        self.request_total = self.request_total.saturating_add(1);
    }

    pub fn add_request_ok(&mut self)
        ensures
            final(self).request_ok_spec() == sat_inc(old(self).request_ok_spec()),
            final(self).refresh_total_spec() == old(self).refresh_total_spec(),
            final(self).refresh_ok_spec() == old(self).refresh_ok_spec(),
            final(self).request_total_spec() == old(self).request_total_spec(),
    {
        self.request_ok = self.request_ok.saturating_add(1);
    }
}

/// Drains the four counters for emission: every counter is read,
/// clamped into the signed range, and reset to zero, so each count is
/// reported exactly once.
pub fn emit_stats(s: &mut BackendStats) -> (r: BackendSnapshot)
    ensures
        r.refresh_total == clamped(old(s).refresh_total_spec()),
        r.refresh_ok == clamped(old(s).refresh_ok_spec()),
        r.request_total == clamped(old(s).request_total_spec()),
        r.request_ok == clamped(old(s).request_ok_spec()),
        final(s).refresh_total_spec() == 0,
        final(s).refresh_ok_spec() == 0,
        final(s).request_total_spec() == 0,
        final(s).request_ok_spec() == 0,
{
    let refresh_total = take_clamped(&mut s.refresh_total);
    let refresh_ok = take_clamped(&mut s.refresh_ok);
    let request_total = take_clamped(&mut s.request_total);
    let request_ok = take_clamped(&mut s.request_ok);
    BackendSnapshot { refresh_total, refresh_ok, request_total, request_ok }
}

/// Reads a counter destructively: the old value clamped, the counter
/// itself back to zero.
fn take_clamped(c: &mut u64) -> (r: i64)
    ensures
        r == clamped(*old(c)),
        *final(c) == 0,
{
    let v = *c;
    *c = 0;
    if v > COUNTER_MAX {
        COUNTER_MAX as i64
    } else {
        v as i64
    }
}

} // verus!
