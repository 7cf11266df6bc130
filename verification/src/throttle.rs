//! The admission throttle: a fixed pause before each first admission.

use vstd::prelude::*;

verus! {

/// Paces first admissions. Times are milliseconds on the driver's clock.
#[derive(Clone, Copy, Debug)]
pub struct AdmissionThrottle {
    delay_ms: u64,
    last_release: Option<u64>,
}

impl AdmissionThrottle {
    /// The configured spacing.
    pub closed spec fn delay(&self) -> u64 {
        self.delay_ms
    }

    /// When the last caller was released, if any was.
    pub closed spec fn last_release(&self) -> Option<u64> {
        self.last_release
    }

    /// How long a caller who arrives at `now_ms` is held: the configured
    /// spacing, and before it whatever is left until the last release.
    pub open spec fn hold(&self, now_ms: u64) -> int {
        match self.last_release() {
            Some(last) if last > now_ms => (last - now_ms) + self.delay(),
            _ => self.delay() as int,
        }
    }

    /// The moment at which a caller who arrives at `now_ms` is released.
    pub open spec fn release(&self, now_ms: u64) -> int {
        now_ms + self.hold(now_ms)
    }

    /// A throttle that has released nobody yet.
    pub fn new(delay_ms: u64) -> (throttle: AdmissionThrottle)
        ensures
            throttle.delay() == delay_ms,
            throttle.last_release() is None,
    {
        AdmissionThrottle { delay_ms, last_release: None }
    }

    /// The configured spacing.
    pub fn delay_ms(&self) -> (d: u64)
        ensures
            d == self.delay(),
    {
        self.delay_ms
    }

    /// When the last caller was released, if any was.
    pub fn released_at(&self) -> (at: Option<u64>)
        ensures
            at == self.last_release(),
    {
        self.last_release
    }

    /// Whether the release of a caller who arrives at `now_ms` is a moment
    /// that 64 bits hold.
    pub fn fits(&self, now_ms: u64) -> (ok: bool)
        ensures
            ok == (self.release(now_ms) <= u64::MAX),
    {
        let lag: u64 = match self.last_release {
            Some(last) => if last > now_ms {
                last - now_ms
            } else {
                0
            },
            None => 0,
        };
        lag <= u64::MAX - self.delay_ms && now_ms <= u64::MAX - self.delay_ms - lag
    }

    /// Tells a caller who arrives at `now_ms` how long to sleep, and records
    /// the moment of release. A caller who arrives after the last release, as
    /// every caller of a serial admission loop does, sleeps the configured
    /// spacing. Two releases in a row are never closer than the spacing.
    pub fn wait_turn(&mut self, now_ms: u64) -> (sleep_ms: u64)
        requires
            old(self).release(now_ms) <= u64::MAX,
        ensures
            sleep_ms == old(self).hold(now_ms),
            sleep_ms >= old(self).delay(),
            final(self).delay() == old(self).delay(),
            final(self).last_release() == Some(old(self).release(now_ms) as u64),
            old(self).last_release() is Some ==> old(self).release(now_ms)
                - old(self).last_release()->0 >= old(self).delay(),
    {
        let lag: u64 = match self.last_release {
            Some(last) => if last > now_ms {
                last - now_ms
            } else {
                0
            },
            None => 0,
        };
        let sleep_ms: u64 = lag + self.delay_ms;
        self.last_release = Some(now_ms + sleep_ms);
        sleep_ms
    }
}

/// Whenever the next caller arrives, its release is at least the configured
/// spacing after the release before it; a caller who arrives after that
/// release is held for exactly the spacing.
pub proof fn lemma_releases_are_spaced(throttle: AdmissionThrottle, now_ms: u64)
    requires
        throttle.last_release() is Some,
    ensures
        throttle.release(now_ms) - throttle.last_release()->0 >= throttle.delay(),
        throttle.release(now_ms) > throttle.last_release()->0 || throttle.delay() == 0,
        now_ms >= throttle.last_release()->0 ==> throttle.hold(now_ms) == throttle.delay(),
{
}

} // verus!
