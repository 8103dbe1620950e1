//! Spans of time, as the timeout stage is configured with and reports them.

use vstd::prelude::*;

verus! {

pub const NANOS_PER_SEC: u32 = 1_000_000_000;

/// A span of time: whole seconds and the nanoseconds beyond them, which are
/// always less than a second.
#[derive(Clone, Copy, Debug, PartialEq, Eq, Hash)]
pub struct Duration {
    secs: u64,
    nanos: u32,
}

/// The text that the standard library's `Debug` gives for the duration of
/// `secs` seconds and `nanos` nanoseconds, where `nanos` is less than a
/// second.
pub uninterp spec fn duration_debug(secs: u64, nanos: u32) -> Seq<char>;

/// Formats a `std::time::Duration` with `{:?}`.
///
/// Trusted: the text is the one that `Debug for Duration` writes, which
/// depends on the two numbers alone. `Duration::new` is handed nanoseconds
/// below a second, so it carries nothing over and cannot overflow.
#[verifier::external_body]
fn format_duration(secs: u64, nanos: u32) -> (text: String)
    requires
        nanos < NANOS_PER_SEC,
    ensures
        text@ == duration_debug(secs, nanos),
{
    format!("{:?}", std::time::Duration::new(secs, nanos))
}

impl Duration {
    #[verifier::type_invariant]
    spec fn below_a_second(self) -> bool {
        self.nanos < NANOS_PER_SEC
    }

    pub closed spec fn spec_secs(self) -> u64 {
        self.secs
    }

    pub closed spec fn spec_subsec_nanos(self) -> u32 {
        self.nanos
    }

    /// The whole span in nanoseconds.
    pub open spec fn as_nanos(self) -> nat {
        (self.spec_secs() as nat) * (NANOS_PER_SEC as nat) + (self.spec_subsec_nanos() as nat)
    }

    /// The text of this duration in debug form.
    pub open spec fn debug_text(self) -> Seq<char> {
        duration_debug(self.spec_secs(), self.spec_subsec_nanos())
    }

    /// The span of `secs` seconds and `nanos` nanoseconds. Nanoseconds of a
    /// second or more are carried over into the seconds; `None` where the
    /// seconds then no longer fit.
    pub fn new(secs: u64, nanos: u32) -> (d: Option<Duration>)
        ensures
            match d {
                Some(d) => {
                    &&& d.as_nanos() == (secs as nat) * (NANOS_PER_SEC as nat) + (nanos as nat)
                    &&& d.spec_subsec_nanos() < NANOS_PER_SEC
                },
                None => secs + nanos / NANOS_PER_SEC > u64::MAX,
            },
    {
        let carry: u32 = nanos / NANOS_PER_SEC;
        let rest: u32 = nanos % NANOS_PER_SEC;
        match secs.checked_add(carry as u64) {
            Some(whole) => {
                assert((whole as nat) * (NANOS_PER_SEC as nat) + (rest as nat) == (secs as nat) * (
                NANOS_PER_SEC as nat) + (nanos as nat)) by (nonlinear_arith)
                    requires
                        whole == secs + nanos / NANOS_PER_SEC,
                        rest == nanos % NANOS_PER_SEC,
                ;
                Some(Duration { secs: whole, nanos: rest })
            },
            None => None,
        }
    }

    /// A whole number of seconds.
    pub fn from_secs(secs: u64) -> (d: Duration)
        ensures
            d.spec_secs() == secs,
            d.spec_subsec_nanos() == 0,
    {
        Duration { secs, nanos: 0 }
    }

    /// A whole number of milliseconds.
    pub fn from_millis(millis: u64) -> (d: Duration)
        ensures
            d.spec_secs() == millis / 1000,
            d.spec_subsec_nanos() == (millis % 1000) * 1_000_000,
    {
        let rest: u64 = millis % 1000;
        Duration { secs: millis / 1000, nanos: (rest * 1_000_000) as u32 }
    }

    #[verifier::when_used_as_spec(spec_secs)]
    pub fn secs(self) -> (s: u64)
        ensures
            s == self.spec_secs(),
    {
        self.secs
    }

    #[verifier::when_used_as_spec(spec_subsec_nanos)]
    pub fn subsec_nanos(self) -> (n: u32)
        ensures
            n == self.spec_subsec_nanos(),
            n < NANOS_PER_SEC,
    {
        proof {
            use_type_invariant(&self);
        }
        self.nanos
    }

    /// Whether a wait of `waited` has reached this duration.
    pub fn reached_by(&self, waited: &Duration) -> (reached: bool)
        ensures
            reached == (waited.as_nanos() >= self.as_nanos()),
    {
        proof {
            use_type_invariant(self);
            use_type_invariant(waited);
            assert(waited.as_nanos() >= self.as_nanos() <==> (waited.secs > self.secs || (
            waited.secs == self.secs && waited.nanos >= self.nanos))) by (nonlinear_arith)
                requires
                    waited.nanos < 1_000_000_000,
                    self.nanos < 1_000_000_000,
                    waited.as_nanos() == (waited.secs as nat) * 1_000_000_000 + (
                    waited.nanos as nat),
                    self.as_nanos() == (self.secs as nat) * 1_000_000_000 + (self.nanos as nat),
            ;
        }
        waited.secs > self.secs || (waited.secs == self.secs && waited.nanos >= self.nanos)
    }

    /// This duration in debug form, as the standard library writes it.
    pub fn debug(&self) -> (text: String)
        ensures
            text@ == self.debug_text(),
    {
        proof {
            use_type_invariant(self);
        }
        format_duration(self.secs, self.nanos)
    }
}

} // verus!
