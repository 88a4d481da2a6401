//! Spans of time, as the timeouts of a session are configured and reported.

use vstd::prelude::*;

verus! {

/// The text that `std::time::Duration` has under `{:?}`, for a duration of
/// `secs` whole seconds and `nanos` nanoseconds.
pub uninterp spec fn duration_debug_text(secs: u64, nanos: u32) -> Seq<char>;

/// Formats `Duration::new(secs, nanos)` with `{:?}`. The result depends on
/// the two numbers alone; `Duration::new` carries nanoseconds of a second or
/// more over into the seconds and panics where that overflows, so they are
/// kept below one second.
#[verifier::external_body]
fn format_duration(secs: u64, nanos: u32) -> (text: String)
    requires
        nanos < 1_000_000_000,
    ensures
        text@ == duration_debug_text(secs, nanos),
{
    format!("{:?}", std::time::Duration::new(secs, nanos))
}

/// A span of time: whole seconds and the nanoseconds beyond them, which stay
/// below one second.
#[derive(Clone, Copy, Debug, PartialEq, Eq, Structural)]
pub struct TimeSpan {
    secs: u64,
    nanos: u32,
}

impl TimeSpan {
    #[verifier::type_invariant]
    spec fn whole(self) -> bool {
        self.nanos < 1_000_000_000
    }

    /// The whole seconds of the span.
    pub closed spec fn seconds(self) -> nat {
        self.secs as nat
    }

    /// The nanoseconds beyond the whole seconds.
    pub closed spec fn subsec(self) -> nat {
        self.nanos as nat
    }

    /// The text of the span as a duration is written for debugging.
    pub closed spec fn debug_text(self) -> Seq<char> {
        duration_debug_text(self.secs, self.nanos)
    }

    /// The span of `secs` whole seconds and `nanos` nanoseconds beyond them.
    pub closed spec fn of(secs: u64, nanos: u32) -> TimeSpan {
        TimeSpan { secs, nanos }
    }

    /// A span of `secs` whole seconds.
    pub fn from_secs(secs: u64) -> (span: TimeSpan)
        ensures
            span == TimeSpan::of(secs, 0),
            span.seconds() == secs,
            span.subsec() == 0,
    {
        TimeSpan { secs, nanos: 0 }
    }

    /// A span of `secs` seconds and `nanos` nanoseconds, if `nanos` is below one second.
    pub fn new(secs: u64, nanos: u32) -> (span: Option<TimeSpan>)
        ensures
            nanos < 1_000_000_000 ==> span == Some(TimeSpan::of(secs, nanos)),
            nanos >= 1_000_000_000 ==> span is None,
            span matches Some(s) ==> s.seconds() == secs && s.subsec() == nanos,
    {
        if nanos < 1_000_000_000 {
            Some(TimeSpan { secs, nanos })
        } else {
            None
        }
    }

    /// The whole seconds of the span.
    pub fn as_secs(&self) -> (secs: u64)
        ensures
            secs == self.seconds(),
    {
        self.secs
    }

    /// The nanoseconds beyond the whole seconds.
    pub fn subsec_nanos(&self) -> (nanos: u32)
        ensures
            nanos == self.subsec(),
            nanos < 1_000_000_000,
    {
        proof {
            use_type_invariant(self);
        }
        self.nanos
    }

    /// The span as a duration is written for debugging, such as `10s` or `1.5s`.
    pub(crate) fn to_debug_string(&self) -> (text: String)
        ensures
            text@ == self.debug_text(),
    {
        proof {
            use_type_invariant(self);
        }
        format_duration(self.secs, self.nanos)
    }
}

} // verus!
