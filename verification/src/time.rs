//! Instants of time, and the text they take on the wire.

use vstd::prelude::*;

verus! {

/// The text that `chrono` gives to an instant of UTC: what
/// `DateTime::<Utc>::to_rfc3339` returns for the instant that
/// `DateTime::from_timestamp` makes of a number of seconds since the start of
/// 1970 and a number of nanoseconds. `None` where `from_timestamp` makes no
/// instant of them.
pub uninterp spec fn rfc3339_text(secs: i64, nanos: u32) -> Option<Seq<char>>;

/// Calls `chrono::DateTime::from_timestamp` and, on the instant it returns,
/// `to_rfc3339`. The result is the text named [`rfc3339_text`].
#[verifier::external_body]
fn rfc3339(secs: i64, nanos: u32) -> (r: Option<String>)
    ensures
        match r {
            Some(t) => rfc3339_text(secs, nanos) == Some(t@),
            None => rfc3339_text(secs, nanos) is None,
        },
{
    match chrono::DateTime::from_timestamp(secs, nanos) {
        Some(instant) => Some(instant.to_rfc3339()),
        None => None,
    }
}

/// An instant of UTC, with the text that stands for it on the wire.
#[derive(Debug, PartialEq, Eq)]
pub struct Timestamp {
    secs: i64,
    nanos: u32,
    text: String,
}

impl View for Timestamp {
    type V = Seq<char>;

    closed spec fn view(&self) -> Seq<char> {
        self.text@
    }
}

impl Timestamp {
    #[verifier::type_invariant]
    closed spec fn well_formed(&self) -> bool {
        rfc3339_text(self.secs, self.nanos) == Some(self.text@)
    }

    /// The seconds since the start of 1970.
    pub closed spec fn spec_secs(&self) -> i64 {
        self.secs
    }

    /// The nanoseconds within the second.
    pub closed spec fn spec_nanos(&self) -> u32 {
        self.nanos
    }

    /// The instant `secs` seconds and `nanos` nanoseconds after the start of
    /// 1970, if there is such an instant.
    pub fn new(secs: i64, nanos: u32) -> (r: Option<Timestamp>)
        ensures
            match r {
                Some(t) => t.spec_secs() == secs && t.spec_nanos() == nanos && rfc3339_text(
                    secs,
                    nanos,
                ) == Some(t@),
                None => rfc3339_text(secs, nanos) is None,
            },
    {
        match rfc3339(secs, nanos) {
            Some(text) => Some(Timestamp { secs, nanos, text }),
            None => None,
        }
    }

    /// The seconds since the start of 1970.
    pub fn secs(&self) -> (r: i64)
        ensures
            r == self.spec_secs(),
    {
        self.secs
    }

    /// The nanoseconds within the second.
    pub fn nanos(&self) -> (r: u32)
        ensures
            r == self.spec_nanos(),
    {
        self.nanos
    }

    /// The text of the instant.
    pub fn as_str(&self) -> (r: &str)
        ensures
            r@ == self@,
            rfc3339_text(self.spec_secs(), self.spec_nanos()) == Some(r@),
    {
        proof {
            use_type_invariant(self);
        }
        self.text.as_str()
    }
}

impl Clone for Timestamp {
    fn clone(&self) -> (r: Timestamp)
        ensures
            r@ == self@,
            r.spec_secs() == self.spec_secs(),
            r.spec_nanos() == self.spec_nanos(),
    {
        proof {
            use_type_invariant(self);
        }
        Timestamp { secs: self.secs, nanos: self.nanos, text: self.text.clone() }
    }
}

} // verus!
