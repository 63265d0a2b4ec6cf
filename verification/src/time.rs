//! Instants as the service writes them: RFC 3339 text with an offset.

use vstd::prelude::*;

verus! {

/// The instant that `chrono` reads from a text with
/// `str::parse::<DateTime<Utc>>`, as whole seconds since the Unix epoch and
/// the nanoseconds past them, or `None` where it rejects the text.
pub uninterp spec fn rfc3339_instant(text: Seq<char>) -> Option<(int, int)>;

/// The text that `chrono` prints with `to_rfc3339_opts(AutoSi, true)` for the
/// instant that `DateTime::from_timestamp` makes of seconds and nanoseconds,
/// or `None` where it makes none.
pub uninterp spec fn rfc3339_text(secs: int, nanos: int) -> Option<Seq<char>>;

/// Calls `str::parse::<DateTime<Utc>>` and hands the instant out as
/// `timestamp()` and `timestamp_subsec_nanos()`. The contract claims only
/// that the outcome is a function of the text, named by [`rfc3339_instant`].
#[verifier::external_body]
fn read_instant(text: &str) -> (instant: Option<(i64, u32)>)
    ensures
        instant matches Some(at) ==> rfc3339_instant(text@) == Some((at.0 as int, at.1 as int)),
        instant is None ==> rfc3339_instant(text@) is None,
{
    text.parse::<chrono::DateTime<chrono::Utc>>().ok().map(
        |at| (at.timestamp(), at.timestamp_subsec_nanos()),
    )
}

/// Calls `DateTime::from_timestamp` and prints what it made with
/// `to_rfc3339_opts(SecondsFormat::AutoSi, true)`. The contract claims only
/// that the outcome is a function of the two numbers, named by
/// [`rfc3339_text`].
#[verifier::external_body]
fn print_instant(secs: i64, nanos: u32) -> (text: Option<String>)
    ensures
        text matches Some(t) ==> rfc3339_text(secs as int, nanos as int) == Some(t@),
        text is None ==> rfc3339_text(secs as int, nanos as int) is None,
{
    chrono::DateTime::from_timestamp(secs, nanos).map(
        |at| at.to_rfc3339_opts(chrono::SecondsFormat::AutoSi, true),
    )
}

/// An instant survives the wire when it can be printed and reading the
/// printed text gives the same instant back.
pub open spec fn survives_wire(secs: int, nanos: int) -> bool {
    rfc3339_text(secs, nanos) matches Some(text) && rfc3339_instant(text) == Some((secs, nanos))
}

/// A point in time: seconds since the Unix epoch and nanoseconds past them.
/// Every value has been checked to survive the wire. Instants are ordered
/// as they follow one another in time.
#[derive(Debug, Clone, Copy, PartialEq, Eq, PartialOrd, Ord, Hash)]
pub struct Timestamp {
    secs: i64,
    nanos: u32,
}

impl Timestamp {
    /// Whole seconds since the Unix epoch.
    pub closed spec fn secs(self) -> int {
        self.secs as int
    }

    /// Nanoseconds past the whole second.
    pub closed spec fn nanos(self) -> int {
        self.nanos as int
    }

    /// The invariant of the type: the instant survives the wire.
    #[verifier::type_invariant]
    pub closed spec fn wf(self) -> bool {
        survives_wire(self.secs as int, self.nanos as int)
    }

    /// The text of the instant on the wire.
    pub closed spec fn text(self) -> Seq<char> {
        rfc3339_text(self.secs as int, self.nanos as int)->0
    }

    /// The instant that a wire text stands for, where it stands for one
    /// that survives the wire.
    pub closed spec fn read(text: Seq<char>) -> Option<Timestamp> {
        match rfc3339_instant(text) {
            Some((secs, nanos)) => if i64::MIN <= secs <= i64::MAX && 0 <= nanos <= u32::MAX
                && survives_wire(secs, nanos) {
                Some(Timestamp { secs: secs as i64, nanos: nanos as u32 })
            } else {
                None
            },
            None => None,
        }
    }

    /// Reading the wire text of a valid instant gives the instant back.
    pub proof fn lemma_read_text(self)
        requires
            self.wf(),
        ensures
            Timestamp::read(self.text()) == Some(self),
    {
    }

    /// The instant at `secs` seconds and `nanos` nanoseconds, where it
    /// survives the wire.
    pub fn new(secs: i64, nanos: u32) -> (made: Option<Timestamp>)
        ensures
            made is Some <==> survives_wire(secs as int, nanos as int),
            made matches Some(at) ==> at.wf() && at.secs() == secs && at.nanos() == nanos,
    {
        match print_instant(secs, nanos) {
            Some(text) => match read_instant(text.as_str()) {
                Some(back) => if back.0 == secs && back.1 == nanos {
                    Some(Timestamp { secs, nanos })
                } else {
                    None
                },
                None => None,
            },
            None => None,
        }
    }

    /// Reads an instant from its wire text.
    pub fn parse(text: &str) -> (made: Option<Timestamp>)
        ensures
            made == Timestamp::read(text@),
            made matches Some(at) ==> at.wf(),
    {
        match read_instant(text) {
            Some(at) => Timestamp::new(at.0, at.1),
            None => None,
        }
    }

    /// The wire text of the instant.
    pub fn to_rfc3339(&self) -> (text: String)
        ensures
            self.wf(),
            text@ == self.text(),
    {
        proof {
            use_type_invariant(self);
        }
        match print_instant(self.secs, self.nanos) {
            Some(text) => text,
            None => String::new(),
        }
    }

    /// Whole seconds since the Unix epoch.
    pub fn timestamp(&self) -> (secs: i64)
        ensures
            secs == self.secs(),
    {
        self.secs
    }

    /// Nanoseconds past the whole second.
    pub fn timestamp_subsec_nanos(&self) -> (nanos: u32)
        ensures
            nanos == self.nanos(),
    {
        self.nanos
    }
}

} // verus!
