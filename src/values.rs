//! Identifiers, validated string wrappers and timestamps.
use vstd::prelude::*;

verus! {

/// An email address. Equality and ordering delegate to the text.
#[derive(Debug, Clone, Eq, PartialOrd, Ord, Hash)]
pub struct Email(pub String);

impl Email {
    pub open spec fn view(&self) -> Seq<char> {
        self.0@
    }

    pub fn as_str(&self) -> (r: &str)
        ensures
            r@ == self@,
    {
        self.0.as_str()
    }
}

impl AsRef<str> for Email {
    fn as_ref(&self) -> (r: &str)
        ensures
            r@ == self@,
    {
        self.0.as_str()
    }
}

impl PartialEq for Email {
    fn eq(&self, other: &Email) -> (r: bool) {
        self.0 == other.0
    }
}

impl vstd::std_specs::cmp::PartialEqSpecImpl for Email {
    open spec fn obeys_eq_spec() -> bool {
        true
    }

    open spec fn eq_spec(&self, other: &Email) -> bool {
        self@ == other@
    }
}

/// A name. Equality and ordering delegate to the text.
#[derive(Debug, Clone, Eq, PartialOrd, Ord, Hash)]
pub struct Name(pub String);

impl Name {
    pub open spec fn view(&self) -> Seq<char> {
        self.0@
    }

    pub fn as_str(&self) -> (r: &str)
        ensures
            r@ == self@,
    {
        self.0.as_str()
    }
}

impl AsRef<str> for Name {
    fn as_ref(&self) -> (r: &str)
        ensures
            r@ == self@,
    {
        self.0.as_str()
    }
}

impl PartialEq for Name {
    fn eq(&self, other: &Name) -> (r: bool) {
        self.0 == other.0
    }
}

impl vstd::std_specs::cmp::PartialEqSpecImpl for Name {
    open spec fn obeys_eq_spec() -> bool {
        true
    }

    open spec fn eq_spec(&self, other: &Name) -> bool {
        self@ == other@
    }
}

/// The 128 bits of a version 7 UUID: a time-ordered, globally unique token.
#[derive(Debug, Clone, Copy, PartialEq, Eq, Structural, PartialOrd, Ord, Hash)]
pub struct Id(pub u128);

/// The version field of a UUID held in its 128 bits.
pub open spec fn uuid_version(bits: u128) -> u128 {
    (bits >> 76u128) & 0xfu128
}

/// The variant field (two bits) of a UUID held in its 128 bits.
pub open spec fn uuid_variant(bits: u128) -> u128 {
    (bits >> 62u128) & 0x3u128
}

/// Relies on `uuid::Uuid::now_v7` and `uuid::Uuid::as_u128`: a fresh
/// version 7 UUID of the RFC 9562 variant, as its big-endian 128 bits.
#[verifier::external_body]
fn fresh_v7_bits() -> (r: u128)
    ensures
        uuid_version(r) == 7,
        uuid_variant(r) == 2,
{
    uuid::Uuid::now_v7().as_u128()
}

impl Id {
    /// Well-formed identifiers are version 7 UUIDs of the RFC 9562 variant.
    pub open spec fn wf(&self) -> bool {
        uuid_version(self.0) == 7 && uuid_variant(self.0) == 2
    }

    /// Mints a fresh identifier from the current time and random bits.
    pub fn new() -> (r: Id)
        ensures
            r.wf(),
    {
        Id(fresh_v7_bits())
    }
}

impl Default for Id {
    fn default() -> (r: Id)
        ensures
            r.wf(),
    {
        Id::new()
    }
}

/// An instant, as nanoseconds since the Unix epoch (UTC).
#[derive(Debug, Clone, Copy, PartialEq, Eq, Structural, PartialOrd, Ord, Hash)]
pub struct Date(pub i128);

/// The earliest instant that the clock can report, in nanoseconds.
pub const EARLIEST_NANOSECOND: i128 = -377_705_023_202_000_000_000;

/// The latest instant that the clock can report, in nanoseconds.
pub const LATEST_NANOSECOND: i128 = 253_402_207_201_000_000_000;

/// Relies on `jiff::Timestamp::now` and `jiff::Timestamp::as_nanosecond`: the
/// system clock read as nanoseconds since the Unix epoch, within the range of
/// instants that `jiff::Timestamp` represents (it panics on a system clock
/// outside that range).
#[verifier::external_body]
fn clock_nanoseconds() -> (r: i128)
    ensures
        EARLIEST_NANOSECOND < r < LATEST_NANOSECOND,
{
    jiff::Timestamp::now().as_nanosecond()
}

impl Date {
    /// Instants that the clock can report.
    pub open spec fn wf(&self) -> bool {
        EARLIEST_NANOSECOND < self.0 < LATEST_NANOSECOND
    }

    /// The current instant.
    pub fn now() -> (r: Date)
        ensures
            r.wf(),
    {
        Date(clock_nanoseconds())
    }

    pub fn nanosecond(&self) -> (r: i128)
        ensures
            r == self.0,
    {
        self.0
    }
}

} // verus!
