//! Levels and filters describing the verbosity of log messages.
//!
//! A [`Level`] is compared with a [`LevelFilter`] by the level numbers of the Furi logging
//! system: a message is enabled when its level is at most the filter. More verbose levels
//! compare as greater; [`LevelFilter::OFF`] is below every level.

use vstd::prelude::*;
use vstd::string::StringSliceAdditionalSpecFns;
use core::cmp::Ordering;

verus! {

/// Describes the level of verbosity of a log message.
///
/// [`Level::ERROR`] is the lowest level and [`Level::TRACE`] the highest.
#[allow(non_camel_case_types)]
#[derive(Clone, Copy, Debug, PartialEq, Eq, Hash, PartialOrd, Ord, Structural)]
pub enum Level {
    /// Designates very serious errors.
    ERROR,
    /// Designates hazardous situations.
    WARN,
    /// Designates useful information.
    INFO,
    /// Designates lower priority information.
    DEBUG,
    /// Designates very low priority, often extremely verbose, information.
    TRACE,
}

/// A filter comparable to a verbosity [`Level`].
///
/// Identical to [`Level`] with the addition of [`LevelFilter::OFF`], which disables all
/// logging.
#[allow(non_camel_case_types)]
#[derive(Clone, Copy, Debug, PartialEq, Eq, Hash, PartialOrd, Ord, Structural)]
pub enum LevelFilter {
    /// Designates that logging should be completely disabled.
    OFF,
    /// Designates very serious errors.
    ERROR,
    /// Designates hazardous situations.
    WARN,
    /// Designates useful information.
    INFO,
    /// Designates lower priority information.
    DEBUG,
    /// Designates very low priority, often extremely verbose, information.
    TRACE,
}

/// Returned if parsing a [`Level`] fails.
#[derive(Clone, Copy, Debug, PartialEq, Eq, Structural)]
pub struct ParseLevelError;

/// Returned if parsing a [`LevelFilter`] fails.
#[derive(Clone, Copy, Debug, PartialEq, Eq, Structural)]
pub struct ParseLevelFilterError;

/// Level numbers of the Furi logging system (`FuriLogLevel`).
pub const FURI_LOG_LEVEL_DEFAULT: u8 = 0;

pub const FURI_LOG_LEVEL_NONE: u8 = 1;

pub const FURI_LOG_LEVEL_ERROR: u8 = 2;

pub const FURI_LOG_LEVEL_WARN: u8 = 3;

pub const FURI_LOG_LEVEL_INFO: u8 = 4;

pub const FURI_LOG_LEVEL_DEBUG: u8 = 5;

pub const FURI_LOG_LEVEL_TRACE: u8 = 6;

/// An ASCII byte folded to lower case.
pub open spec fn ascii_lower(b: u8) -> u8 {
    if 0x41 <= b <= 0x5A {
        (b + 0x20) as u8
    } else {
        b
    }
}

/// Whether two byte strings are equal when ASCII letters are compared without case.
pub open spec fn eq_ignore_ascii_case(a: Seq<u8>, b: Seq<u8>) -> bool {
    a.len() == b.len() && forall|i: int| 0 <= i < a.len() ==> ascii_lower(a[i]) == ascii_lower(b[i])
}

/// Checks that two byte strings are equal when ASCII letters are compared without case.
pub fn bytes_eq_ignore_ascii_case(a: &[u8], b: &[u8]) -> (r: bool)
    ensures
        r == eq_ignore_ascii_case(a@, b@),
{
    if a.len() != b.len() {
        return false;
    }
    let mut i: usize = 0;
    while i < a.len()
        invariant
            a@.len() == b@.len(),
            i <= a@.len(),
            forall|j: int| 0 <= j < i ==> ascii_lower(a@[j]) == ascii_lower(b@[j]),
        decreases a@.len() - i,
    {
        let x = if 0x41 <= a[i] && a[i] <= 0x5A { a[i] + 0x20 } else { a[i] };
        let y = if 0x41 <= b[i] && b[i] <= 0x5A { b[i] + 0x20 } else { b[i] };
        if x != y {
            return false;
        }
        i = i + 1;
    }
    true
}

/// The lower-case name of a level, as bytes.
pub open spec fn level_name(level: Level) -> Seq<u8> {
    match level {
        Level::ERROR => seq![0x65u8, 0x72, 0x72, 0x6F, 0x72],
        Level::WARN => seq![0x77u8, 0x61, 0x72, 0x6E],
        Level::INFO => seq![0x69u8, 0x6E, 0x66, 0x6F],
        Level::DEBUG => seq![0x64u8, 0x65, 0x62, 0x75, 0x67],
        Level::TRACE => seq![0x74u8, 0x72, 0x61, 0x63, 0x65],
    }
}

/// The lower-case name `off`, as bytes.
pub open spec fn off_name() -> Seq<u8> {
    seq![0x6Fu8, 0x66, 0x66]
}

/// The level that `s` names, ignoring ASCII case.
pub open spec fn spec_parse_level(s: Seq<u8>) -> Option<Level> {
    if eq_ignore_ascii_case(s, level_name(Level::ERROR)) {
        Some(Level::ERROR)
    } else if eq_ignore_ascii_case(s, level_name(Level::WARN)) {
        Some(Level::WARN)
    } else if eq_ignore_ascii_case(s, level_name(Level::INFO)) {
        Some(Level::INFO)
    } else if eq_ignore_ascii_case(s, level_name(Level::DEBUG)) {
        Some(Level::DEBUG)
    } else if eq_ignore_ascii_case(s, level_name(Level::TRACE)) {
        Some(Level::TRACE)
    } else {
        None
    }
}

/// The filter that `s` names, ignoring ASCII case; the empty string names
/// [`LevelFilter::ERROR`].
pub open spec fn spec_parse_level_filter(s: Seq<u8>) -> Option<LevelFilter> {
    if s.len() == 0 {
        Some(LevelFilter::ERROR)
    } else if eq_ignore_ascii_case(s, off_name()) {
        Some(LevelFilter::OFF)
    } else {
        match spec_parse_level(s) {
            Some(level) => Some(LevelFilter::spec_from_level(level)),
            None => None,
        }
    }
}

impl Level {
    /// The Furi log level number of this level.
    pub open spec fn furi_value(self) -> u8 {
        match self {
            Level::ERROR => FURI_LOG_LEVEL_ERROR,
            Level::WARN => FURI_LOG_LEVEL_WARN,
            Level::INFO => FURI_LOG_LEVEL_INFO,
            Level::DEBUG => FURI_LOG_LEVEL_DEBUG,
            Level::TRACE => FURI_LOG_LEVEL_TRACE,
        }
    }

    /// Returns the Furi log level number of this level.
    pub fn to_furi(self) -> (r: u8)
        ensures
            r == self.furi_value(),
    {
        match self {
            Level::ERROR => FURI_LOG_LEVEL_ERROR,
            Level::WARN => FURI_LOG_LEVEL_WARN,
            Level::INFO => FURI_LOG_LEVEL_INFO,
            Level::DEBUG => FURI_LOG_LEVEL_DEBUG,
            Level::TRACE => FURI_LOG_LEVEL_TRACE,
        }
    }

    /// Returns the upper-case name of the level.
    pub fn as_str(&self) -> (r: &'static str)
        ensures
            r@ == (match *self {
                Level::TRACE => "TRACE"@,
                Level::DEBUG => "DEBUG"@,
                Level::INFO => "INFO"@,
                Level::WARN => "WARN"@,
                Level::ERROR => "ERROR"@,
            }),
    {
        match *self {
            Level::TRACE => "TRACE",
            Level::DEBUG => "DEBUG",
            Level::INFO => "INFO",
            Level::WARN => "WARN",
            Level::ERROR => "ERROR",
        }
    }

    /// Parses a level from its name, ignoring ASCII case.
    pub fn parse(s: &str) -> (r: Result<Level, ParseLevelError>)
        ensures
            r == (match spec_parse_level(s.spec_bytes()) {
                Some(level) => Ok::<Level, ParseLevelError>(level),
                None => Err(ParseLevelError),
            }),
    {
        let bytes = s.as_bytes();
        if bytes_eq_ignore_ascii_case(bytes, &[0x65u8, 0x72, 0x72, 0x6F, 0x72]) {
            Ok(Level::ERROR)
        } else if bytes_eq_ignore_ascii_case(bytes, &[0x77u8, 0x61, 0x72, 0x6E]) {
            Ok(Level::WARN)
        } else if bytes_eq_ignore_ascii_case(bytes, &[0x69u8, 0x6E, 0x66, 0x6F]) {
            Ok(Level::INFO)
        } else if bytes_eq_ignore_ascii_case(bytes, &[0x64u8, 0x65, 0x62, 0x75, 0x67]) {
            Ok(Level::DEBUG)
        } else if bytes_eq_ignore_ascii_case(bytes, &[0x74u8, 0x72, 0x61, 0x63, 0x65]) {
            Ok(Level::TRACE)
        } else {
            Err(ParseLevelError)
        }
    }
}

impl LevelFilter {
    /// The Furi log level number of this filter.
    pub open spec fn furi_value(self) -> u8 {
        match self {
            LevelFilter::OFF => FURI_LOG_LEVEL_NONE,
            LevelFilter::ERROR => FURI_LOG_LEVEL_ERROR,
            LevelFilter::WARN => FURI_LOG_LEVEL_WARN,
            LevelFilter::INFO => FURI_LOG_LEVEL_INFO,
            LevelFilter::DEBUG => FURI_LOG_LEVEL_DEBUG,
            LevelFilter::TRACE => FURI_LOG_LEVEL_TRACE,
        }
    }

    /// The filter that lets through `level` and everything more severe.
    pub open spec fn spec_from_level(level: Level) -> LevelFilter {
        match level {
            Level::TRACE => LevelFilter::TRACE,
            Level::DEBUG => LevelFilter::DEBUG,
            Level::INFO => LevelFilter::INFO,
            Level::WARN => LevelFilter::WARN,
            Level::ERROR => LevelFilter::ERROR,
        }
    }

    /// The most verbose level this filter lets through, or `None` for [`LevelFilter::OFF`].
    pub open spec fn spec_into_level(self) -> Option<Level> {
        match self {
            LevelFilter::TRACE => Some(Level::TRACE),
            LevelFilter::DEBUG => Some(Level::DEBUG),
            LevelFilter::INFO => Some(Level::INFO),
            LevelFilter::WARN => Some(Level::WARN),
            LevelFilter::ERROR => Some(Level::ERROR),
            LevelFilter::OFF => None,
        }
    }

    /// The filter that the Furi logging system applies at a given level number; the
    /// default level number stands for [`LevelFilter::INFO`].
    pub open spec fn spec_from_furi(raw: u8) -> LevelFilter {
        if raw == FURI_LOG_LEVEL_DEFAULT {
            LevelFilter::INFO
        } else if raw == FURI_LOG_LEVEL_NONE {
            LevelFilter::OFF
        } else if raw == FURI_LOG_LEVEL_ERROR {
            LevelFilter::ERROR
        } else if raw == FURI_LOG_LEVEL_WARN {
            LevelFilter::WARN
        } else if raw == FURI_LOG_LEVEL_INFO {
            LevelFilter::INFO
        } else if raw == FURI_LOG_LEVEL_DEBUG {
            LevelFilter::DEBUG
        } else {
            LevelFilter::TRACE
        }
    }

    /// Returns a `LevelFilter` that enables log messages with verbosity up to and including
    /// `level`.
    pub fn from_level(level: Level) -> (r: LevelFilter)
        ensures
            r == LevelFilter::spec_from_level(level),
    {
        match level {
            Level::TRACE => LevelFilter::TRACE,
            Level::DEBUG => LevelFilter::DEBUG,
            Level::INFO => LevelFilter::INFO,
            Level::WARN => LevelFilter::WARN,
            Level::ERROR => LevelFilter::ERROR,
        }
    }

    /// Returns the most verbose [`Level`] that this filter accepts, or `None` if it is
    /// [`LevelFilter::OFF`].
    pub fn into_level(self) -> (r: Option<Level>)
        ensures
            r == self.spec_into_level(),
    {
        match self {
            LevelFilter::TRACE => Some(Level::TRACE),
            LevelFilter::DEBUG => Some(Level::DEBUG),
            LevelFilter::INFO => Some(Level::INFO),
            LevelFilter::WARN => Some(Level::WARN),
            LevelFilter::ERROR => Some(Level::ERROR),
            LevelFilter::OFF => None,
        }
    }

    /// Returns the Furi log level number of this filter.
    pub fn to_furi(self) -> (r: u8)
        ensures
            r == self.furi_value(),
    {
        match self {
            LevelFilter::OFF => FURI_LOG_LEVEL_NONE,
            LevelFilter::ERROR => FURI_LOG_LEVEL_ERROR,
            LevelFilter::WARN => FURI_LOG_LEVEL_WARN,
            LevelFilter::INFO => FURI_LOG_LEVEL_INFO,
            LevelFilter::DEBUG => FURI_LOG_LEVEL_DEBUG,
            LevelFilter::TRACE => FURI_LOG_LEVEL_TRACE,
        }
    }

    /// Returns the filter that the Furi logging system applies when it reports the level
    /// number `raw`.
    ///
    /// The logging system only ever holds the level numbers of `FuriLogLevel`; any other
    /// number is a broken invariant, so it is excluded here.
    pub fn from_furi(raw: u8) -> (r: LevelFilter)
        requires
            raw <= FURI_LOG_LEVEL_TRACE,
        ensures
            r == LevelFilter::spec_from_furi(raw),
    {
        if raw == FURI_LOG_LEVEL_DEFAULT {
            // The default level is defined in `furi/core/log.c` in the firmware.
            LevelFilter::INFO
        } else if raw == FURI_LOG_LEVEL_NONE {
            LevelFilter::OFF
        } else if raw == FURI_LOG_LEVEL_ERROR {
            LevelFilter::ERROR
        } else if raw == FURI_LOG_LEVEL_WARN {
            LevelFilter::WARN
        } else if raw == FURI_LOG_LEVEL_INFO {
            LevelFilter::INFO
        } else if raw == FURI_LOG_LEVEL_DEBUG {
            LevelFilter::DEBUG
        } else {
            LevelFilter::TRACE
        }
    }

    /// Parses a filter from its name, ignoring ASCII case; the empty string parses as
    /// [`LevelFilter::ERROR`].
    pub fn parse(s: &str) -> (r: Result<LevelFilter, ParseLevelFilterError>)
        ensures
            r == (match spec_parse_level_filter(s.spec_bytes()) {
                Some(filter) => Ok::<LevelFilter, ParseLevelFilterError>(filter),
                None => Err(ParseLevelFilterError),
            }),
    {
        let bytes = s.as_bytes();
        if bytes.len() == 0 {
            Ok(LevelFilter::ERROR)
        } else if bytes_eq_ignore_ascii_case(bytes, &[0x6Fu8, 0x66, 0x66]) {
            Ok(LevelFilter::OFF)
        } else {
            match Level::parse(s) {
                Ok(level) => Ok(LevelFilter::from_level(level)),
                Err(_) => Err(ParseLevelFilterError),
            }
        }
    }
}

/// How two Furi log level numbers compare.
pub open spec fn furi_order(a: u8, b: u8) -> Ordering {
    if a < b {
        Ordering::Less
    } else if a > b {
        Ordering::Greater
    } else {
        Ordering::Equal
    }
}

fn compare_furi(a: u8, b: u8) -> (r: Ordering)
    ensures
        r == furi_order(a, b),
{
    if a < b {
        Ordering::Less
    } else if a > b {
        Ordering::Greater
    } else {
        Ordering::Equal
    }
}

impl PartialEq<LevelFilter> for Level {
    fn eq(&self, other: &LevelFilter) -> (r: bool) {
        self.to_furi() == other.to_furi()
    }
}

impl vstd::std_specs::cmp::PartialEqSpecImpl<LevelFilter> for Level {
    open spec fn obeys_eq_spec() -> bool {
        true
    }

    open spec fn eq_spec(&self, other: &LevelFilter) -> bool {
        self.furi_value() == other.furi_value()
    }
}

impl PartialOrd<LevelFilter> for Level {
    fn partial_cmp(&self, other: &LevelFilter) -> (r: Option<Ordering>) {
        Some(compare_furi(self.to_furi(), other.to_furi()))
    }
}

impl vstd::std_specs::cmp::PartialOrdSpecImpl<LevelFilter> for Level {
    open spec fn obeys_partial_cmp_spec() -> bool {
        true
    }

    open spec fn partial_cmp_spec(&self, other: &LevelFilter) -> Option<Ordering> {
        Some(furi_order(self.furi_value(), other.furi_value()))
    }
}

impl PartialEq<Level> for LevelFilter {
    fn eq(&self, other: &Level) -> (r: bool) {
        self.to_furi() == other.to_furi()
    }
}

impl vstd::std_specs::cmp::PartialEqSpecImpl<Level> for LevelFilter {
    open spec fn obeys_eq_spec() -> bool {
        true
    }

    open spec fn eq_spec(&self, other: &Level) -> bool {
        self.furi_value() == other.furi_value()
    }
}

impl PartialOrd<Level> for LevelFilter {
    fn partial_cmp(&self, other: &Level) -> (r: Option<Ordering>) {
        Some(compare_furi(self.to_furi(), other.to_furi()))
    }
}

impl vstd::std_specs::cmp::PartialOrdSpecImpl<Level> for LevelFilter {
    open spec fn obeys_partial_cmp_spec() -> bool {
        true
    }

    open spec fn partial_cmp_spec(&self, other: &Level) -> Option<Ordering> {
        Some(furi_order(self.furi_value(), other.furi_value()))
    }
}

impl From<Level> for LevelFilter {
    fn from(level: Level) -> (r: LevelFilter) {
        LevelFilter::from_level(level)
    }
}

impl vstd::std_specs::convert::FromSpecImpl<Level> for LevelFilter {
    open spec fn obeys_from_spec() -> bool {
        true
    }

    open spec fn from_spec(level: Level) -> LevelFilter {
        LevelFilter::spec_from_level(level)
    }
}

impl From<Option<Level>> for LevelFilter {
    fn from(level: Option<Level>) -> (r: LevelFilter) {
        match level {
            Some(level) => LevelFilter::from_level(level),
            None => LevelFilter::OFF,
        }
    }
}

impl vstd::std_specs::convert::FromSpecImpl<Option<Level>> for LevelFilter {
    open spec fn obeys_from_spec() -> bool {
        true
    }

    open spec fn from_spec(level: Option<Level>) -> LevelFilter {
        match level {
            Some(level) => LevelFilter::spec_from_level(level),
            None => LevelFilter::OFF,
        }
    }
}

impl From<LevelFilter> for Option<Level> {
    fn from(filter: LevelFilter) -> (r: Option<Level>) {
        filter.into_level()
    }
}

impl vstd::std_specs::convert::FromSpecImpl<LevelFilter> for Option<Level> {
    open spec fn obeys_from_spec() -> bool {
        true
    }

    open spec fn from_spec(filter: LevelFilter) -> Option<Level> {
        filter.spec_into_level()
    }
}

impl core::str::FromStr for Level {
    type Err = ParseLevelError;

    fn from_str(s: &str) -> (r: Result<Level, ParseLevelError>)
        ensures
            r == (match spec_parse_level(s.spec_bytes()) {
                Some(level) => Ok::<Level, ParseLevelError>(level),
                None => Err(ParseLevelError),
            }),
    {
        Level::parse(s)
    }
}

impl core::str::FromStr for LevelFilter {
    type Err = ParseLevelFilterError;

    fn from_str(s: &str) -> (r: Result<LevelFilter, ParseLevelFilterError>)
        ensures
            r == (match spec_parse_level_filter(s.spec_bytes()) {
                Some(filter) => Ok::<LevelFilter, ParseLevelFilterError>(filter),
                None => Err(ParseLevelFilterError),
            }),
    {
        LevelFilter::parse(s)
    }
}

/// A level seen as a filter and back is the same level, and a filter seen as an optional
/// level and back is the same filter.
pub proof fn lemma_level_filter_round_trip(level: Level, filter: LevelFilter)
    ensures
        LevelFilter::spec_from_level(level).spec_into_level() == Some(level),
        (match filter.spec_into_level() {
            Some(l) => LevelFilter::spec_from_level(l),
            None => LevelFilter::OFF,
        }) == filter,
        LevelFilter::spec_from_furi(filter.furi_value()) == filter,
{
}

/// A level compares as equal to the filter made from it; every level compares as greater
/// than [`LevelFilter::OFF`]; and a level is enabled by a filter (compares as less than or
/// equal to it) exactly when the filter is not `OFF` and the level is no more verbose than
/// the filter's level.
pub proof fn lemma_level_filter_order(level: Level, filter: LevelFilter)
    ensures
        furi_order(level.furi_value(), LevelFilter::spec_from_level(level).furi_value())
            == Ordering::Equal,
        furi_order(level.furi_value(), LevelFilter::OFF.furi_value()) == Ordering::Greater,
        furi_order(level.furi_value(), filter.furi_value()) != Ordering::Greater <==> (match filter.spec_into_level() {
            Some(max) => level.furi_value() <= max.furi_value(),
            None => false,
        }),
{
}

/// The lower-case name of every level parses as that level, whatever the case of its
/// letters, and the name of a filter parses as that filter.
pub proof fn lemma_parse_names(level: Level, s: Seq<u8>)
    requires
        eq_ignore_ascii_case(s, level_name(level)),
    ensures
        spec_parse_level(s) == Some(level),
        spec_parse_level_filter(s) == Some(LevelFilter::spec_from_level(level)),
{
    assert(ascii_lower(s[0]) == ascii_lower(level_name(level)[0]));
    assert(ascii_lower(s[1]) == ascii_lower(level_name(level)[1]));
    assert(ascii_lower(s[2]) == ascii_lower(level_name(level)[2]));
    assert(ascii_lower(s[3]) == ascii_lower(level_name(level)[3]));
}

/// Parsing ignores ASCII case: byte strings equal up to case parse to the same level and
/// to the same filter.
pub proof fn lemma_parse_ignores_case(s: Seq<u8>, t: Seq<u8>)
    requires
        eq_ignore_ascii_case(s, t),
    ensures
        spec_parse_level(s) == spec_parse_level(t),
        spec_parse_level_filter(s) == spec_parse_level_filter(t),
{
    assert forall|name: Seq<u8>| eq_ignore_ascii_case(s, name) <==> eq_ignore_ascii_case(t, name) by {
        if eq_ignore_ascii_case(s, name) {
            assert forall|i: int| 0 <= i < t.len() implies ascii_lower(t[i]) == ascii_lower(name[i]) by {
                assert(ascii_lower(s[i]) == ascii_lower(t[i]));
            }
        }
        if eq_ignore_ascii_case(t, name) {
            assert forall|i: int| 0 <= i < s.len() implies ascii_lower(s[i]) == ascii_lower(name[i]) by {
                assert(ascii_lower(s[i]) == ascii_lower(t[i]));
            }
        }
    }
}

/// The firmware's numbers for every [`Level`], one by one, as the firmware's
/// enumeration lists them.
pub proof fn lemma_level_numbers()
    ensures
        Level::ERROR.furi_value() == 2,
        Level::WARN.furi_value() == 3,
        Level::INFO.furi_value() == 4,
        Level::DEBUG.furi_value() == 5,
        Level::TRACE.furi_value() == 6,
{
}

/// The firmware's numbers for every [`LevelFilter`], one by one, as the firmware's
/// enumeration lists them.
pub proof fn lemma_level_filter_numbers()
    ensures
        LevelFilter::OFF.furi_value() == 1,
        LevelFilter::ERROR.furi_value() == 2,
        LevelFilter::WARN.furi_value() == 3,
        LevelFilter::INFO.furi_value() == 4,
        LevelFilter::DEBUG.furi_value() == 5,
        LevelFilter::TRACE.furi_value() == 6,
{
}

} // verus!
