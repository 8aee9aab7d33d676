//! Wall-clock readings as plain values, and their text forms through `chrono`.
//! The clock itself is read by the caller.

use vstd::prelude::*;
use std::fmt::Write;

verus! {

/// The earliest UNIX time (in seconds) that `chrono` can represent: the first
/// second of its smallest year, -262143.
pub const EARLIEST_UNIX_SECS: i64 = -8334601315200;

/// The latest UNIX time (in seconds) that `chrono` can represent: the last second
/// of its largest year, 262142.
pub const LATEST_UNIX_SECS: i64 = 8210266876799;

/// A UNIX time that `chrono` can turn into a date and time.
pub open spec fn utc_in_range(secs: int) -> bool {
    EARLIEST_UNIX_SECS <= secs <= LATEST_UNIX_SECS
}

/// An offset from UTC that `chrono` accepts: less than a day either way.
pub open spec fn offset_in_range(secs: int) -> bool {
    -86400 < secs < 86400
}

/// A moment, as seconds since the UNIX epoch (UTC).
#[derive(Debug, Clone, Copy)]
pub struct UtcStamp {
    secs: i64,
}

impl UtcStamp {
    #[verifier::type_invariant]
    spec fn well_formed(self) -> bool {
        utc_in_range(self.secs as int)
    }

    /// The seconds since the epoch.
    pub closed spec fn secs(self) -> i64 {
        self.secs
    }

    /// The moment `secs` seconds after the epoch, if `chrono` can represent it.
    pub fn new(secs: i64) -> (r: Option<Self>)
        ensures
            r is Some == utc_in_range(secs as int),
            r matches Some(s) ==> s.secs() == secs,
    {
        if EARLIEST_UNIX_SECS <= secs && secs <= LATEST_UNIX_SECS {
            Some(UtcStamp { secs })
        } else {
            None
        }
    }
}

/// A moment as the local clock saw it: seconds since the UNIX epoch (UTC) and the
/// local offset east of UTC, in seconds, that applied then.
#[derive(Debug, Clone, Copy)]
pub struct LocalStamp {
    utc_secs: i64,
    offset_secs: i32,
}

impl LocalStamp {
    #[verifier::type_invariant]
    spec fn well_formed(self) -> bool {
        utc_in_range(self.utc_secs as int) && offset_in_range(self.offset_secs as int)
    }

    /// The seconds since the epoch.
    pub closed spec fn utc_secs(self) -> i64 {
        self.utc_secs
    }

    /// The local offset east of UTC, in seconds.
    pub closed spec fn offset_secs(self) -> i32 {
        self.offset_secs
    }

    /// The reading `utc_secs` with offset `offset_secs`, if `chrono` can represent it.
    pub fn new(utc_secs: i64, offset_secs: i32) -> (r: Option<Self>)
        ensures
            r is Some == (utc_in_range(utc_secs as int) && offset_in_range(offset_secs as int)),
            r matches Some(s) ==> s.utc_secs() == utc_secs && s.offset_secs() == offset_secs,
    {
        if EARLIEST_UNIX_SECS <= utc_secs && utc_secs <= LATEST_UNIX_SECS && -86400 < offset_secs
            && offset_secs < 86400 {
            Some(LocalStamp { utc_secs, offset_secs })
        } else {
            None
        }
    }
}

/// A format made of literal characters and the specifiers `%Y`, `%m`, `%d`, `%H`,
/// `%M`, `%S` only: every `%` is followed by one of those letters.
pub open spec fn plain_date_format(fmt: Seq<char>) -> bool {
    forall|i: int| 0 <= i < fmt.len() && #[trigger] fmt[i] == '%' ==> i + 1 < fmt.len() && {
        let c = fmt[i + 1];
        c == 'Y' || c == 'm' || c == 'd' || c == 'H' || c == 'M' || c == 'S'
    }
}

/// What `chrono` writes for the local date and time of UNIX time `utc_secs` at
/// offset `offset_secs` with strftime format `fmt`; `None` when the format is
/// refused.
pub uninterp spec fn local_time_text(utc_secs: i64, offset_secs: i32, fmt: Seq<char>) -> Option<Seq<char>>;

/// Rebuilds the local date and time of a stamp with `chrono`
/// (`DateTime::from_timestamp`, `FixedOffset::east_opt`, `with_timezone`, all of
/// which accept every `LocalStamp`) and writes it with `format(fmt)` into a
/// `String`. The text depends on the stamp and the format alone and is named
/// `local_time_text`. `chrono` refuses a format only through an error item, and
/// the specifiers `%Y %m %d %H %M %S` and literal characters make none.
#[verifier::external_body]
pub(crate) fn format_local(s: LocalStamp, fmt: &str) -> (r: Option<String>)
    ensures
        match r {
            Some(t) => local_time_text(s.utc_secs(), s.offset_secs(), fmt@) == Some(t@),
            None => local_time_text(s.utc_secs(), s.offset_secs(), fmt@) is None,
        },
        plain_date_format(fmt@) ==> r is Some,
{
    let offset = chrono::FixedOffset::east_opt(s.offset_secs).unwrap();
    let utc = chrono::DateTime::from_timestamp(s.utc_secs, 0).unwrap();
    let mut out = String::new();
    match write!(out, "{}", utc.with_timezone(&offset).format(fmt)) {
        Ok(()) => Some(out),
        Err(_) => None,
    }
}

/// How many digits of the second `to_rfc3339_opts` writes (`chrono::SecondsFormat`).
#[derive(Debug, Clone, Copy, PartialEq, Eq, Structural)]
pub enum SecondsDigits {
    Secs,
    Millis,
    Micros,
    Nanos,
    AutoSi,
}

/// What `chrono` writes in RFC 3339 form for UNIX time `utc_secs` in UTC, with the
/// given second digits, ending in `Z` when `use_z` holds (else `+00:00`).
pub uninterp spec fn rfc3339_text(utc_secs: i64, digits: SecondsDigits, use_z: bool) -> Seq<char>;

/// Calls `DateTime::<Utc>::from_timestamp(utc_secs, 0)` (which accepts every
/// `UtcStamp`) and `to_rfc3339_opts(digits, use_z)`. The text depends on the three
/// arguments alone and is named `rfc3339_text`. For whole seconds ending in `Z`
/// it is the year (four digits, or a sign and at least five), then
/// `-MM-DDTHH:MM:SS` and `Z`.
#[verifier::external_body]
pub(crate) fn format_rfc3339(s: UtcStamp, digits: SecondsDigits, use_z: bool) -> (r: String)
    ensures
        r@ == rfc3339_text(s.secs(), digits, use_z),
        digits == SecondsDigits::Secs && use_z ==> {
            &&& r@.len() >= 20
            &&& r@.last() == 'Z'
            &&& r@[r@.len() - 10] == 'T'
        },
{
    let format = match digits {
        SecondsDigits::Secs => chrono::SecondsFormat::Secs,
        SecondsDigits::Millis => chrono::SecondsFormat::Millis,
        SecondsDigits::Micros => chrono::SecondsFormat::Micros,
        SecondsDigits::Nanos => chrono::SecondsFormat::Nanos,
        SecondsDigits::AutoSi => chrono::SecondsFormat::AutoSi,
    };
    chrono::DateTime::from_timestamp(s.secs, 0).unwrap().to_rfc3339_opts(format, use_z)
}

} // verus!
