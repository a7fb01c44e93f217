//! Time and duration helpers shared by the metadata engine and its read
//! accessors: TAI64-based timestamps, exact duration arithmetic, and trusted
//! renderings into human-readable text.

use vstd::prelude::*;

verus! {

/// How many nanoseconds one second holds; the fractional part of a
/// [`Timestamp`] or [`FsDuration`] always stays below this bound.
pub const NANOS_PER_SECOND: u32 = 1_000_000_000;

/// The TAI64 second label of the UNIX epoch: the fixed `1 << 62` bias plus
/// the ten initial leap seconds and the twenty-seven since.
pub const TAI64_UNIX_EPOCH_SECS: u64 = 4611686018427387941;

/// The lowest second label the text renderer's calendar reaches: midnight
/// opening year −262143, its earliest date.
pub const MIN_RENDERABLE_SECS: u64 = 4611677683826159141;

/// The highest second label the text renderer's calendar reaches: the last
/// second of year 262142, its latest date.
pub const MAX_RENDERABLE_SECS: u64 = 4611694228694264740;

/// A monotonic file timestamp: a TAI64 second label plus a nanosecond
/// fraction.  The label counts seconds with a fixed bias of `1 << 62`, so
/// ordinary dates sit far from both ends of the `u64` range.
#[derive(Clone, Copy, Debug, PartialEq, Eq, Structural)]
pub struct Timestamp {
    /// The TAI64 second label.
    pub secs: u64,
    /// Nanoseconds within the second, below [`NANOS_PER_SECOND`].
    pub nanos: u32,
}

impl Timestamp {
    /// The nanosecond part never reaches a full second.
    pub open spec fn wf(self) -> bool {
        self.nanos < NANOS_PER_SECOND
    }

    /// `self` is at least as late as `other`, comparing seconds first.
    pub open spec fn spec_ge(self, other: Timestamp) -> bool {
        self.secs > other.secs || (self.secs == other.secs && self.nanos >= other.nanos)
    }

    /// The text renderer's calendar reaches this instant: the label lies
    /// within about ±262,000 years of 1970 and the nanosecond part is well
    /// formed.
    pub open spec fn renderable(self) -> bool {
        self.wf() && MIN_RENDERABLE_SECS <= self.secs <= MAX_RENDERABLE_SECS
    }

    /// Whether the nanosecond part stays below one second.
    pub fn is_well_formed(&self) -> (r: bool)
        ensures
            r == self.wf(),
    {
        self.nanos < NANOS_PER_SECOND
    }

    /// Whether text can be rendered for this instant.
    pub fn is_renderable(&self) -> (r: bool)
        ensures
            r == self.renderable(),
    {
        self.nanos < NANOS_PER_SECOND && self.secs >= MIN_RENDERABLE_SECS && self.secs
            <= MAX_RENDERABLE_SECS
    }

    /// The timestamp of the UNIX epoch.
    pub open spec fn spec_unix_epoch() -> Timestamp {
        Timestamp { secs: TAI64_UNIX_EPOCH_SECS, nanos: 0 }
    }

    /// The timestamp of the UNIX epoch.
    pub fn unix_epoch() -> (r: Timestamp)
        ensures
            r == Timestamp::spec_unix_epoch(),
    {
        Timestamp { secs: TAI64_UNIX_EPOCH_SECS, nanos: 0 }
    }

    /// The timestamp at the given offset from the UNIX epoch: whole seconds
    /// add to or subtract from the epoch label with a nanosecond borrow,
    /// clamping at the ends of the label's range.
    pub open spec fn spec_from_unix_offset(offset: Result<FsDuration, FsDuration>) -> Timestamp {
        match offset {
            Ok(d) => if d.secs <= u64::MAX - TAI64_UNIX_EPOCH_SECS {
                Timestamp { secs: (TAI64_UNIX_EPOCH_SECS + d.secs) as u64, nanos: d.nanos }
            } else {
                Timestamp { secs: u64::MAX, nanos: d.nanos }
            },
            Err(d) => if d.nanos == 0 {
                if d.secs <= TAI64_UNIX_EPOCH_SECS {
                    Timestamp { secs: (TAI64_UNIX_EPOCH_SECS - d.secs) as u64, nanos: 0 }
                } else {
                    Timestamp { secs: 0, nanos: 0 }
                }
            } else {
                if d.secs < TAI64_UNIX_EPOCH_SECS {
                    Timestamp {
                        secs: (TAI64_UNIX_EPOCH_SECS - 1 - d.secs) as u64,
                        nanos: (NANOS_PER_SECOND - d.nanos) as u32,
                    }
                } else {
                    Timestamp { secs: 0, nanos: 0 }
                }
            },
        }
    }

    /// Build the timestamp for an offset from the UNIX epoch, `Ok` after it
    /// and `Err` before it.
    pub fn from_unix_offset(offset: Result<FsDuration, FsDuration>) -> (r: Timestamp)
        requires
            match offset {
                Ok(d) => d.wf(),
                Err(d) => d.wf(),
            },
        ensures
            r == Timestamp::spec_from_unix_offset(offset),
            r.wf(),
    {
        match offset {
            Ok(d) => {
                if d.secs <= u64::MAX - TAI64_UNIX_EPOCH_SECS {
                    Timestamp { secs: TAI64_UNIX_EPOCH_SECS + d.secs, nanos: d.nanos }
                } else {
                    Timestamp { secs: u64::MAX, nanos: d.nanos }
                }
            },
            Err(d) => {
                if d.nanos == 0 {
                    if d.secs <= TAI64_UNIX_EPOCH_SECS {
                        Timestamp { secs: TAI64_UNIX_EPOCH_SECS - d.secs, nanos: 0 }
                    } else {
                        Timestamp { secs: 0, nanos: 0 }
                    }
                } else {
                    if d.secs < TAI64_UNIX_EPOCH_SECS {
                        Timestamp {
                            secs: TAI64_UNIX_EPOCH_SECS - 1 - d.secs,
                            nanos: NANOS_PER_SECOND - d.nanos,
                        }
                    } else {
                        Timestamp { secs: 0, nanos: 0 }
                    }
                }
            },
        }
    }
}

/// A span between two [`Timestamp`] values.
#[derive(Clone, Copy, Debug, PartialEq, Eq, Structural)]
pub struct FsDuration {
    /// Whole seconds of the span.
    pub secs: u64,
    /// Nanoseconds within the last second, below [`NANOS_PER_SECOND`].
    pub nanos: u32,
}

impl FsDuration {
    /// The nanosecond part never reaches a full second.
    pub open spec fn wf(self) -> bool {
        self.nanos < NANOS_PER_SECOND
    }
}

/// The exact span from `earlier` up to `later`, borrowing one second when
/// the nanosecond parts cross.
pub open spec fn spec_duration_between(earlier: Timestamp, later: Timestamp) -> FsDuration {
    if later.nanos >= earlier.nanos {
        FsDuration {
            secs: (later.secs - earlier.secs) as u64,
            nanos: (later.nanos - earlier.nanos) as u32,
        }
    } else {
        FsDuration {
            secs: (later.secs - 1 - earlier.secs) as u64,
            nanos: (NANOS_PER_SECOND + later.nanos - earlier.nanos) as u32,
        }
    }
}

/// A date and a time of day, each as human-readable text.
#[derive(Debug, Clone, PartialEq)]
pub struct DateTimeString {
    /// The date without a timestamp.
    pub date: String,
    /// A timestamp without a date.
    pub time: String,
}

/// `std::time::SystemTime` carries through the library opaquely; only the
/// trusted conversion into a [`Timestamp`] reads it.
#[verifier::external_type_specification]
#[verifier::external_body]
pub struct ExSystemTime(std::time::SystemTime);

/// Relies on std's `SystemTime::duration_since` against the UNIX epoch:
/// the instant's offset from the epoch comes back as whole seconds and a
/// nanosecond part below one second, `Err` for an instant before the epoch.
#[verifier::external_body]
fn unix_offset(t: &std::time::SystemTime) -> (r: Result<FsDuration, FsDuration>)
    ensures
        match r {
            Ok(d) => d.wf(),
            Err(d) => d.wf(),
        },
{
    match t.duration_since(std::time::UNIX_EPOCH) {
        Ok(d) => Ok(FsDuration { secs: d.as_secs(), nanos: d.subsec_nanos() }),
        Err(e) => Err(
            FsDuration { secs: e.duration().as_secs(), nanos: e.duration().subsec_nanos() },
        ),
    }
}

/// Relies on `tai64::Tai64N::now`: whatever instant comes back has a
/// well-formed nanosecond part.
#[verifier::external_body]
fn timestamp_now() -> (r: Timestamp)
    ensures
        r.wf(),
{
    let now = tai64::Tai64N::now();
    Timestamp { secs: (now.0).0, nanos: now.1 }
}

/// The date text chrono renders for a timestamp: weekday, day, month and
/// year written out.
pub uninterp spec fn local_date_text(secs: u64, nanos: u32) -> Seq<char>;

/// The time-of-day text chrono renders for a timestamp in 24-hour form.
pub uninterp spec fn clock_text_24h(secs: u64, nanos: u32) -> Seq<char>;

/// The time-of-day text chrono renders for a timestamp in 12-hour form.
pub uninterp spec fn clock_text_12h(secs: u64, nanos: u32) -> Seq<char>;

/// Relies on `tai64::Tai64N::to_system_time` and chrono's UTC rendering
/// with `%A, %-d %B, %C%y` and `%H:%M:%S`: the text depends on the
/// timestamp alone.  The conversion panics outside the calendar's span of
/// about ±262,000 years, so the timestamp must stay renderable.
#[verifier::external_body]
fn format_local_24h(time: &Timestamp) -> (r: DateTimeString)
    requires
        time.renderable(),
    ensures
        r.date@ == local_date_text(time.secs, time.nanos),
        r.time@ == clock_text_24h(time.secs, time.nanos),
{
    let stamp = tai64::Tai64N(tai64::Tai64(time.secs), time.nanos);
    let date_time: chrono::DateTime<chrono::Utc> = stamp.to_system_time().into();
    let date = date_time.date_naive().format("%A, %-d %B, %C%y").to_string();
    let time = date_time.format("%H:%M:%S").to_string();
    DateTimeString { date, time }
}

/// Relies on `tai64::Tai64N::to_system_time` and chrono's UTC rendering
/// with `%A, %-d %B, %C%y` and `%-I:%M %p`: the text depends on the
/// timestamp alone.  The conversion panics outside the calendar's span of
/// about ±262,000 years, so the timestamp must stay renderable.
#[verifier::external_body]
fn format_local_12h(time: &Timestamp) -> (r: DateTimeString)
    requires
        time.renderable(),
    ensures
        r.date@ == local_date_text(time.secs, time.nanos),
        r.time@ == clock_text_12h(time.secs, time.nanos),
{
    let stamp = tai64::Tai64N(tai64::Tai64(time.secs), time.nanos);
    let date_time: chrono::DateTime<chrono::Utc> = stamp.to_system_time().into();
    let date = date_time.date_naive().format("%A, %-d %B, %C%y").to_string();
    let time = date_time.format("%-I:%M %p").to_string();
    DateTimeString { date, time }
}

/// The text humantime renders for a span of seconds and nanoseconds.
pub uninterp spec fn human_duration_text(secs: u64, nanos: u32) -> Seq<char>;

/// Relies on `humantime::format_duration`: the rendering depends on the
/// duration alone.
#[verifier::external_body]
fn format_human_duration(d: &FsDuration) -> (r: String)
    requires
        d.wf(),
    ensures
        r@ == human_duration_text(d.secs, d.nanos),
{
    humantime::format_duration(std::time::Duration::new(d.secs, d.nanos)).to_string()
}

/// A convenience struct to access the time utilities.
pub struct FsUtils;

impl FsUtils {
    /// A timestamp for the queried time, absent when the query itself found
    /// none; the conversion clamps at the ends of the label's range.
    pub fn maybe_time(time_result: Option<std::time::SystemTime>) -> (r: Option<Timestamp>)
        ensures
            r is Some <==> time_result is Some,
            r is Some ==> r->0.wf(),
    {
        match time_result {
            Some(t) => Some(Timestamp::from_unix_offset(unix_offset(&t))),
            None => None,
        }
    }

    /// Render a timestamp as local date and 24-hour time.
    pub fn tai64_to_local_hrs(time: &Timestamp) -> (r: DateTimeString)
        requires
            time.renderable(),
        ensures
            r.date@ == local_date_text(time.secs, time.nanos),
            r.time@ == clock_text_24h(time.secs, time.nanos),
    {
        format_local_24h(time)
    }

    /// Render a timestamp as local date and 12-hour time.
    pub fn tai64_to_local_am_pm(time: &Timestamp) -> (r: DateTimeString)
        requires
            time.renderable(),
        ensures
            r.date@ == local_date_text(time.secs, time.nanos),
            r.time@ == clock_text_12h(time.secs, time.nanos),
    {
        format_local_12h(time)
    }

    /// The span by which `earlier_time` exceeds `current_time`, absent when
    /// it does not.
    pub fn tai64_duration(earlier_time: &Timestamp, current_time: &Timestamp) -> (r: Option<
        FsDuration,
    >)
        requires
            earlier_time.wf(),
            current_time.wf(),
        ensures
            match r {
                Some(d) => earlier_time.spec_ge(*current_time) && d.wf() && d
                    == spec_duration_between(*current_time, *earlier_time),
                None => !earlier_time.spec_ge(*current_time),
            },
    {
        let ge = if earlier_time.secs > current_time.secs {
            true
        } else {
            earlier_time.secs == current_time.secs && earlier_time.nanos >= current_time.nanos
        };
        if !ge {
            return None;
        }
        if earlier_time.nanos >= current_time.nanos {
            Some(
                FsDuration {
                    secs: earlier_time.secs - current_time.secs,
                    nanos: earlier_time.nanos - current_time.nanos,
                },
            )
        } else {
            Some(
                FsDuration {
                    secs: earlier_time.secs - 1 - current_time.secs,
                    nanos: NANOS_PER_SECOND + earlier_time.nanos - current_time.nanos,
                },
            )
        }
    }

    /// The span from the UNIX epoch up to `time`, absent for a timestamp
    /// before the epoch.
    pub fn tai64_duration_since_epoch(time: &Timestamp) -> (r: Option<FsDuration>)
        requires
            time.wf(),
        ensures
            match r {
                Some(d) => time.spec_ge(Timestamp::spec_unix_epoch()) && d.wf() && d
                    == spec_duration_between(Timestamp::spec_unix_epoch(), *time),
                None => !time.spec_ge(Timestamp::spec_unix_epoch()),
            },
    {
        let epoch = Timestamp::unix_epoch();
        Self::tai64_duration(time, &epoch)
    }

    /// The span from `earlier_time` up to the instant the call happens to
    /// run at, absent when that instant precedes `earlier_time`.
    pub fn tai64_duration_from_now(earlier_time: &Timestamp) -> (r: Option<FsDuration>)
        requires
            earlier_time.wf(),
        ensures
            r is Some ==> r->0.wf(),
            exists|now: Timestamp|
                {
                    &&& #[trigger] now.wf()
                    &&& (r is Some <==> now.spec_ge(*earlier_time))
                    &&& (r is Some ==> r->0 == spec_duration_between(*earlier_time, now))
                },
    {
        let now = timestamp_now();
        let r = Self::tai64_duration(&now, earlier_time);
        proof {
            assert({
                &&& now.wf()
                &&& (r is Some <==> now.spec_ge(*earlier_time))
                &&& (r is Some ==> r->0 == spec_duration_between(*earlier_time, now))
            });
        }
        r
    }

    /// Render the span from the UNIX epoch up to `time` as human-readable
    /// text, absent for a timestamp before the epoch.
    pub fn tai64_to_humantime_with_epoch(time: &Timestamp) -> (r: Option<String>)
        requires
            time.wf(),
        ensures
            match r {
                Some(s) => time.spec_ge(Timestamp::spec_unix_epoch()) && ({
                    let d = spec_duration_between(Timestamp::spec_unix_epoch(), *time);
                    s@ == human_duration_text(d.secs, d.nanos)
                }),
                None => !time.spec_ge(Timestamp::spec_unix_epoch()),
            },
    {
        match Self::tai64_duration_since_epoch(time) {
            Some(d) => Some(format_human_duration(&d)),
            None => None,
        }
    }

    /// Render the span by which `earlier_time` exceeds `current_time` as
    /// human-readable text, absent when it does not.
    pub fn tai64_to_humantime(earlier_time: &Timestamp, current_time: &Timestamp) -> (r: Option<
        String,
    >)
        requires
            earlier_time.wf(),
            current_time.wf(),
        ensures
            match r {
                Some(s) => earlier_time.spec_ge(*current_time) && ({
                    let d = spec_duration_between(*current_time, *earlier_time);
                    s@ == human_duration_text(d.secs, d.nanos)
                }),
                None => !earlier_time.spec_ge(*current_time),
            },
    {
        match Self::tai64_duration(earlier_time, current_time) {
            Some(d) => Some(format_human_duration(&d)),
            None => None,
        }
    }

    /// Render the span from `earlier_time` up to the instant the call runs
    /// at as human-readable text, absent when that instant precedes
    /// `earlier_time`.
    pub fn tai64_now_duration_to_humantime(earlier_time: &Timestamp) -> (r: Option<String>)
        requires
            earlier_time.wf(),
        ensures
            exists|now: Timestamp|
                {
                    &&& #[trigger] now.wf()
                    &&& (r is Some <==> now.spec_ge(*earlier_time))
                    &&& (r is Some ==> r->0@ == human_duration_text(
                        spec_duration_between(*earlier_time, now).secs,
                        spec_duration_between(*earlier_time, now).nanos,
                    ))
                },
    {
        let now = timestamp_now();
        let r = match Self::tai64_duration(&now, earlier_time) {
            Some(d) => Some(format_human_duration(&d)),
            None => None,
        };
        proof {
            assert({
                &&& now.wf()
                &&& (r is Some <==> now.spec_ge(*earlier_time))
                &&& (r is Some ==> r->0@ == human_duration_text(
                    spec_duration_between(*earlier_time, now).secs,
                    spec_duration_between(*earlier_time, now).nanos,
                ))
            });
        }
        r
    }
}

} // verus!
