use vstd::prelude::*;

use crate::text::{decimal, push_decimal};

verus! {

/// A wall-clock date and time in the machine's local time zone.
#[derive(Clone, Copy, Debug, PartialEq, Eq)]
pub struct LocalDateTime {
    pub year: i32,
    pub month: u32,
    pub day: u32,
    pub hour: u32,
    pub minute: u32,
    pub second: u32,
}

impl LocalDateTime {
    pub open spec fn wf(&self) -> bool {
        &&& 1 <= self.month <= 12
        &&& 1 <= self.day <= 31
        &&& self.hour < 24
        &&& self.minute < 60
        &&& self.second < 60
    }
}

/// A point in time as seconds and nanoseconds since the Unix epoch,
/// the seconds rounded towards negative infinity.
#[derive(Clone, Copy, Debug, PartialEq, Eq)]
pub struct UnixTime {
    pub secs: i64,
    pub nanos: u32,
}

pub const NANOS_PER_SEC: u32 = 1_000_000_000;

/// The year as `%Y` writes it: four digits inside 0..=9999, else a sign
/// and at least four digits.
pub open spec fn year_text(y: int) -> Seq<char> {
    if 0 <= y <= 9999 {
        decimal(y as nat, 4)
    } else if y > 9999 {
        seq!['+'] + decimal(y as nat, 4)
    } else {
        seq!['-'] + decimal((-y) as nat, 4)
    }
}

/// `YYYY-MM-DD HHMMSS`.
pub open spec fn timestamp_text(t: LocalDateTime) -> Seq<char> {
    year_text(t.year as int) + seq!['-'] + decimal(t.month as nat, 2) + seq!['-']
        + decimal(t.day as nat, 2) + seq![' '] + decimal(t.hour as nat, 2)
        + decimal(t.minute as nat, 2) + decimal(t.second as nat, 2)
}

/// The time `after_epoch ? +(secs, nanos) : -(secs, nanos)` from the epoch,
/// as a `UnixTime` with nanoseconds below one second.
pub open spec fn unix_time_spec(after_epoch: bool, secs: nat, nanos: nat) -> (int, nat) {
    if after_epoch {
        (secs as int, nanos)
    } else if nanos == 0 {
        (-secs, 0)
    } else {
        (-secs - 1, (NANOS_PER_SEC - nanos) as nat)
    }
}

/// Converts a distance from the Unix epoch (before it when `after_epoch` is
/// false) into a `UnixTime`; `None` when the seconds do not fit in `i64`.
pub fn unix_time(after_epoch: bool, secs: u64, nanos: u32) -> (r: Option<UnixTime>)
    requires
        nanos < NANOS_PER_SEC,
    ensures
        r is Some <==> secs <= i64::MAX,
        r matches Some(t) ==> (t.secs as int, t.nanos as nat) == unix_time_spec(
            after_epoch,
            secs as nat,
            nanos as nat,
        ),
        r matches Some(t) ==> t.nanos < NANOS_PER_SEC,
{
    if secs > i64::MAX as u64 {
        None
    } else if after_epoch {
        Some(UnixTime { secs: secs as i64, nanos })
    } else if nanos == 0 {
        Some(UnixTime { secs: -(secs as i64), nanos: 0 })
    } else {
        Some(UnixTime { secs: -(secs as i64) - 1, nanos: NANOS_PER_SEC - nanos })
    }
}

/// Relies on chrono's `DateTime::<Utc>::from_timestamp` and
/// `with_timezone(&Local)`: `None` when chrono cannot represent the instant,
/// else the local calendar fields, each within chrono's documented range
/// (`month` 1..=12, `day` 1..=31, `hour` 0..=23, `minute` and `second` 0..=59).
#[verifier::external_body]
pub(crate) fn local_time_of(t: UnixTime) -> (r: Option<LocalDateTime>)
    ensures
        r matches Some(d) ==> d.wf(),
{
    match chrono::DateTime::from_timestamp(t.secs, t.nanos) {
        Some(utc) => {
            let l = utc.with_timezone(&chrono::Local);
            Some(LocalDateTime {
                year: chrono::Datelike::year(&l),
                month: chrono::Datelike::month(&l),
                day: chrono::Datelike::day(&l),
                hour: chrono::Timelike::hour(&l),
                minute: chrono::Timelike::minute(&l),
                second: chrono::Timelike::second(&l),
            })
        },
        None => None,
    }
}

/// Writes `t` as `YYYY-MM-DD HHMMSS`.
pub fn format_timestamp(t: &LocalDateTime) -> (r: String)
    requires
        t.wf(),
    ensures
        r@ == timestamp_text(*t),
{
    let mut out = String::new();
    let y = t.year;
    if 0 <= y && y <= 9999 {
        push_decimal(&mut out, y as u64, 4);
    } else if y > 9999 {
        out.append("+");
        proof { reveal_strlit("+"); }
        push_decimal(&mut out, y as u64, 4);
    } else {
        out.append("-");
        proof { reveal_strlit("-"); }
        let a: i64 = -(y as i64);
        push_decimal(&mut out, a as u64, 4);
    }
    assert(out@ == year_text(y as int));
    proof {
        reveal_strlit("-");
        reveal_strlit(" ");
    }
    out.append("-");
    push_decimal(&mut out, t.month as u64, 2);
    out.append("-");
    push_decimal(&mut out, t.day as u64, 2);
    out.append(" ");
    push_decimal(&mut out, t.hour as u64, 2);
    push_decimal(&mut out, t.minute as u64, 2);
    push_decimal(&mut out, t.second as u64, 2);
    assert(out@ =~= timestamp_text(*t));
    out
}

} // verus!
