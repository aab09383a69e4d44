use vstd::prelude::*;

use crate::error::UserNotificationsError;
use crate::float_bits::F64Bits;
use crate::text::{owned, same_text};
use std::time::SystemTime;

verus! {

/// Calendar fields that a calendar trigger matches; a field left `None`
/// matches any value.
#[derive(Debug, Clone, PartialEq, Eq, Default, Structural)]
pub struct DateComponents {
    /// The year.
    pub year: Option<i64>,
    /// The month.
    pub month: Option<i64>,
    /// The day.
    pub day: Option<i64>,
    /// The hour.
    pub hour: Option<i64>,
    /// The minute.
    pub minute: Option<i64>,
    /// The second.
    pub second: Option<i64>,
    /// The weekday.
    pub weekday: Option<i64>,
}

impl DateComponents {
    /// Date components with no field set.
    pub open spec fn spec_empty() -> Self {
        DateComponents {
            year: None,
            month: None,
            day: None,
            hour: None,
            minute: None,
            second: None,
            weekday: None,
        }
    }

    /// Creates date components with no field set.
    pub fn new() -> (r: Self)
        ensures
            r == Self::spec_empty(),
    {
        DateComponents {
            year: None,
            month: None,
            day: None,
            hour: None,
            minute: None,
            second: None,
            weekday: None,
        }
    }

    /// Sets the year.
    pub fn with_year(self, year: i64) -> (r: Self)
        ensures
            r == (DateComponents { year: Some(year), ..self }),
    {
        DateComponents { year: Some(year), ..self }
    }

    /// Sets the month.
    pub fn with_month(self, month: i64) -> (r: Self)
        ensures
            r == (DateComponents { month: Some(month), ..self }),
    {
        DateComponents { month: Some(month), ..self }
    }

    /// Sets the day.
    pub fn with_day(self, day: i64) -> (r: Self)
        ensures
            r == (DateComponents { day: Some(day), ..self }),
    {
        DateComponents { day: Some(day), ..self }
    }

    /// Sets the hour.
    pub fn with_hour(self, hour: i64) -> (r: Self)
        ensures
            r == (DateComponents { hour: Some(hour), ..self }),
    {
        DateComponents { hour: Some(hour), ..self }
    }

    /// Sets the minute.
    pub fn with_minute(self, minute: i64) -> (r: Self)
        ensures
            r == (DateComponents { minute: Some(minute), ..self }),
    {
        DateComponents { minute: Some(minute), ..self }
    }

    /// Sets the second.
    pub fn with_second(self, second: i64) -> (r: Self)
        ensures
            r == (DateComponents { second: Some(second), ..self }),
    {
        DateComponents { second: Some(second), ..self }
    }

    /// Sets the weekday.
    pub fn with_weekday(self, weekday: i64) -> (r: Self)
        ensures
            r == (DateComponents { weekday: Some(weekday), ..self }),
    {
        DateComponents { weekday: Some(weekday), ..self }
    }
}

/// Wraps `UNTimeIntervalNotificationTrigger`.
///
/// `time_interval` holds the interval in seconds as the IEEE-754 bit pattern
/// of an `f64` (`f64::to_bits`); `==` compares it as `f64` values do.
#[derive(Debug, Clone, PartialEq)]
pub struct TimeIntervalTrigger {
    /// The interval in seconds.
    pub time_interval: F64Bits,
    /// Whether the trigger repeats.
    pub repeats: bool,
    /// The next date on which the trigger fires, when the framework reports it.
    pub next_trigger_date: Option<SystemTime>,
}

impl TimeIntervalTrigger {
    /// Creates a time-interval trigger from the bit pattern of its interval.
    pub fn new(time_interval: u64, repeats: bool) -> (r: Self)
        ensures
            r == (TimeIntervalTrigger {
                time_interval: F64Bits(time_interval),
                repeats,
                next_trigger_date: None,
            }),
    {
        TimeIntervalTrigger { time_interval: F64Bits(time_interval), repeats, next_trigger_date: None }
    }
}

/// Wraps `UNCalendarNotificationTrigger`.
#[derive(Debug, Clone, PartialEq, Eq)]
pub struct CalendarTrigger {
    /// The date components the trigger matches.
    pub date_components: DateComponents,
    /// Whether the trigger repeats.
    pub repeats: bool,
    /// The next date on which the trigger fires, when the framework reports it.
    pub next_trigger_date: Option<SystemTime>,
}

impl CalendarTrigger {
    /// Creates a calendar trigger.
    pub fn new(date_components: DateComponents, repeats: bool) -> (r: Self)
        ensures
            r == (CalendarTrigger { date_components, repeats, next_trigger_date: None }),
    {
        CalendarTrigger { date_components, repeats, next_trigger_date: None }
    }
}

/// Wraps `UNNotificationTrigger` and its concrete subclasses.
#[derive(Debug, Clone, PartialEq)]
pub enum NotificationTrigger {
    /// A `UNTimeIntervalNotificationTrigger`.
    TimeInterval(TimeIntervalTrigger),
    /// A `UNCalendarNotificationTrigger`.
    Calendar(CalendarTrigger),
    /// A `UNPushNotificationTrigger`.
    Push,
    /// A trigger class that this crate does not model.
    Unknown {
        /// The Objective-C class name.
        class_name: String,
        /// Whether the trigger repeats.
        repeats: bool,
    },
}

/// The bit pattern of `60.0_f64`.
pub const SIXTY_SECONDS_BITS: u64 = 0x404E_0000_0000_0000u64;

/// The bit pattern of `f64::INFINITY`; positive finite values have smaller
/// bit patterns.
pub const POSITIVE_INFINITY_BITS: u64 = 0x7FF0_0000_0000_0000u64;

/// The sign bit of an `f64` bit pattern.
pub open spec fn f64_sign_bit(bits: u64) -> u64 {
    bits >> 63u64
}

/// The biased exponent field of an `f64` bit pattern.
pub open spec fn f64_exponent(bits: u64) -> u64 {
    (bits >> 52u64) & 0x7FFu64
}

/// The fraction field of an `f64` bit pattern.
pub open spec fn f64_fraction(bits: u64) -> u64 {
    bits & 0xF_FFFF_FFFF_FFFFu64
}

/// Whether an `f64` bit pattern stands for a finite value greater than zero:
/// the sign is clear, the exponent is not the all-ones exponent of infinities
/// and NaNs, and the value is not zero.
pub open spec fn f64_is_positive_finite(bits: u64) -> bool {
    &&& f64_sign_bit(bits) == 0
    &&& f64_exponent(bits) != 0x7FFu64
    &&& (f64_exponent(bits) != 0 || f64_fraction(bits) != 0)
}

/// Whether an interval is acceptable to the framework: finite and greater
/// than zero, and at least 60 seconds when the trigger repeats. For positive
/// finite values the order of bit patterns is the order of the values.
pub open spec fn spec_interval_is_valid(bits: u64, repeats: bool) -> bool {
    &&& f64_is_positive_finite(bits)
    &&& (repeats ==> bits >= SIXTY_SECONDS_BITS)
}

/// The message of the error for an invalid interval.
pub open spec fn spec_invalid_interval_message() -> Seq<char> {
    "time interval must be finite, greater than zero, and at least 60 seconds when repeating"@
}

impl NotificationTrigger {
    /// Creates a time-interval trigger from the bit pattern of its interval in
    /// seconds.
    pub fn time_interval(seconds: u64, repeats: bool) -> (r: Self)
        ensures
            r == NotificationTrigger::TimeInterval(
                TimeIntervalTrigger {
                    time_interval: F64Bits(seconds),
                    repeats,
                    next_trigger_date: None,
                },
            ),
    {
        Self::TimeInterval(TimeIntervalTrigger::new(seconds, repeats))
    }

    /// Creates a calendar trigger.
    pub fn calendar(date_components: DateComponents, repeats: bool) -> (r: Self)
        ensures
            r == NotificationTrigger::Calendar(
                CalendarTrigger { date_components, repeats, next_trigger_date: None },
            ),
    {
        Self::Calendar(CalendarTrigger::new(date_components, repeats))
    }

    /// Creates a push trigger.
    pub fn push() -> (r: Self)
        ensures
            r == NotificationTrigger::Push,
    {
        Self::Push
    }

    /// The trigger's repeat flag; a push trigger does not repeat.
    pub open spec fn spec_repeats(&self) -> bool {
        match self {
            NotificationTrigger::TimeInterval(t) => t.repeats,
            NotificationTrigger::Calendar(t) => t.repeats,
            NotificationTrigger::Push => false,
            NotificationTrigger::Unknown { repeats, .. } => *repeats,
        }
    }

    /// Whether the framework accepts this trigger: every trigger but a
    /// time-interval trigger with an invalid interval.
    pub open spec fn spec_is_valid(&self) -> bool {
        match self {
            NotificationTrigger::TimeInterval(t) => spec_interval_is_valid(
                t.time_interval.0,
                t.repeats,
            ),
            _ => true,
        }
    }

    /// Checks the trigger before it is handed to the framework, which would
    /// raise an Objective-C exception on an invalid interval.
    pub fn validate(&self) -> (r: Result<(), UserNotificationsError>)
        ensures
            self.spec_is_valid() ==> r == Ok::<(), UserNotificationsError>(()),
            !self.spec_is_valid() ==> (r matches Err(UserNotificationsError::InvalidArgument(m))
                && m@ == spec_invalid_interval_message()),
    {
        match self {
            NotificationTrigger::TimeInterval(t) => {
                if interval_is_valid(t.time_interval.0, t.repeats) {
                    Ok(())
                } else {
                    Err(
                        UserNotificationsError::InvalidArgument(
                            owned(
                                "time interval must be finite, greater than zero, and at least 60 seconds when repeating",
                            ),
                        ),
                    )
                }
            },
            _ => Ok(()),
        }
    }
}

/// Decides whether an interval, given as the bit pattern of an `f64`, is
/// acceptable for a trigger that repeats or not.
pub fn interval_is_valid(bits: u64, repeats: bool) -> (r: bool)
    ensures
        r == spec_interval_is_valid(bits, repeats),
{
    assert(f64_is_positive_finite(bits) <==> (0 < bits && bits < 0x7FF0_0000_0000_0000u64))
        by (bit_vector);
    0 < bits && bits < POSITIVE_INFINITY_BITS && (!repeats || bits >= SIXTY_SECONDS_BITS)
}

/// The trigger as the bridge exchanges it.
#[derive(Debug, Clone, PartialEq)]
pub struct NotificationTriggerPayload {
    /// `timeInterval`, `calendar`, `push` or another class kind.
    pub kind: String,
    /// Whether the trigger repeats.
    pub repeats: Option<bool>,
    /// The interval in seconds.
    pub time_interval: Option<F64Bits>,
    /// The date components of a calendar trigger.
    pub date_components: Option<DateComponents>,
    /// The next trigger date.
    pub next_trigger_date: Option<SystemTime>,
    /// The class name of a trigger this crate does not model.
    pub class_name: Option<String>,
}

/// Whether `p` is the payload that encodes trigger `t`.
pub open spec fn trigger_encodes_to(t: NotificationTrigger, p: NotificationTriggerPayload) -> bool {
    match t {
        NotificationTrigger::TimeInterval(trigger) => {
            &&& p.kind@ == "timeInterval"@
            &&& p.repeats == Some(trigger.repeats)
            &&& p.time_interval == Some(trigger.time_interval)
            &&& p.date_components is None
            &&& p.next_trigger_date == trigger.next_trigger_date
            &&& p.class_name is None
        },
        NotificationTrigger::Calendar(trigger) => {
            &&& p.kind@ == "calendar"@
            &&& p.repeats == Some(trigger.repeats)
            &&& p.time_interval is None
            &&& p.date_components == Some(trigger.date_components)
            &&& p.next_trigger_date == trigger.next_trigger_date
            &&& p.class_name is None
        },
        NotificationTrigger::Push => {
            &&& p.kind@ == "push"@
            &&& p.repeats == Some(false)
            &&& p.time_interval is None
            &&& p.date_components is None
            &&& p.next_trigger_date is None
            &&& p.class_name is None
        },
        NotificationTrigger::Unknown { class_name, repeats } => {
            &&& p.kind@ == "unknown"@
            &&& p.repeats == Some(repeats)
            &&& p.time_interval is None
            &&& p.date_components is None
            &&& p.next_trigger_date is None
            &&& p.class_name == Some(class_name)
        },
    }
}

/// The value of an optional flag, `false` when it is absent.
pub open spec fn flag_or_false(flag: Option<bool>) -> bool {
    match flag {
        Some(b) => b,
        None => false,
    }
}

/// Whether `t` is the trigger that payload `p` decodes to.
pub open spec fn trigger_decodes_to(p: NotificationTriggerPayload, t: NotificationTrigger) -> bool {
    if p.kind@ == "timeInterval"@ {
        t == NotificationTrigger::TimeInterval(
            TimeIntervalTrigger {
                time_interval: match p.time_interval {
                    Some(seconds) => seconds,
                    None => F64Bits(0),
                },
                repeats: flag_or_false(p.repeats),
                next_trigger_date: p.next_trigger_date,
            },
        )
    } else if p.kind@ == "calendar"@ {
        t == NotificationTrigger::Calendar(
            CalendarTrigger {
                date_components: match p.date_components {
                    Some(d) => d,
                    None => DateComponents::spec_empty(),
                },
                repeats: flag_or_false(p.repeats),
                next_trigger_date: p.next_trigger_date,
            },
        )
    } else if p.kind@ == "push"@ {
        t == NotificationTrigger::Push
    } else {
        &&& t matches NotificationTrigger::Unknown { class_name, repeats }
        &&& repeats == flag_or_false(p.repeats)
        &&& match p.class_name {
            Some(c) => class_name == c,
            None => class_name@ == "UNNotificationTrigger"@,
        }
    }
}

impl NotificationTriggerPayload {
    /// Encodes a trigger for the bridge.
    pub fn from_trigger(value: NotificationTrigger) -> (r: Self)
        ensures
            trigger_encodes_to(value, r),
            r.repeats == Some(value.spec_repeats()),
            value matches NotificationTrigger::TimeInterval(t) ==> (r.kind@ == "timeInterval"@
                && r.time_interval == Some(t.time_interval) && r.next_trigger_date
                == t.next_trigger_date),
            value matches NotificationTrigger::Calendar(t) ==> (r.kind@ == "calendar"@
                && r.date_components == Some(t.date_components) && r.next_trigger_date
                == t.next_trigger_date),
            value is Push ==> r.kind@ == "push"@,
            value matches NotificationTrigger::Unknown { class_name, .. } ==> (r.kind@ == "unknown"@
                && r.class_name == Some(class_name)),
    {
        match value {
            NotificationTrigger::TimeInterval(trigger) => NotificationTriggerPayload {
                kind: owned("timeInterval"),
                repeats: Some(trigger.repeats),
                time_interval: Some(trigger.time_interval),
                date_components: None,
                next_trigger_date: trigger.next_trigger_date,
                class_name: None,
            },
            NotificationTrigger::Calendar(trigger) => NotificationTriggerPayload {
                kind: owned("calendar"),
                repeats: Some(trigger.repeats),
                time_interval: None,
                date_components: Some(trigger.date_components),
                next_trigger_date: trigger.next_trigger_date,
                class_name: None,
            },
            NotificationTrigger::Push => NotificationTriggerPayload {
                kind: owned("push"),
                repeats: Some(false),
                time_interval: None,
                date_components: None,
                next_trigger_date: None,
                class_name: None,
            },
            NotificationTrigger::Unknown { class_name, repeats } => NotificationTriggerPayload {
                kind: owned("unknown"),
                repeats: Some(repeats),
                time_interval: None,
                date_components: None,
                next_trigger_date: None,
                class_name: Some(class_name),
            },
        }
    }

    /// Decodes the trigger that the bridge reported.
    pub fn into_trigger(self) -> (r: NotificationTrigger)
        ensures
            trigger_decodes_to(self, r),
            self.kind@ != "push"@ ==> (r.spec_repeats() <==> self.repeats == Some(true)),
            self.kind@ == "timeInterval"@ ==> (r matches NotificationTrigger::TimeInterval(t)
                && t.next_trigger_date == self.next_trigger_date && (self.time_interval matches Some(
                seconds) ==> t.time_interval == seconds)),
            self.kind@ == "calendar"@ ==> (r matches NotificationTrigger::Calendar(t)
                && t.next_trigger_date == self.next_trigger_date && (self.date_components matches Some(
                d) ==> t.date_components == d)),
            self.kind@ == "push"@ ==> r is Push,
    {
        proof {
            lemma_trigger_kinds_distinct();
        }
        let repeats = match self.repeats {
            Some(b) => b,
            None => false,
        };
        if same_text(self.kind.as_str(), "timeInterval") {
            let time_interval = match self.time_interval {
                Some(seconds) => seconds,
                None => F64Bits(0),
            };
            NotificationTrigger::TimeInterval(
                TimeIntervalTrigger {
                    time_interval,
                    repeats,
                    next_trigger_date: self.next_trigger_date,
                },
            )
        } else if same_text(self.kind.as_str(), "calendar") {
            let date_components = match self.date_components {
                Some(d) => d,
                None => DateComponents::new(),
            };
            NotificationTrigger::Calendar(
                CalendarTrigger { date_components, repeats, next_trigger_date: self.next_trigger_date },
            )
        } else if same_text(self.kind.as_str(), "push") {
            NotificationTrigger::Push
        } else {
            let class_name = match self.class_name {
                Some(c) => c,
                None => owned("UNNotificationTrigger"),
            };
            NotificationTrigger::Unknown { class_name, repeats }
        }
    }
}

/// The kind names of the trigger payload are distinct.
pub proof fn lemma_trigger_kinds_distinct()
    ensures
        "timeInterval"@ != "calendar"@,
        "timeInterval"@ != "push"@,
        "timeInterval"@ != "unknown"@,
        "calendar"@ != "push"@,
        "calendar"@ != "unknown"@,
        "push"@ != "unknown"@,
{
    reveal_strlit("timeInterval");
    reveal_strlit("calendar");
    reveal_strlit("push");
    reveal_strlit("unknown");
    assert("timeInterval"@.len() != "calendar"@.len());
    assert("timeInterval"@.len() != "push"@.len());
    assert("timeInterval"@.len() != "unknown"@.len());
    assert("calendar"@.len() != "push"@.len());
    assert("calendar"@.len() != "unknown"@.len());
    assert("push"@.len() != "unknown"@.len());
}

/// Decoding the payload of a trigger gives that trigger back.
pub proof fn lemma_trigger_round_trip(
    t: NotificationTrigger,
    p: NotificationTriggerPayload,
    back: NotificationTrigger,
)
    requires
        trigger_encodes_to(t, p),
        trigger_decodes_to(p, back),
    ensures
        back == t,
{
    lemma_trigger_kinds_distinct();
}

/// The payload of a trigger carries the trigger's own repeat flag, and a
/// time-interval trigger's payload carries its own interval and next date.
pub proof fn lemma_trigger_encoding_keeps_fields(t: NotificationTrigger, p: NotificationTriggerPayload)
    requires
        trigger_encodes_to(t, p),
    ensures
        p.repeats == Some(t.spec_repeats()),
        t matches NotificationTrigger::TimeInterval(ti) ==> (p.time_interval == Some(ti.time_interval)
            && p.next_trigger_date == ti.next_trigger_date),
        t matches NotificationTrigger::Calendar(c) ==> (p.date_components == Some(c.date_components)
            && p.next_trigger_date == c.next_trigger_date),
{
}

/// Decoding a payload of any kind but `push` gives a trigger that repeats
/// exactly when the payload's flag is `Some(true)`; a `timeInterval` payload
/// decodes to a time-interval trigger with the payload's interval.
pub proof fn lemma_trigger_decoding_keeps_fields(p: NotificationTriggerPayload, t: NotificationTrigger)
    requires
        trigger_decodes_to(p, t),
    ensures
        p.kind@ != "push"@ ==> (t.spec_repeats() <==> p.repeats == Some(true)),
        p.kind@ == "timeInterval"@ ==> (t matches NotificationTrigger::TimeInterval(ti)
            && ti.next_trigger_date == p.next_trigger_date && (p.time_interval matches Some(seconds)
            ==> ti.time_interval == seconds)),
{
}

} // verus!
