//! Session durations: a closed set of named minute buckets.

use vstd::prelude::*;
use vstd::string::StringExecFns;

verus! {

/// A conversion to a whole number of minutes.
pub trait ToMinutes {
    /// The minute count this value stands for.
    spec fn spec_minutes(&self) -> u32;

    /// Returns the minute count this value stands for.
    fn to_minutes(&self) -> (r: u32)
        ensures
            r == self.spec_minutes(),
    ;
}

/// Represents common durations in minutes.
#[derive(Debug, Clone, Copy, PartialEq, Eq, Structural)]
pub enum Duration {
    FiveMinutes,
    TenMinutes,
    FifteenMinutes,
    TwentyMinutes,
    ThirtyMinutes,
    ThirtyFiveMinutes,
    FortyMinutes,
    FiftyMinutes,
    SixtyMinutes,
}

impl ToMinutes for Duration {
    open spec fn spec_minutes(&self) -> u32 {
        match self {
            Duration::FiveMinutes => 5,
            Duration::TenMinutes => 10,
            Duration::FifteenMinutes => 15,
            Duration::TwentyMinutes => 20,
            Duration::ThirtyMinutes => 30,
            Duration::ThirtyFiveMinutes => 35,
            Duration::FortyMinutes => 40,
            Duration::FiftyMinutes => 50,
            Duration::SixtyMinutes => 60,
        }
    }

    fn to_minutes(&self) -> (r: u32) {
        match self {
            Duration::FiveMinutes => 5,
            Duration::TenMinutes => 10,
            Duration::FifteenMinutes => 15,
            Duration::TwentyMinutes => 20,
            Duration::ThirtyMinutes => 30,
            Duration::ThirtyFiveMinutes => 35,
            Duration::FortyMinutes => 40,
            Duration::FiftyMinutes => 50,
            Duration::SixtyMinutes => 60,
        }
    }
}

/// The human-readable text for a duration.
pub open spec fn spec_duration_label(d: Duration) -> Seq<char> {
    match d {
        Duration::FiveMinutes => "5 min"@,
        Duration::TenMinutes => "10 min"@,
        Duration::FifteenMinutes => "15 min"@,
        Duration::TwentyMinutes => "20 min"@,
        Duration::ThirtyMinutes => "30 min"@,
        Duration::ThirtyFiveMinutes => "35 min"@,
        Duration::FortyMinutes => "40 min"@,
        Duration::FiftyMinutes => "50 min"@,
        Duration::SixtyMinutes => "60 min"@,
    }
}

impl Duration {
    /// Returns the human-readable text for the duration.
    pub fn label(&self) -> (r: String)
        ensures
            r@ == spec_duration_label(*self),
    {
        match self {
            Duration::FiveMinutes => String::from_str("5 min"),
            Duration::TenMinutes => String::from_str("10 min"),
            Duration::FifteenMinutes => String::from_str("15 min"),
            Duration::TwentyMinutes => String::from_str("20 min"),
            Duration::ThirtyMinutes => String::from_str("30 min"),
            Duration::ThirtyFiveMinutes => String::from_str("35 min"),
            Duration::FortyMinutes => String::from_str("40 min"),
            Duration::FiftyMinutes => String::from_str("50 min"),
            Duration::SixtyMinutes => String::from_str("60 min"),
        }
    }
}

/// The durations offered to the user, in the order they are presented.
pub open spec fn spec_duration_list() -> Seq<Duration> {
    seq![
        Duration::FiveMinutes,
        Duration::TenMinutes,
        Duration::FifteenMinutes,
        Duration::TwentyMinutes,
        Duration::ThirtyMinutes,
        Duration::ThirtyFiveMinutes,
        Duration::FortyMinutes,
        Duration::FiftyMinutes,
        Duration::SixtyMinutes,
    ]
}

/// Returns the list of all supported durations, in presentation order.
pub fn duration_list() -> (r: Vec<Duration>)
    ensures
        r@ == spec_duration_list(),
{
    let mut v: Vec<Duration> = Vec::new();
    v.push(Duration::FiveMinutes);
    v.push(Duration::TenMinutes);
    v.push(Duration::FifteenMinutes);
    v.push(Duration::TwentyMinutes);
    v.push(Duration::ThirtyMinutes);
    v.push(Duration::ThirtyFiveMinutes);
    v.push(Duration::FortyMinutes);
    v.push(Duration::FiftyMinutes);
    v.push(Duration::SixtyMinutes);
    proof {
        assert(v@ =~= spec_duration_list());
    }
    v
}

} // verus!
