use vstd::prelude::*;
use crate::ffi::time::vm_time_t;

verus! {

/// A calendar date and time of day.
#[derive(Clone, Copy, Debug, PartialEq, Eq, Structural)]
pub struct DateTime {
    pub year: i32,
    pub month: i32,
    pub day: i32,
    pub hour: i32,
    pub minute: i32,
    pub second: i32,
}

/// The date and time the platform's value stands for, field by field.
pub open spec fn spec_from_vm_time(t: vm_time_t) -> DateTime {
    DateTime { year: t.year, month: t.mon, day: t.day, hour: t.hour, minute: t.min, second: t.sec }
}

impl DateTime {
    /// The date and time of a platform time value.
    pub fn from_vm_time(t: vm_time_t) -> (res: DateTime)
        ensures
            res == spec_from_vm_time(t),
    {
        DateTime { year: t.year, month: t.mon, day: t.day, hour: t.hour, minute: t.min, second: t.sec }
    }

    /// The first second of the year 0, the value used when the clock cannot be read.
    pub fn default() -> (res: DateTime)
        ensures
            res == (DateTime { year: 0, month: 0, day: 0, hour: 0, minute: 0, second: 0 }),
    {
        DateTime { year: 0, month: 0, day: 0, hour: 0, minute: 0, second: 0 }
    }
}

impl From<vm_time_t> for DateTime {
    fn from(t: vm_time_t) -> (res: DateTime) {
        DateTime::from_vm_time(t)
    }
}

impl vstd::std_specs::convert::FromSpecImpl<vm_time_t> for DateTime {
    open spec fn obeys_from_spec() -> bool {
        true
    }

    open spec fn from_spec(t: vm_time_t) -> DateTime {
        spec_from_vm_time(t)
    }
}

/// The current date and time from the platform's answer: its status and the value it filled.
pub fn now(status: i32, t: vm_time_t) -> (res: Option<DateTime>)
    ensures
        status < 0 ==> res is None,
        status >= 0 ==> res == Some(spec_from_vm_time(t)),
{
    if status < 0 {
        None
    } else {
        Some(DateTime::from_vm_time(t))
    }
}

} // verus!
