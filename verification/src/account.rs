//! The records a run produces: a calendar date as the clock reports it, and
//! one created account.

use vstd::prelude::*;

verus! {

/// A calendar date.
#[derive(Clone, Copy, PartialEq, Eq, Structural, Debug)]
pub struct Date {
    pub year: u16,
    pub month: u8,
    pub day: u8,
}

impl Date {
    /// A date the dated output-file name can carry: a four-digit year and
    /// the calendar ranges for month and day.
    pub open spec fn wf(&self) -> bool {
        &&& 1000 <= self.year <= 9999
        &&& 1 <= self.month <= 12
        &&& 1 <= self.day <= 31
    }

    /// Builds a well-formed date, or nothing when a part is out of range.
    pub fn new(year: u16, month: u8, day: u8) -> (d: Option<Date>)
        ensures
            d is Some <==> (1000 <= year <= 9999 && 1 <= month <= 12 && 1 <= day <= 31),
            d matches Some(v) ==> v.wf() && v == (Date { year, month, day }),
    {
        if 1000 <= year && year <= 9999 && 1 <= month && month <= 12 && 1 <= day && day <= 31 {
            Some(Date { year, month, day })
        } else {
            None
        }
    }

    /// Builds a date from a clock's wide year, month and day numbers: a
    /// date exactly when every part lies in the ranges a dated file name
    /// can carry.
    pub fn from_ymd(y: i32, m: u32, d: u32) -> (r: Option<Date>)
        ensures
            r is Some <==> (1000 <= y <= 9999 && 1 <= m <= 12 && 1 <= d <= 31),
            r matches Some(v) ==> v.wf() && v.year == y && v.month == m && v.day == d,
    {
        if 1000 <= y && y <= 9999 && 1 <= m && m <= 12 && 1 <= d && d <= 31 {
            Some(Date { year: y as u16, month: m as u8, day: d as u8 })
        } else {
            None
        }
    }
}

/// One successfully created account: the submitted email and password, and
/// the date the attempt succeeded on.
#[derive(Clone)]
pub struct Account {
    pub email: String,
    pub password: String,
    pub created: Date,
}

impl Account {
    /// Assembles the record for one successful attempt: exactly the
    /// submitted email and password, stamped with the given date.
    pub fn new(email: String, password: String, created: Date) -> (a: Account)
        ensures
            a.email == email,
            a.password == password,
            a.created == created,
    {
        Account { email, password, created }
    }
}

} // verus!
