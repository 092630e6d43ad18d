//! Calendar dates and timestamps, held as plain fields and encoded in the
//! protocol's quoted `DD-Mon-YYYY` and `DD-Mon-YYYY HH:MM:SS +HHMM` forms
//! with English month abbreviations.

use vstd::prelude::*;

use crate::encode::{EncodeContext, Encoder};
use crate::kw::{kb, Keyword, KwA, KwB, KwC, KwD, KwE, KwF};
use crate::numfmt::{four_digits, two_digits};

verus! {

broadcast use {
    crate::seqext::lemma_concat_assoc,
    crate::seqext::lemma_concat_empty_right,
    crate::seqext::lemma_concat_empty_left,
    crate::frag_rules::lemma_frags_extended_trans,
    crate::frag_rules::lemma_frags_extended_refl,
};

/// Why a date or timestamp was rejected.
#[derive(Clone, Copy, Debug, PartialEq, Eq)]
pub enum DateTimeError {
    /// The fields do not name a calendar date, or the year has more than
    /// four digits.
    BadDate,
    /// An hour, minute, second or offset field is out of range.
    BadTime,
}

/// Whether `year` is a leap year of the Gregorian calendar.
pub open spec fn is_leap_year(year: nat) -> bool {
    (year % 4 == 0 && year % 100 != 0) || year % 400 == 0
}

/// The number of days in the month, 0 for an invalid month number.
pub open spec fn days_in_month(year: nat, month: nat) -> nat {
    if month == 1 || month == 3 || month == 5 || month == 7 || month == 8 || month == 10 || month
        == 12 {
        31
    } else if month == 4 || month == 6 || month == 9 || month == 11 {
        30
    } else if month == 2 {
        if is_leap_year(year) {
            29
        } else {
            28
        }
    } else {
        0
    }
}

/// A valid date: a real calendar day with a four-digit year.
pub open spec fn date_wf(year: nat, month: nat, day: nat) -> bool {
    year <= 9999 && 1 <= month <= 12 && 1 <= day <= days_in_month(year, month)
}

/// The English three-letter abbreviation of the month.
pub closed spec fn month_bytes(month: nat) -> Seq<u8> {
    if month == 1 {
        kb(Keyword::KwF(KwF::Jan))
    } else if month == 2 {
        kb(Keyword::KwF(KwF::Feb))
    } else if month == 3 {
        kb(Keyword::KwF(KwF::Mar))
    } else if month == 4 {
        kb(Keyword::KwF(KwF::Apr))
    } else if month == 5 {
        kb(Keyword::KwF(KwF::May))
    } else if month == 6 {
        kb(Keyword::KwF(KwF::Jun))
    } else if month == 7 {
        kb(Keyword::KwF(KwF::Jul))
    } else if month == 8 {
        kb(Keyword::KwF(KwF::Aug))
    } else if month == 9 {
        kb(Keyword::KwF(KwF::Sep))
    } else if month == 10 {
        kb(Keyword::KwF(KwF::Oct))
    } else if month == 11 {
        kb(Keyword::KwF(KwF::Nov))
    } else {
        kb(Keyword::KwF(KwF::Dec))
    }
}

/// `DD-Mon-YYYY`, without the surrounding quotes.
pub closed spec fn date_text(year: nat, month: nat, day: nat) -> Seq<u8> {
    (((two_digits(day) + kb(Keyword::KwA(KwA::Dash))) + month_bytes(month)) + kb(Keyword::KwA(KwA::Dash)))
        + four_digits(year)
}

/// A calendar date.
#[derive(Clone, Copy, Debug, PartialEq, Eq)]
pub struct NaiveDate {
    year: u16,
    month: u8,
    day: u8,
}

impl NaiveDate {
    /// Every constructible date is a real calendar day.
    #[verifier::type_invariant]
    spec fn type_inv(self) -> bool {
        self.wf()
    }

    pub closed spec fn spec_year(&self) -> nat {
        self.year as nat
    }

    pub closed spec fn spec_month(&self) -> nat {
        self.month as nat
    }

    pub closed spec fn spec_day(&self) -> nat {
        self.day as nat
    }

    /// The date the value stands for is a real calendar day.
    pub open spec fn wf(&self) -> bool {
        date_wf(self.spec_year(), self.spec_month(), self.spec_day())
    }

    pub fn new(year: u16, month: u8, day: u8) -> (r: Result<NaiveDate, DateTimeError>)
        ensures
            r is Ok <==> date_wf(year as nat, month as nat, day as nat),
            r matches Ok(d) ==> d.spec_year() == year && d.spec_month() == month && d.spec_day()
                == day && d.wf(),
    {
        let leap: bool = (year % 4 == 0 && year % 100 != 0) || year % 400 == 0;
        let dim: u8 = if month == 1 || month == 3 || month == 5 || month == 7 || month == 8
            || month == 10 || month == 12 {
            31
        } else if month == 4 || month == 6 || month == 9 || month == 11 {
            30
        } else if month == 2 {
            if leap {
                29
            } else {
                28
            }
        } else {
            0
        };
        if year <= 9999 && 1 <= month && month <= 12 && 1 <= day && day <= dim {
            Ok(NaiveDate { year, month, day })
        } else {
            Err(DateTimeError::BadDate)
        }
    }

    pub fn year(&self) -> (r: u16)
        ensures
            r as nat == self.spec_year(),
    {
        self.year
    }

    pub fn month(&self) -> (r: u8)
        ensures
            r as nat == self.spec_month(),
    {
        self.month
    }

    pub fn day(&self) -> (r: u8)
        ensures
            r as nat == self.spec_day(),
    {
        self.day
    }

    fn write_date_text(&self, ctx: &mut EncodeContext)
        ensures
            final(ctx).wire() == old(ctx).wire() + date_text(
                self.spec_year(),
                self.spec_month(),
                self.spec_day(),
            ),
            final(ctx).items@ == old(ctx).items@,
    {
        proof {
            use_type_invariant(&*self);
        }
        ctx.write_2digits(self.day);
        ctx.write_kw(Keyword::KwA(KwA::Dash));
        match self.month {
            1u8 => ctx.write_kw(Keyword::KwF(KwF::Jan)),
            2u8 => ctx.write_kw(Keyword::KwF(KwF::Feb)),
            3u8 => ctx.write_kw(Keyword::KwF(KwF::Mar)),
            4u8 => ctx.write_kw(Keyword::KwF(KwF::Apr)),
            5u8 => ctx.write_kw(Keyword::KwF(KwF::May)),
            6u8 => ctx.write_kw(Keyword::KwF(KwF::Jun)),
            7u8 => ctx.write_kw(Keyword::KwF(KwF::Jul)),
            8u8 => ctx.write_kw(Keyword::KwF(KwF::Aug)),
            9u8 => ctx.write_kw(Keyword::KwF(KwF::Sep)),
            10u8 => ctx.write_kw(Keyword::KwF(KwF::Oct)),
            11u8 => ctx.write_kw(Keyword::KwF(KwF::Nov)),
            _ => ctx.write_kw(Keyword::KwF(KwF::Dec)),
        }
        ctx.write_kw(Keyword::KwA(KwA::Dash));
        ctx.write_4digits(self.year);
    }
}

impl Encoder for NaiveDate {
    closed spec fn wire(&self) -> Seq<u8> {
        (kb(Keyword::KwA(KwA::DQuote)) + date_text(self.spec_year(), self.spec_month(), self.spec_day()))
            + kb(Keyword::KwA(KwA::DQuote))
    }

    fn encode_ctx(&self, ctx: &mut EncodeContext) {
        ctx.write_kw(Keyword::KwA(KwA::DQuote));
        self.write_date_text(ctx);
        ctx.write_kw(Keyword::KwA(KwA::DQuote));
    }
}

/// A valid timestamp beyond its date: time of day and a numeric zone
/// offset of at most 24 hours on either side.
pub open spec fn time_wf(
    hour: nat,
    minute: nat,
    second: nat,
    offset_hh: nat,
    offset_mm: nat,
) -> bool {
    hour < 24 && minute < 60 && second < 60 && offset_hh < 100 && offset_mm < 60
}

/// `HH:MM:SS +HHMM`, without the surrounding quotes.
pub closed spec fn time_text(
    hour: nat,
    minute: nat,
    second: nat,
    west: bool,
    offset_hh: nat,
    offset_mm: nat,
) -> Seq<u8> {
    (((((((two_digits(hour) + kb(Keyword::KwA(KwA::Colon))) + two_digits(minute)) + kb(Keyword::KwA(KwA::Colon)))
        + two_digits(second)) + kb(Keyword::KwA(KwA::Sp))) + (if west {
        kb(Keyword::KwA(KwA::Dash))
    } else {
        kb(Keyword::KwA(KwA::Plus))
    })) + two_digits(offset_hh)) + two_digits(offset_mm)
}

/// A timestamp: a date, a time of day, and a fixed zone offset.
#[derive(Clone, Copy, Debug, PartialEq, Eq)]
pub struct DateTime {
    date: NaiveDate,
    hour: u8,
    minute: u8,
    second: u8,
    /// Offset west of UTC (a `-` sign) when true.
    west: bool,
    offset_hh: u8,
    offset_mm: u8,
}

impl DateTime {
    /// Every constructible timestamp has all fields in range.
    #[verifier::type_invariant]
    spec fn type_inv(self) -> bool {
        self.wf()
    }

    pub closed spec fn spec_date(&self) -> NaiveDate {
        self.date
    }

    pub closed spec fn spec_hour(&self) -> nat {
        self.hour as nat
    }

    pub closed spec fn spec_minute(&self) -> nat {
        self.minute as nat
    }

    pub closed spec fn spec_second(&self) -> nat {
        self.second as nat
    }

    pub closed spec fn spec_west(&self) -> bool {
        self.west
    }

    pub closed spec fn spec_offset_hh(&self) -> nat {
        self.offset_hh as nat
    }

    pub closed spec fn spec_offset_mm(&self) -> nat {
        self.offset_mm as nat
    }

    /// Every field in range and the date a real calendar day.
    pub open spec fn wf(&self) -> bool {
        self.spec_date().wf() && time_wf(
            self.spec_hour(),
            self.spec_minute(),
            self.spec_second(),
            self.spec_offset_hh(),
            self.spec_offset_mm(),
        )
    }

    pub fn new(
        date: NaiveDate,
        hour: u8,
        minute: u8,
        second: u8,
        west: bool,
        offset_hh: u8,
        offset_mm: u8,
    ) -> (r: Result<DateTime, DateTimeError>)
        ensures
            r is Ok <==> time_wf(
                hour as nat,
                minute as nat,
                second as nat,
                offset_hh as nat,
                offset_mm as nat,
            ),
            r matches Ok(d) ==> d.wf() && d.spec_date() == date && d.spec_hour() == hour
                && d.spec_minute() == minute && d.spec_second() == second && d.spec_west() == west
                && d.spec_offset_hh() == offset_hh && d.spec_offset_mm() == offset_mm,
    {
        proof {
            use_type_invariant(&date);
        }
        if hour < 24 && minute < 60 && second < 60 && offset_hh < 100 && offset_mm < 60 {
            Ok(DateTime { date, hour, minute, second, west, offset_hh, offset_mm })
        } else {
            Err(DateTimeError::BadTime)
        }
    }

    pub fn date(&self) -> (r: NaiveDate)
        ensures
            r == self.spec_date(),
    {
        self.date
    }
}

impl Encoder for DateTime {
    closed spec fn wire(&self) -> Seq<u8> {
        (((kb(Keyword::KwA(KwA::DQuote)) + date_text(
            self.spec_date().spec_year(),
            self.spec_date().spec_month(),
            self.spec_date().spec_day(),
        )) + kb(Keyword::KwA(KwA::Sp))) + time_text(
            self.spec_hour(),
            self.spec_minute(),
            self.spec_second(),
            self.spec_west(),
            self.spec_offset_hh(),
            self.spec_offset_mm(),
        )) + kb(Keyword::KwA(KwA::DQuote))
    }

    fn encode_ctx(&self, ctx: &mut EncodeContext) {
        proof {
            use_type_invariant(&*self);
        }
        ctx.write_kw(Keyword::KwA(KwA::DQuote));
        self.date.write_date_text(ctx);
        ctx.write_kw(Keyword::KwA(KwA::Sp));
        ctx.write_2digits(self.hour);
        ctx.write_kw(Keyword::KwA(KwA::Colon));
        ctx.write_2digits(self.minute);
        ctx.write_kw(Keyword::KwA(KwA::Colon));
        ctx.write_2digits(self.second);
        ctx.write_kw(Keyword::KwA(KwA::Sp));
        if self.west {
            ctx.write_kw(Keyword::KwA(KwA::Dash));
        } else {
            ctx.write_kw(Keyword::KwA(KwA::Plus));
        }
        ctx.write_2digits(self.offset_hh);
        ctx.write_2digits(self.offset_mm);
        ctx.write_kw(Keyword::KwA(KwA::DQuote));
    }
}

} // verus!
