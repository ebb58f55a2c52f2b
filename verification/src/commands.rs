//! The date arguments that the command-line entry points derive from the
//! current UTC date, and the download frequency.

use vstd::prelude::*;

use crate::date::{format_plain_ym, format_ymd, plain_ym_text, prev_day, ymd_text, Date};

verus! {

/// Granularity of a Binance archive: one file per day or per month.
#[derive(Clone, Copy, Debug, PartialEq, Eq, Structural)]
pub enum Frequency {
    Daily,
    Monthly,
}

/// The name of a frequency, as it appears in archive URLs.
pub open spec fn frequency_text(f: Frequency) -> Seq<char> {
    match f {
        Frequency::Daily => "daily"@,
        Frequency::Monthly => "monthly"@,
    }
}

impl Frequency {
    /// `"daily"` or `"monthly"`.
    pub fn to_string(&self) -> (r: String)
        ensures
            r@ == frequency_text(*self),
    {
        match self {
            Frequency::Daily => String::from_str("daily"),
            Frequency::Monthly => String::from_str("monthly"),
        }
    }
}

/// Yesterday's date, `%Y-%m-%d`, given today's UTC date.
pub fn yesterday_utc(today: &Date) -> (r: String)
    requires
        today.wf(),
        !today.is_first(),
    ensures
        r@ == ymd_text(prev_day(*today)),
{
    let yesterday = today.pred();
    format_ymd(&yesterday)
}

/// The previous month, `{year}-{month:02}`, given today's UTC date: December of
/// the previous year in January, otherwise the previous month of this year.
pub fn previous_month_utc(today: &Date) -> (r: String)
    requires
        today.wf(),
    ensures
        today.month == 1 ==> r@ == plain_ym_text(today.year - 1, 12),
        today.month != 1 ==> r@ == plain_ym_text(today.year as int, today.month - 1),
{
    if today.month == 1 {
        format_plain_ym(today.year - 1, 12)
    } else {
        format_plain_ym(today.year, today.month - 1)
    }
}

} // verus!
