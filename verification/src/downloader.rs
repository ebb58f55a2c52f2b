//! Planning of the downloads: archive URLs and output paths, the jobs of a
//! single-date download and of a backfill over a date range, the daily files
//! that a monthly file replaces, and the error that a batch reports.

use vstd::prelude::*;

use crate::commands::{frequency_text, Frequency};
use crate::config::AppConfig;
use crate::date::{
    days_in_month, format_ym, format_ymd, month_index, month_length, next_month, parse_ymd,
    parsed_calendar_date, ym_text, ymd_text, Date, MAX_YEAR,
};
use crate::text::{before_last_slash, ends_with, same_text, starts_with, text_before_last_slash};

verus! {

/// Address of a Binance futures (USDⓈ-M) kline archive.
pub open spec fn kline_url(
    frequency: Seq<char>,
    symbol: Seq<char>,
    interval: Seq<char>,
    date: Seq<char>,
) -> Seq<char> {
    "https://data.binance.vision/data/futures/um/"@ + frequency + "/klines/"@ + symbol + "/"@
        + interval + "/"@ + symbol + "-"@ + interval + "-"@ + date + ".zip"@
}

/// Path of the IPC file of one archive.
pub open spec fn output_file(
    output_dir: Seq<char>,
    interval: Seq<char>,
    symbol: Seq<char>,
    date: Seq<char>,
) -> Seq<char> {
    output_dir + "/"@ + interval + "/"@ + symbol + "/"@ + symbol + "-"@ + interval + "-"@ + date
        + ".ipc"@
}

/// At most this many archives of a backfill are downloaded at once.
pub const MAX_CONCURRENT_DOWNLOADS: usize = 16;

/// After a monthly archive is saved, the daily files of that month are
/// removed.
#[derive(Debug)]
pub struct DailyCleanup {
    pub interval: String,
    pub month: String,
}

/// One archive to fetch and where to store it.
#[derive(Debug)]
pub struct DownloadJob {
    pub symbol: String,
    pub url: String,
    /// The directory of `output_path`: the text before its last `/`.
    pub dir: String,
    pub output_path: String,
    /// Present for monthly archives only.
    pub cleanup: Option<DailyCleanup>,
}

/// A job as text: symbol, URL, directory, output path, and the (interval,
/// month) of the daily files to remove afterwards.
pub type JobView = (Seq<char>, Seq<char>, Seq<char>, Seq<char>, Option<(Seq<char>, Seq<char>)>);

impl View for DownloadJob {
    type V = JobView;

    open spec fn view(&self) -> JobView {
        (
            self.symbol@,
            self.url@,
            self.dir@,
            self.output_path@,
            match self.cleanup {
                Some(c) => Some((c.interval@, c.month@)),
                None => None,
            },
        )
    }
}

/// The job of one symbol and one date; monthly archives (frequency text
/// `monthly`) remove the daily files of their month.
pub open spec fn job_spec(
    output_dir: Seq<char>,
    frequency: Seq<char>,
    interval: Seq<char>,
    symbol: Seq<char>,
    date: Seq<char>,
) -> JobView {
    (
        symbol,
        kline_url(frequency, symbol, interval, date),
        before_last_slash(output_file(output_dir, interval, symbol, date)),
        output_file(output_dir, interval, symbol, date),
        if frequency == "monthly"@ {
            Some((interval, date))
        } else {
            None
        },
    )
}

/// The job of one symbol and one date.
pub fn make_job(output_dir: &str, frequency: &str, interval: &str, symbol: &str, date: &str) -> (r:
    DownloadJob)
    ensures
        r@ == job_spec(output_dir@, frequency@, interval@, symbol@, date@),
{
    let mut url = String::from_str("https://data.binance.vision/data/futures/um/");
    url.append(frequency);
    url.append("/klines/");
    url.append(symbol);
    url.append("/");
    url.append(interval);
    url.append("/");
    url.append(symbol);
    url.append("-");
    url.append(interval);
    url.append("-");
    url.append(date);
    url.append(".zip");
    assert(url@ =~= kline_url(frequency@, symbol@, interval@, date@));

    let mut path = String::from_str(output_dir);
    path.append("/");
    path.append(interval);
    path.append("/");
    path.append(symbol);
    path.append("/");
    path.append(symbol);
    path.append("-");
    path.append(interval);
    path.append("-");
    path.append(date);
    path.append(".ipc");
    assert(path@ =~= output_file(output_dir@, interval@, symbol@, date@));
    let dir = text_before_last_slash(path.as_str());

    let cleanup = if same_text(frequency, "monthly") {
        Some(DailyCleanup { interval: String::from_str(interval), month: String::from_str(date) })
    } else {
        None
    };
    DownloadJob { symbol: String::from_str(symbol), url, dir, output_path: path, cleanup }
}

/// The jobs of a single-date download: one per configured symbol, in the
/// order of the configuration.
pub fn dump_jobs(config: &AppConfig, frequency: &str, interval: &str, date: &str) -> (r: Vec<
    DownloadJob,
>)
    ensures
        r.len() == config.symbols.len(),
        forall|i: int|
            0 <= i < r.len() ==> #[trigger] r@[i]@ == job_spec(
                config.output_dir@,
                frequency@,
                interval@,
                config.symbols@[i]@,
                date@,
            ),
{
    let mut jobs: Vec<DownloadJob> = Vec::new();
    let n = config.symbols.len();
    let mut i: usize = 0;
    while i < n
        invariant
            n == config.symbols.len(),
            i <= n,
            jobs.len() == i,
            forall|k: int|
                0 <= k < i ==> #[trigger] jobs@[k]@ == job_spec(
                    config.output_dir@,
                    frequency@,
                    interval@,
                    config.symbols@[k]@,
                    date@,
                ),
        decreases n - i,
    {
        let job = make_job(
            config.output_dir.as_str(),
            frequency,
            interval,
            config.symbols[i].as_str(),
            date,
        );
        jobs.push(job);
        i = i + 1;
    }
    jobs
}

/// One archive of a backfill: its frequency and its date text.
#[derive(Debug)]
pub struct DownloadTask {
    pub frequency: Frequency,
    pub date: String,
}

/// Tasks as (frequency, date text).
pub open spec fn tasks_view(v: Seq<DownloadTask>) -> Seq<(Frequency, Seq<char>)> {
    v.map_values(|t: DownloadTask| (t.frequency, t.date@))
}

/// The tasks of month `m` of year `y` for a backfill ending on `end`: the
/// month that holds `end` is fetched day by day, from the 1st to `end`, when
/// `end` is not its last day; any other month is one monthly archive.
pub open spec fn month_tasks(y: int, m: int, end: Date) -> Seq<(Frequency, Seq<char>)> {
    if y == end.year && m == end.month && end.day < days_in_month(y, m) {
        Seq::new(
            end.day as nat,
            |i: int|
                (
                    Frequency::Daily,
                    ymd_text(Date { year: y as i32, month: m as u32, day: (i + 1) as u32 }),
                ),
        )
    } else {
        seq![(Frequency::Monthly, ym_text(y, m))]
    }
}

/// The tasks of `count` consecutive months starting with month `m` of year
/// `y`.
pub open spec fn months_tasks(y: int, m: int, count: nat, end: Date) -> Seq<
    (Frequency, Seq<char>),
>
    decreases count,
{
    if count == 0 {
        seq![]
    } else {
        month_tasks(y, m, end) + months_tasks(
            next_month(y, m).0,
            next_month(y, m).1,
            (count - 1) as nat,
            end,
        )
    }
}

/// Number of months from the month of `start` to the month of `end`, both
/// included (zero when `end`'s month comes first).
pub open spec fn months_spanned(start: Date, end: Date) -> nat {
    let first = month_index(start.year as int, start.month as int);
    let last = month_index(end.year as int, end.month as int);
    if first <= last {
        (last - first + 1) as nat
    } else {
        0
    }
}

/// The tasks of a backfill from `start` to `end`: every month from the month
/// of `start` to the month of `end`, in order.
pub open spec fn backfill_tasks(start: Date, end: Date) -> Seq<(Frequency, Seq<char>)> {
    months_tasks(start.year as int, start.month as int, months_spanned(start, end), end)
}

/// The tasks still to come when the backfill stands at month `m` of year `y`.
pub open spec fn remaining_tasks(y: int, m: int, end: Date) -> Seq<(Frequency, Seq<char>)> {
    let last = month_index(end.year as int, end.month as int);
    if month_index(y, m) <= last {
        months_tasks(y, m, (last - month_index(y, m) + 1) as nat, end)
    } else {
        seq![]
    }
}

/// The month `k` months after month `m` of year `y`, as (year, month).
pub open spec fn month_after(y: int, m: int, k: int) -> (int, int) {
    let i = month_index(y, m) + k;
    (i / 12, i % 12 + 1)
}

/// Whether a range ending on `end` ends before the last day of its month.
pub open spec fn ends_mid_month(end: Date) -> bool {
    end.day < days_in_month(end.year as int, end.month as int)
}

/// The backfill tasks written out: one monthly task for each month from the
/// month of `start` on, every month but a partial last one; then, when the
/// range ends before the last day of its month, one daily task for each day
/// of that month from the 1st to `end`.
pub open spec fn backfill_shape(start: Date, end: Date) -> Seq<(Frequency, Seq<char>)> {
    let n = months_spanned(start, end);
    let partial = n > 0 && ends_mid_month(end);
    let monthly_count: nat = if partial {
        (n - 1) as nat
    } else {
        n
    };
    Seq::new(
        monthly_count,
        |k: int|
            (
                Frequency::Monthly,
                ym_text(
                    month_after(start.year as int, start.month as int, k).0,
                    month_after(start.year as int, start.month as int, k).1,
                ),
            ),
    ) + if partial {
        daily_tail(end)
    } else {
        Seq::<(Frequency, Seq<char>)>::empty()
    }
}

/// One daily task for each day of `end`'s month from the 1st to `end`.
pub open spec fn daily_tail(end: Date) -> Seq<(Frequency, Seq<char>)> {
    Seq::new(
        end.day as nat,
        |i: int| (Frequency::Daily, ymd_text(Date { year: end.year, month: end.month, day: (i + 1) as u32 })),
    )
}

proof fn lemma_month_after_zero(y: int, m: int)
    requires
        1 <= m <= 12,
    ensures
        month_after(y, m, 0) == (y, m),
{
    let i = month_index(y, m);
    assert(i == 12 * y + (m - 1));
    vstd::arithmetic::div_mod::lemma_fundamental_div_mod_converse(i, 12, y, m - 1);
}

proof fn lemma_same_month_index(y: int, m: int, y2: int, m2: int)
    requires
        1 <= m <= 12,
        1 <= m2 <= 12,
        month_index(y, m) == month_index(y2, m2),
    ensures
        y == y2 && m == m2,
{
    if y < y2 {
        assert(12 * y + 12 <= 12 * y2);
    } else if y > y2 {
        assert(12 * y2 + 12 <= 12 * y);
    }
}

proof fn lemma_months_tasks_shape(y: int, m: int, c: nat, end: Date)
    requires
        1 <= m <= 12,
        1 <= end.month <= 12,
        c >= 1,
        month_index(y, m) + c - 1 == month_index(end.year as int, end.month as int),
    ensures
        months_tasks(y, m, c, end) == Seq::new(
            (if ends_mid_month(end) {
                c - 1
            } else {
                c as int
            }) as nat,
            |k: int| (Frequency::Monthly, ym_text(month_after(y, m, k).0, month_after(y, m, k).1)),
        ) + if ends_mid_month(end) {
            daily_tail(end)
        } else {
            Seq::<(Frequency, Seq<char>)>::empty()
        },
    decreases c,
{
    let (ny, nm) = next_month(y, m);
    lemma_month_after_zero(y, m);
    assert(months_tasks(ny, nm, 0, end) == Seq::<(Frequency, Seq<char>)>::empty());
    if c == 1 {
        lemma_same_month_index(y, m, end.year as int, end.month as int);
        assert(months_tasks(y, m, c, end) =~= month_tasks(y, m, end));
        if ends_mid_month(end) {
            assert(month_tasks(y, m, end) =~= daily_tail(end));
        } else {
            assert(month_tasks(y, m, end) =~= seq![(Frequency::Monthly, ym_text(y, m))]);
        }
    } else {
        assert(month_index(ny, nm) == month_index(y, m) + 1);
        lemma_months_tasks_shape(ny, nm, (c - 1) as nat, end);
        assert(month_index(y, m) < month_index(end.year as int, end.month as int));
        assert(!(y == end.year && m == end.month));
        assert(month_tasks(y, m, end) == seq![(Frequency::Monthly, ym_text(y, m))]);
        let count: int = if ends_mid_month(end) {
            c - 1
        } else {
            c as int
        };
        let whole = Seq::new(
            count as nat,
            |k: int| (Frequency::Monthly, ym_text(month_after(y, m, k).0, month_after(y, m, k).1)),
        );
        let rest = Seq::new(
            (count - 1) as nat,
            |k: int|
                (Frequency::Monthly, ym_text(month_after(ny, nm, k).0, month_after(ny, nm, k).1)),
        );
        assert forall|k: int| 0 <= k < count - 1 implies #[trigger] rest[k] == whole[k + 1] by {
            assert(month_after(ny, nm, k) == month_after(y, m, k + 1));
        }
        assert(whole =~= seq![(Frequency::Monthly, ym_text(y, m))] + rest);
        let tail = if ends_mid_month(end) {
            daily_tail(end)
        } else {
            Seq::<(Frequency, Seq<char>)>::empty()
        };
        assert(months_tasks(y, m, c, end) =~= seq![(Frequency::Monthly, ym_text(y, m))] + (rest
            + tail));
        assert(months_tasks(y, m, c, end) =~= whole + tail);
    }
}

/// Complete months are fetched as monthly archives and only the last month,
/// when the range ends before its last day, day by day: the tasks of a
/// backfill are the monthly tasks of consecutive months from the month of
/// `start`, followed, for a partial last month, by its days from the 1st to
/// `end`.
pub proof fn lemma_backfill_tasks_shape(start: Date, end: Date)
    requires
        start.wf(),
        end.wf(),
    ensures
        backfill_tasks(start, end) == backfill_shape(start, end),
{
    let n = months_spanned(start, end);
    if n == 0 {
        assert(backfill_tasks(start, end) =~= backfill_shape(start, end));
    } else {
        lemma_months_tasks_shape(start.year as int, start.month as int, n, end);
        assert(backfill_tasks(start, end) =~= backfill_shape(start, end));
    }
}

/// A range that ends before the last day of its month fetches that month
/// day by day, from the 1st to the end date, after one monthly task for each
/// earlier month; the end month is never a monthly task. A range that ends on
/// the last day of its month fetches every month, the end month included, as
/// a monthly archive.
pub proof fn lemma_backfill_last_month(start: Date, end: Date)
    requires
        start.wf(),
        end.wf(),
        months_spanned(start, end) > 0,
    ensures
        end.day < days_in_month(end.year as int, end.month as int) ==> {
            &&& backfill_tasks(start, end).len() == months_spanned(start, end) - 1 + end.day
            &&& forall|i: int|
                0 <= i < end.day ==> #[trigger] backfill_tasks(start, end)[months_spanned(start, end) - 1 + i]
                    == (Frequency::Daily, ymd_text(Date { year: end.year, month: end.month, day: (i + 1) as u32 }))
            &&& forall|k: int|
                0 <= k < months_spanned(start, end) - 1 ==> (#[trigger] backfill_tasks(start, end)[k]).0
                    == Frequency::Monthly && month_after(start.year as int, start.month as int, k)
                    != (end.year as int, end.month as int)
        },
        end.day == days_in_month(end.year as int, end.month as int) ==> {
            &&& backfill_tasks(start, end).len() == months_spanned(start, end)
            &&& forall|k: int|
                0 <= k < months_spanned(start, end) ==> (#[trigger] backfill_tasks(start, end)[k]).0
                    == Frequency::Monthly
            &&& backfill_tasks(start, end).last() == (Frequency::Monthly, ym_text(end.year as int, end.month as int))
        },
{
    lemma_backfill_tasks_shape(start, end);
    let n = months_spanned(start, end);
    let t = backfill_tasks(start, end);
    let last = month_index(end.year as int, end.month as int);
    let first = month_index(start.year as int, start.month as int);
    assert(first + n - 1 == last);
    assert forall|k: int| 0 <= k < n - 1 implies month_after(start.year as int, start.month as int, k)
        != (end.year as int, end.month as int) by {
        let i = first + k;
        assert(i < last);
        if month_after(start.year as int, start.month as int, k) == (end.year as int, end.month as int) {
            vstd::arithmetic::div_mod::lemma_fundamental_div_mod(i, 12);
            assert(i == 12 * (i / 12) + i % 12);
            assert(i == last);
        }
    }
    if end.day < days_in_month(end.year as int, end.month as int) {
        assert forall|i: int| 0 <= i < end.day implies #[trigger] t[n - 1 + i]
            == (Frequency::Daily, ymd_text(Date { year: end.year, month: end.month, day: (i + 1) as u32 })) by {
            assert(t[n - 1 + i] == daily_tail(end)[i]);
        }
    } else {
        let k = n - 1;
        assert(t[k] == (Frequency::Monthly, ym_text(month_after(start.year as int, start.month as int, k).0,
            month_after(start.year as int, start.month as int, k).1)));
        lemma_month_after_zero(end.year as int, end.month as int);
        assert(month_after(start.year as int, start.month as int, k) == month_after(end.year as int, end.month as int, 0));
    }
}

/// The (frequency, date) tasks of a backfill: complete months as monthly
/// archives, the last month day by day when the range ends before its last
/// day. The month of `start` is fetched from its 1st.
///
/// chrono panics past its last representable date, which the month after
/// December of its last year would be.
pub fn generate_tasks(start: &Date, end: &Date) -> (r: Vec<DownloadTask>)
    requires
        start.wf(),
        end.wf(),
        !(end.year == MAX_YEAR && end.month == 12),
    ensures
        tasks_view(r@) == backfill_tasks(*start, *end),
{
    let mut tasks: Vec<DownloadTask> = Vec::new();
    let mut current = start.first_of_month();
    let ghost last = month_index(end.year as int, end.month as int);
    assert(remaining_tasks(start.year as int, start.month as int, *end) == backfill_tasks(
        *start,
        *end,
    ));
    while current.le(end)
        invariant
            current.wf(),
            current.day == 1,
            end.wf(),
            !(end.year == MAX_YEAR && end.month == 12),
            last == month_index(end.year as int, end.month as int),
            backfill_tasks(*start, *end) == tasks_view(tasks@) + remaining_tasks(
                current.year as int,
                current.month as int,
                *end,
            ),
        decreases last + 1 - month_index(current.year as int, current.month as int),
    {
        let ghost y = current.year as int;
        let ghost m = current.month as int;
        let ghost count = (last - month_index(y, m) + 1) as nat;
        let ghost before = tasks_view(tasks@);
        assert(month_index(y, m) <= last);
        assert(remaining_tasks(y, m, *end) == month_tasks(y, m, *end) + months_tasks(
            next_month(y, m).0,
            next_month(y, m).1,
            (count - 1) as nat,
            *end,
        ));

        let len = month_length(current.year, current.month);
        if current.year == end.year && current.month == end.month && end.day < len {
            let mut day = current;
            while day.le(end)
                invariant
                    day.wf(),
                    end.wf(),
                    day.year == current.year,
                    day.month == current.month,
                    current.year == end.year,
                    current.month == end.month,
                    end.day < days_in_month(y, m),
                    y == current.year,
                    m == current.month,
                    1 <= day.day <= end.day + 1,
                    tasks_view(tasks@) =~= before + month_tasks(y, m, *end).take(
                        (day.day - 1) as int,
                    ),
                decreases end.day + 1 - day.day,
            {
                let text = format_ymd(&day);
                let ghost prev = tasks@;
                tasks.push(DownloadTask { frequency: Frequency::Daily, date: text });
                assert(tasks_view(tasks@) =~= tasks_view(prev).push((Frequency::Daily, ymd_text(day))));
                assert(month_tasks(y, m, *end)[day.day - 1] == (Frequency::Daily, ymd_text(day)));
                assert(month_tasks(y, m, *end).take(day.day as int) =~= month_tasks(
                    y,
                    m,
                    *end,
                ).take((day.day - 1) as int).push((Frequency::Daily, ymd_text(day))));
                day = day.succ();
            }
            assert(month_tasks(y, m, *end).take(end.day as int) =~= month_tasks(y, m, *end));
        } else {
            let text = format_ym(current.year, current.month);
            let ghost prev = tasks@;
            tasks.push(DownloadTask { frequency: Frequency::Monthly, date: text });
            assert(tasks_view(tasks@) =~= tasks_view(prev).push((Frequency::Monthly, ym_text(y, m))));
            assert(tasks_view(tasks@) =~= before + month_tasks(y, m, *end));
        }
        let next = if current.month == 12 {
            Date { year: current.year + 1, month: 1, day: 1 }
        } else {
            Date { year: current.year, month: current.month + 1, day: 1 }
        };
        assert(next.year as int == next_month(y, m).0 && next.month as int == next_month(y, m).1);
        assert(month_index(next.year as int, next.month as int) == month_index(y, m) + 1);
        assert(remaining_tasks(next.year as int, next.month as int, *end) == months_tasks(
            next_month(y, m).0,
            next_month(y, m).1,
            (count - 1) as nat,
            *end,
        ));
        current = next;
    }
    assert(remaining_tasks(current.year as int, current.month as int, *end) == Seq::<
        (Frequency, Seq<char>),
    >::empty());
    assert(tasks_view(tasks@) =~= backfill_tasks(*start, *end));
    tasks
}

/// The jobs of one symbol over a list of tasks.
pub open spec fn symbol_jobs(
    output_dir: Seq<char>,
    interval: Seq<char>,
    symbol: Seq<char>,
    tasks: Seq<(Frequency, Seq<char>)>,
) -> Seq<JobView> {
    tasks.map_values(
        |t: (Frequency, Seq<char>)| job_spec(output_dir, frequency_text(t.0), interval, symbol, t.1),
    )
}

/// The jobs of a backfill: for each symbol in turn, one job per task.
pub open spec fn backfill_plan(
    output_dir: Seq<char>,
    interval: Seq<char>,
    symbols: Seq<Seq<char>>,
    tasks: Seq<(Frequency, Seq<char>)>,
) -> Seq<JobView>
    decreases symbols.len(),
{
    if symbols.len() == 0 {
        seq![]
    } else {
        backfill_plan(output_dir, interval, symbols.drop_last(), tasks) + symbol_jobs(
            output_dir,
            interval,
            symbols.last(),
            tasks,
        )
    }
}

/// Every symbol gets every task: a backfill plan holds, for each symbol in
/// order, one job per task in task order, `symbols.len() * tasks.len()` jobs
/// in all.
pub proof fn lemma_backfill_plan_product(
    output_dir: Seq<char>,
    interval: Seq<char>,
    symbols: Seq<Seq<char>>,
    tasks: Seq<(Frequency, Seq<char>)>,
)
    ensures
        backfill_plan(output_dir, interval, symbols, tasks).len() == symbols.len() * tasks.len(),
        forall|s: int, t: int|
            #![trigger symbols[s], tasks[t]]
            0 <= s < symbols.len() && 0 <= t < tasks.len() ==> backfill_plan(
                output_dir,
                interval,
                symbols,
                tasks,
            )[s * tasks.len() + t] == job_spec(
                output_dir,
                frequency_text(tasks[t].0),
                interval,
                symbols[s],
                tasks[t].1,
            ),
    decreases symbols.len(),
{
    let n = symbols.len();
    let t_len = tasks.len();
    if n > 0 {
        let init = symbols.drop_last();
        lemma_backfill_plan_product(output_dir, interval, init, tasks);
        let plan = backfill_plan(output_dir, interval, symbols, tasks);
        let first = backfill_plan(output_dir, interval, init, tasks);
        let last = symbol_jobs(output_dir, interval, symbols.last(), tasks);
        assert(plan == first + last);
        assert(first.len() == (n - 1) * t_len);
        assert((n - 1) * t_len + t_len == n * t_len) by (nonlinear_arith);
        assert forall|s: int, t: int|
            #![trigger symbols[s], tasks[t]]
            0 <= s < n && 0 <= t < t_len implies plan[s * t_len + t] == job_spec(
                output_dir,
                frequency_text(tasks[t].0),
                interval,
                symbols[s],
                tasks[t].1,
            ) by {
            if s < n - 1 {
                assert(s * t_len + t < (n - 1) * t_len) by (nonlinear_arith)
                    requires
                        0 <= s < n - 1,
                        0 <= t < t_len,
                ;
                assert(0 <= s * t_len) by (nonlinear_arith)
                    requires
                        0 <= s,
                        0 <= t_len,
                ;
                assert(init[s] == symbols[s]);
                assert(plan[s * t_len + t] == first[s * t_len + t]);
                assert(first[s * t_len + t] == job_spec(
                    output_dir,
                    frequency_text(tasks[t].0),
                    interval,
                    init[s],
                    tasks[t].1,
                ));
            } else {
                assert(s * t_len + t == (n - 1) * t_len + t);
                assert(plan[s * t_len + t] == last[t]);
            }
        }
    }
}

/// Texts of a list of strings.
pub open spec fn texts(v: Seq<String>) -> Seq<Seq<char>> {
    v.map_values(|s: String| s@)
}

/// Jobs as text.
pub open spec fn jobs_view(v: Seq<DownloadJob>) -> Seq<JobView> {
    v.map_values(|j: DownloadJob| j@)
}

/// The jobs of a backfill from `start` to `end`, for every configured symbol.
pub fn plan_backfill(config: &AppConfig, interval: &str, start: &Date, end: &Date) -> (r: Vec<
    DownloadJob,
>)
    requires
        start.wf(),
        end.wf(),
        !(end.year == MAX_YEAR && end.month == 12),
    ensures
        jobs_view(r@) == backfill_plan(
            config.output_dir@,
            interval@,
            texts(config.symbols@),
            backfill_tasks(*start, *end),
        ),
{
    let tasks = generate_tasks(start, end);
    let ghost tv = tasks_view(tasks@);
    let ghost out = config.output_dir@;
    let ghost syms = texts(config.symbols@);
    let mut jobs: Vec<DownloadJob> = Vec::new();
    let n = config.symbols.len();
    let t = tasks.len();
    let mut i: usize = 0;
    while i < n
        invariant
            n == config.symbols.len(),
            t == tasks.len(),
            tv == tasks_view(tasks@),
            out == config.output_dir@,
            syms == texts(config.symbols@),
            i <= n,
            jobs_view(jobs@) == backfill_plan(out, interval@, syms.take(i as int), tv),
        decreases n - i,
    {
        let symbol = config.symbols[i].as_str();
        let mut j: usize = 0;
        assert(tv.take(0) =~= Seq::<(Frequency, Seq<char>)>::empty());
        assert(symbol_jobs(out, interval@, symbol@, tv.take(0)) =~= Seq::<JobView>::empty());
        assert(jobs_view(jobs@) =~= backfill_plan(out, interval@, syms.take(i as int), tv)
            + symbol_jobs(out, interval@, symbol@, tv.take(0)));
        while j < t
            invariant
                n == config.symbols.len(),
                t == tasks.len(),
                tv == tasks_view(tasks@),
                out == config.output_dir@,
                syms == texts(config.symbols@),
                i < n,
                j <= t,
                symbol@ == syms[i as int],
                jobs_view(jobs@) == backfill_plan(out, interval@, syms.take(i as int), tv)
                    + symbol_jobs(out, interval@, symbol@, tv.take(j as int)),
            decreases t - j,
        {
            let frequency = tasks[j].frequency.to_string();
            let job = make_job(
                config.output_dir.as_str(),
                frequency.as_str(),
                interval,
                symbol,
                tasks[j].date.as_str(),
            );
            let ghost prev = jobs@;
            jobs.push(job);
            assert(tv[j as int] == (tasks@[j as int].frequency, tasks@[j as int].date@));
            assert(jobs_view(jobs@) =~= jobs_view(prev).push(job_spec(
                out,
                frequency_text(tv[j as int].0),
                interval@,
                symbol@,
                tv[j as int].1,
            )));
            assert(symbol_jobs(out, interval@, symbol@, tv.take(j + 1)) =~= symbol_jobs(
                out,
                interval@,
                symbol@,
                tv.take(j as int),
            ).push(
                job_spec(out, frequency_text(tv[j as int].0), interval@, symbol@, tv[j as int].1),
            ));
            j = j + 1;
        }
        assert(tv.take(t as int) =~= tv);
        assert(syms.take(i + 1).drop_last() =~= syms.take(i as int));
        assert(syms.take(i + 1).last() == syms[i as int]);
        i = i + 1;
    }
    assert(syms.take(n as int) =~= syms);
    jobs
}

/// Why a backfill could not be planned.
#[derive(Debug)]
pub enum BackfillError {
    /// The start date is not `%Y-%m-%d`.
    InvalidStartDate(chrono::format::ParseError),
    /// The end date is not `%Y-%m-%d`.
    InvalidEndDate(chrono::format::ParseError),
    /// The range reaches December of chrono's last year, past which the
    /// month iteration cannot step.
    EndDateOutOfRange,
}

/// A parsed (year, month, day) as a date.
pub open spec fn date_of(t: (int, int, int)) -> Date {
    Date { year: t.0 as i32, month: t.1 as u32, day: t.2 as u32 }
}

/// The jobs of a backfill between two `%Y-%m-%d` dates, both included.
pub fn backfill_jobs(config: &AppConfig, interval: &str, start: &str, end: &str) -> (r: Result<
    Vec<DownloadJob>,
    BackfillError,
>)
    ensures
        match (parsed_calendar_date(start@), parsed_calendar_date(end@)) {
            (None, _) => (r matches Err(BackfillError::InvalidStartDate(_))),
            (Some(_), None) => (r matches Err(BackfillError::InvalidEndDate(_))),
            (Some(s), Some(e)) => if e.0 == MAX_YEAR && e.1 == 12 {
                (r matches Err(BackfillError::EndDateOutOfRange))
            } else {
                (r matches Ok(jobs) && jobs_view(jobs@) == backfill_plan(
                    config.output_dir@,
                    interval@,
                    texts(config.symbols@),
                    backfill_tasks(date_of(s), date_of(e)),
                ))
            },
        },
{
    let start_date = match parse_ymd(start) {
        Ok(d) => d,
        Err(e) => {
            return Err(BackfillError::InvalidStartDate(e));
        },
    };
    let end_date = match parse_ymd(end) {
        Ok(d) => d,
        Err(e) => {
            return Err(BackfillError::InvalidEndDate(e));
        },
    };
    if end_date.year == MAX_YEAR && end_date.month == 12 {
        return Err(BackfillError::EndDateOutOfRange);
    }
    Ok(plan_backfill(config, interval, &start_date, &end_date))
}

/// The prefix of the daily file names of one month.
pub open spec fn daily_prefix(symbol: Seq<char>, interval: Seq<char>, month: Seq<char>) -> Seq<
    char,
> {
    symbol + "-"@ + interval + "-"@ + month + "-"@
}

/// Whether a file name is that of a daily IPC file of the month.
pub open spec fn is_daily_file_of(
    name: Seq<char>,
    symbol: Seq<char>,
    interval: Seq<char>,
    month: Seq<char>,
) -> bool {
    daily_prefix(symbol, interval, month).is_prefix_of(name) && ".ipc"@.is_suffix_of(name)
}

/// The positions, in increasing order, of the names in a directory listing
/// that are daily IPC files of the month (`{symbol}-{interval}-{month}-*.ipc`),
/// which a monthly archive of that month replaces.
pub fn daily_files_to_remove(names: &Vec<String>, symbol: &str, interval: &str, month: &str) -> (r:
    Vec<usize>)
    ensures
        forall|k: int| 0 <= k < r.len() ==> #[trigger] r@[k] < names.len(),
        forall|k: int|
            0 <= k < r.len() ==> is_daily_file_of(
                names@[#[trigger] r@[k] as int]@,
                symbol@,
                interval@,
                month@,
            ),
        forall|a: int, b: int| 0 <= a < b < r.len() ==> #[trigger] r@[a] < #[trigger] r@[b],
        forall|i: int|
            0 <= i < names.len() && is_daily_file_of(names@[i]@, symbol@, interval@, month@)
                ==> #[trigger] r@.contains(i as usize),
{
    let mut prefix = String::from_str(symbol);
    prefix.append("-");
    prefix.append(interval);
    prefix.append("-");
    prefix.append(month);
    prefix.append("-");
    assert(prefix@ =~= daily_prefix(symbol@, interval@, month@));
    let mut found: Vec<usize> = Vec::new();
    let n = names.len();
    let mut i: usize = 0;
    while i < n
        invariant
            n == names.len(),
            i <= n,
            prefix@ == daily_prefix(symbol@, interval@, month@),
            forall|k: int| 0 <= k < found.len() ==> #[trigger] found@[k] < i,
            forall|k: int|
                0 <= k < found.len() ==> is_daily_file_of(
                    names@[#[trigger] found@[k] as int]@,
                    symbol@,
                    interval@,
                    month@,
                ),
            forall|a: int, b: int|
                0 <= a < b < found.len() ==> #[trigger] found@[a] < #[trigger] found@[b],
            forall|k: int|
                0 <= k < i && is_daily_file_of(names@[k]@, symbol@, interval@, month@)
                    ==> #[trigger] found@.contains(k as usize),
        decreases n - i,
    {
        let name = names[i].as_str();
        if starts_with(name, prefix.as_str()) && ends_with(name, ".ipc") {
            let ghost prev = found@;
            found.push(i);
            assert forall|k: int|
                0 <= k < i + 1 && is_daily_file_of(
                    names@[k]@,
                    symbol@,
                    interval@,
                    month@,
                ) implies #[trigger] found@.contains(k as usize) by {
                if k < i {
                    assert(prev.contains(k as usize));
                    let w = choose|w: int| 0 <= w < prev.len() && prev[w] == k as usize;
                    assert(found@[w] == k as usize);
                } else {
                    assert(found@[prev.len() as int] == i);
                }
            }
        }
        i = i + 1;
    }
    found
}

/// How a spawned download ended.
#[derive(Clone, Copy, Debug, PartialEq, Eq, Structural)]
pub enum JobOutcome {
    Succeeded,
    Failed,
    Panicked,
}

/// The position of the first outcome, in completion order, that is not a
/// success: the error a batch of downloads reports. `None` when every
/// download succeeded.
pub fn first_error(outcomes: &Vec<JobOutcome>) -> (r: Option<usize>)
    ensures
        r matches Some(i) ==> i < outcomes.len() && outcomes@[i as int] != JobOutcome::Succeeded
            && forall|k: int| 0 <= k < i ==> outcomes@[k] == JobOutcome::Succeeded,
        r is None ==> forall|k: int| 0 <= k < outcomes.len() ==> outcomes@[k] == JobOutcome::Succeeded,
{
    let n = outcomes.len();
    let mut i: usize = 0;
    while i < n
        invariant
            n == outcomes.len(),
            i <= n,
            forall|k: int| 0 <= k < i ==> outcomes@[k] == JobOutcome::Succeeded,
        decreases n - i,
    {
        match outcomes[i] {
            JobOutcome::Succeeded => {},
            _ => {
                return Some(i);
            },
        }
        i = i + 1;
    }
    None
}

} // verus!
