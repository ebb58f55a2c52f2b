use binance_klines_downloader::commands::Frequency;
use binance_klines_downloader::config::{AppConfig, ConfigError, ConfigFile, ConfigLocation, SearchDir};
use binance_klines_downloader::date::Date;
use binance_klines_downloader::downloader::{
    backfill_jobs, daily_files_to_remove, dump_jobs, first_error, generate_tasks, make_job,
    BackfillError, JobOutcome, MAX_CONCURRENT_DOWNLOADS,
};
use binance_klines_downloader::retry::{
    next_action, AttemptAction, FetchResult, MAX_ATTEMPTS, RETRY_DELAY_SECS,
};

fn config(symbols: &[&str]) -> AppConfig {
    AppConfig {
        proxy: "http://127.0.0.1:7890".to_string(),
        output_dir: "data".to_string(),
        symbols: symbols.iter().map(|s| s.to_string()).collect(),
        intervals: vec!["1h".to_string()],
        gotify_url: String::new(),
        gotify_token: String::new(),
        ntfy_url: String::new(),
        ntfy_token: String::new(),
        log_dir: String::new(),
    }
}

fn d(year: i32, month: u32, day: u32) -> Date {
    Date { year, month, day }
}

fn task_list(start: Date, end: Date) -> Vec<(Frequency, String)> {
    generate_tasks(&start, &end).into_iter().map(|t| (t.frequency, t.date)).collect()
}

#[test]
fn backfill_example_from_the_command_help() {
    // -s 2022-10-03 -e 2025-03-10: monthly 2022-10 .. 2025-02, daily 2025-03-01 .. 2025-03-10
    let tasks = task_list(d(2022, 10, 3), d(2025, 3, 10));
    let monthly: Vec<&String> =
        tasks.iter().filter(|t| t.0 == Frequency::Monthly).map(|t| &t.1).collect();
    let daily: Vec<&String> =
        tasks.iter().filter(|t| t.0 == Frequency::Daily).map(|t| &t.1).collect();
    assert_eq!(monthly.len(), 29);
    assert_eq!(monthly[0], "2022-10");
    assert_eq!(monthly[1], "2022-11");
    assert_eq!(monthly[2], "2022-12");
    assert_eq!(monthly[3], "2023-01");
    assert_eq!(monthly[28], "2025-02");
    assert_eq!(daily.len(), 10);
    assert_eq!(daily[0], "2025-03-01");
    assert_eq!(daily[9], "2025-03-10");
    assert_eq!(tasks.len(), 39);
    assert_eq!(tasks[28], (Frequency::Monthly, "2025-02".to_string()));
    assert_eq!(tasks[29], (Frequency::Daily, "2025-03-01".to_string()));
}

#[test]
fn backfill_ending_on_last_day_of_month_is_monthly() {
    let tasks = task_list(d(2024, 1, 15), d(2024, 2, 29));
    assert_eq!(
        tasks,
        vec![
            (Frequency::Monthly, "2024-01".to_string()),
            (Frequency::Monthly, "2024-02".to_string())
        ]
    );
}

#[test]
fn backfill_within_one_partial_month_is_daily_from_the_first() {
    let tasks = task_list(d(2025, 3, 5), d(2025, 3, 3));
    assert_eq!(
        tasks,
        vec![
            (Frequency::Daily, "2025-03-01".to_string()),
            (Frequency::Daily, "2025-03-02".to_string()),
            (Frequency::Daily, "2025-03-03".to_string())
        ]
    );
}

#[test]
fn backfill_with_end_before_start_month_is_empty() {
    assert!(task_list(d(2025, 3, 5), d(2025, 2, 3)).is_empty());
}

#[test]
fn archive_url_and_output_path() {
    let job = make_job("data", "daily", "1h", "BTCUSDT", "2026-06-25");
    assert_eq!(
        job.url,
        "https://data.binance.vision/data/futures/um/daily/klines/BTCUSDT/1h/BTCUSDT-1h-2026-06-25.zip"
    );
    assert_eq!(job.dir, "data/1h/BTCUSDT");
    assert_eq!(job.output_path, "data/1h/BTCUSDT/BTCUSDT-1h-2026-06-25.ipc");
    assert_eq!(job.symbol, "BTCUSDT");
    assert!(job.cleanup.is_none());
}

#[test]
fn monthly_jobs_clean_up_daily_files() {
    let job = make_job("out", "monthly", "5m", "ETHUSDT", "2026-05");
    assert_eq!(
        job.url,
        "https://data.binance.vision/data/futures/um/monthly/klines/ETHUSDT/5m/ETHUSDT-5m-2026-05.zip"
    );
    let cleanup = job.cleanup.expect("monthly archives clean up");
    assert_eq!(cleanup.interval, "5m");
    assert_eq!(cleanup.month, "2026-05");
}

#[test]
fn dump_makes_one_job_per_symbol_in_order() {
    let jobs = dump_jobs(&config(&["BTCUSDT", "ETHUSDT"]), "monthly", "1h", "2026-04");
    assert_eq!(jobs.len(), 2);
    assert_eq!(jobs[0].symbol, "BTCUSDT");
    assert_eq!(jobs[1].symbol, "ETHUSDT");
    assert_eq!(jobs[1].output_path, "data/1h/ETHUSDT/ETHUSDT-1h-2026-04.ipc");
    assert!(jobs.iter().all(|j| j.cleanup.is_some()));
}

#[test]
fn backfill_jobs_are_symbol_major() {
    let jobs = backfill_jobs(&config(&["A", "B"]), "1h", "2025-01-20", "2025-02-02").unwrap();
    let urls: Vec<&str> = jobs.iter().map(|j| j.url.as_str()).collect();
    assert_eq!(urls.len(), 6);
    assert!(urls[0].ends_with("/monthly/klines/A/1h/A-1h-2025-01.zip"));
    assert!(urls[1].ends_with("/daily/klines/A/1h/A-1h-2025-02-01.zip"));
    assert!(urls[2].ends_with("/daily/klines/A/1h/A-1h-2025-02-02.zip"));
    assert!(urls[3].ends_with("/monthly/klines/B/1h/B-1h-2025-01.zip"));
    assert!(urls[5].ends_with("/daily/klines/B/1h/B-1h-2025-02-02.zip"));
    assert!(jobs[0].cleanup.is_some());
    assert!(jobs[1].cleanup.is_none());
}

#[test]
fn backfill_rejects_bad_dates() {
    let c = config(&["A"]);
    assert!(matches!(backfill_jobs(&c, "1h", "2025-13-01", "2025-02-02"), Err(BackfillError::InvalidStartDate(_))));
    assert!(matches!(backfill_jobs(&c, "1h", "2025-01-01", "yesterday"), Err(BackfillError::InvalidEndDate(_))));
    assert!(matches!(backfill_jobs(&c, "1h", "2023-02-30", "2025-02-02"), Err(BackfillError::InvalidStartDate(_))));
    assert!(matches!(backfill_jobs(&c, "1h", "2025-01-01", "+262142-12-01"), Err(BackfillError::EndDateOutOfRange)));
}

#[test]
fn daily_files_of_the_month_are_selected() {
    let names: Vec<String> = [
        "BTCUSDT-1h-2025-05-01.ipc",
        "BTCUSDT-1h-2025-05.ipc",
        "BTCUSDT-1h-2025-05-31.ipc",
        "BTCUSDT-1h-2025-06-01.ipc",
        "BTCUSDT-5m-2025-05-02.ipc",
        "BTCUSDT-1h-2025-05-03.csv",
    ]
    .iter()
    .map(|s| s.to_string())
    .collect();
    assert_eq!(daily_files_to_remove(&names, "BTCUSDT", "1h", "2025-05"), vec![0, 2]);
}

#[test]
fn retry_decisions() {
    assert_eq!(next_action(1, FetchResult::Status(200)), AttemptAction::Process);
    assert_eq!(next_action(5, FetchResult::Status(204)), AttemptAction::Process);
    assert_eq!(next_action(1, FetchResult::Status(404)), AttemptAction::Skip);
    assert_eq!(next_action(1, FetchResult::Status(429)), AttemptAction::Retry { delay_secs: 180 });
    assert_eq!(next_action(4, FetchResult::NetworkError), AttemptAction::Retry { delay_secs: RETRY_DELAY_SECS });
    assert_eq!(next_action(5, FetchResult::Status(503)), AttemptAction::GiveUp);
    assert_eq!(next_action(MAX_ATTEMPTS, FetchResult::NetworkError), AttemptAction::GiveUp);
    assert_eq!(next_action(2, FetchResult::Status(301)), AttemptAction::Retry { delay_secs: 180 });
}

#[test]
fn a_failing_download_tries_five_times() {
    let mut requests = 0;
    let mut last = AttemptAction::Process;
    for attempt in 1..=MAX_ATTEMPTS {
        requests += 1;
        last = next_action(attempt, FetchResult::NetworkError);
        if !matches!(last, AttemptAction::Retry { .. }) {
            break;
        }
    }
    assert_eq!(requests, 5);
    assert_eq!(last, AttemptAction::GiveUp);
}

#[test]
fn first_error_in_completion_order() {
    let (ok, failed, panicked) = (JobOutcome::Succeeded, JobOutcome::Failed, JobOutcome::Panicked);
    assert_eq!(first_error(&vec![ok, failed, panicked]), Some(1));
    assert_eq!(first_error(&vec![panicked, failed]), Some(0));
    assert_eq!(first_error(&vec![ok, ok]), None);
    assert_eq!(first_error(&vec![]), None);
}

#[test]
fn concurrency_limit() {
    assert_eq!(MAX_CONCURRENT_DOWNLOADS, 16);
}

#[test]
fn config_file_choice() {
    assert_eq!(
        AppConfig::config_path(false, true, true, true),
        Ok(ConfigLocation { file: ConfigFile::Primary, dir: SearchDir::CurrentDir })
    );
    assert_eq!(
        AppConfig::config_path(true, true, false, false),
        Ok(ConfigLocation { file: ConfigFile::Primary, dir: SearchDir::ExeDir })
    );
    assert_eq!(
        AppConfig::config_path(false, false, false, true),
        Ok(ConfigLocation { file: ConfigFile::Example, dir: SearchDir::CurrentDir })
    );
    assert_eq!(AppConfig::config_path(false, false, false, false), Err(ConfigError::NotFound));
    assert_eq!(AppConfig::locate(false, false), None);
    assert_eq!(ConfigFile::Example.name(), "config.toml.example");
    assert_eq!(
        ConfigError::NotFound.message(),
        "config.toml (or config.toml.example) not found next to executable or in current directory"
    );
}

#[test]
fn output_dir_is_the_parent_of_the_output_path() {
    let job = make_job("out", "daily", "1h", "BTCUSDT", "2025/05/01");
    assert_eq!(job.output_path, "out/1h/BTCUSDT/BTCUSDT-1h-2025/05/01.ipc");
    assert_eq!(job.dir, "out/1h/BTCUSDT/BTCUSDT-1h-2025/05");
    let job = make_job("", "daily", "1h", "S", "d");
    assert_eq!(job.dir, "/1h/S");
}
