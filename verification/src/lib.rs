//! Planning and decision logic of a downloader for Binance futures kline
//! archives: calendar arithmetic and date formatting, download job planning,
//! retry decisions, the daily scheduler's timing, and the shaping of push
//! notifications.

pub mod archive;
pub mod commands;
pub mod config;
pub mod date;
pub mod downloader;
pub mod gotify;
pub mod notify;
pub mod retry;
pub mod scheduler;
pub mod text;
pub mod visitor;
