# binance_klines_downloader

Downloads Binance USDⓈ-M futures kline archives (daily or monthly zip files
from data.binance.vision) and stores them as IPC tables; pushes log events to
Gotify and Ntfy.

- `src/` is the verified library: calendar arithmetic and chrono-style date
  texts (`date`), the command dates (`commands`), the choice of the
  configuration file (`config`), download planning — URLs, output paths,
  backfill tasks, the daily files a monthly archive replaces, the error a batch
  reports (`downloader`), the retry policy (`retry`), archive bytes to CSV
  text (`archive`), the next scheduled run (`scheduler`), and the shaping of
  notifications (`notify`, `gotify`, `visitor`).
- `app/` is the program around it: command line, configuration file I/O and
  TOML parsing, HTTP requests, waiting, the polars tables, log setup and the
  tracing layers.
- `tests/` runs the library on concrete values.
