use std::io::Write;

use binance_klines_downloader::archive::{ensure_header, kline_header_line, prepare_csv, ArchiveError};

const HEADER: &str = "open_time,open,high,low,close,volume,close_time,quote_volume,count,taker_buy_volume,taker_buy_quote_volume,ignore";

fn zip_of(name: &str, content: &[u8]) -> Vec<u8> {
    let mut buf = std::io::Cursor::new(Vec::new());
    {
        let mut w = zip::ZipWriter::new(&mut buf);
        let options = zip::write::SimpleFileOptions::default()
            .compression_method(zip::CompressionMethod::Deflated);
        w.start_file(name, options).unwrap();
        w.write_all(content).unwrap();
        w.finish().unwrap();
    }
    buf.into_inner()
}

#[test]
fn header_line_lists_the_kline_columns() {
    assert_eq!(kline_header_line(), HEADER);
}

#[test]
fn header_is_added_only_when_missing() {
    let body = "1,2.0,3.0\n".to_string();
    assert_eq!(ensure_header(body.clone()), format!("{}\n{}", HEADER, body));
    let with = format!("open_time,open\n{}", body);
    assert_eq!(ensure_header(with.clone()), with);
    let once = ensure_header(body.clone());
    assert_eq!(ensure_header(once.clone()), once);
}

#[test]
fn csv_from_a_zip_archive() {
    let rows = "1700000000000,1.0,2.0,0.5,1.5,10,1700000059999,15,3,4,6,0\n";
    let csv = prepare_csv(&zip_of("BTCUSDT-1h-2025-05-01.csv", rows.as_bytes())).unwrap();
    assert_eq!(csv, format!("{}\n{}", HEADER, rows));
    let headed = format!("{}\n{}", HEADER, rows);
    let csv = prepare_csv(&zip_of("x.csv", headed.as_bytes())).unwrap();
    assert_eq!(csv, headed);
}

#[test]
fn bad_archives_are_errors() {
    assert!(matches!(prepare_csv(b"not a zip"), Err(ArchiveError::OpenZip(_))));
    assert!(matches!(prepare_csv(&zip_of("x.csv", &[0xff, 0xfe, 0x00])), Err(ArchiveError::NotUtf8(_))));
}
