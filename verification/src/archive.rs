//! From a downloaded archive to CSV text: the first entry of the zip file,
//! decoded as UTF-8, with the kline header line put in front when the file
//! has none.

use vstd::prelude::*;
use vstd::utf8::{decode_utf8, valid_utf8};

use crate::text::starts_with;

verus! {

/// The CSV header line of a kline file (without line break): the columns
/// of a Binance kline archive in file order, separated by commas.
pub open spec fn kline_header() -> Seq<char> {
    "open_time"@ + ","@ + "open"@ + ","@ + "high"@ + ","@ + "low"@ + ","@ + "close"@ + ","@
        + "volume"@ + ","@ + "close_time"@ + ","@ + "quote_volume"@ + ","@ + "count"@ + ","@
        + "taker_buy_volume"@ + ","@ + "taker_buy_quote_volume"@ + ","@ + "ignore"@
}

/// The CSV text with the header line in front unless it already begins with
/// `open_time`.
pub open spec fn with_header(csv: Seq<char>) -> Seq<char> {
    if "open_time"@.is_prefix_of(csv) {
        csv
    } else {
        kline_header() + "\n"@ + csv
    }
}

/// The kline header line, `open_time,open,...,ignore`.
pub fn kline_header_line() -> (r: String)
    ensures
        r@ == kline_header(),
{
    let mut s = String::from_str("open_time");
    s.append(",");
    s.append("open");
    s.append(",");
    s.append("high");
    s.append(",");
    s.append("low");
    s.append(",");
    s.append("close");
    s.append(",");
    s.append("volume");
    s.append(",");
    s.append("close_time");
    s.append(",");
    s.append("quote_volume");
    s.append(",");
    s.append("count");
    s.append(",");
    s.append("taker_buy_volume");
    s.append(",");
    s.append("taker_buy_quote_volume");
    s.append(",");
    s.append("ignore");
    assert(s@ =~= kline_header());
    s
}

/// Puts the header line in front of CSV text that lacks one.
pub fn ensure_header(csv: String) -> (r: String)
    ensures
        r@ == with_header(csv@),
{
    if starts_with(csv.as_str(), "open_time") {
        csv
    } else {
        let mut s = kline_header_line();
        s.append("\n");
        s.append(csv.as_str());
        s
    }
}

/// Putting the header in front is idempotent: text that went through it
/// already begins with `open_time`.
pub proof fn lemma_with_header_idempotent(csv: Seq<char>)
    ensures
        "open_time"@.is_prefix_of(with_header(csv)),
        with_header(with_header(csv)) == with_header(csv),
{
    let w = with_header(csv);
    if !"open_time"@.is_prefix_of(csv) {
        assert(w.subrange(0, "open_time"@.len() as int) =~= "open_time"@);
    }
}

/// Errors of the zip crate.
#[verifier::external_type_specification]
#[verifier::external_body]
pub struct ExZipError(zip::result::ZipError);

/// I/O errors of std.
#[verifier::external_type_specification]
#[verifier::external_body]
pub struct ExIoError(std::io::Error);

/// The error of std's UTF-8 check.
#[verifier::external_type_specification]
#[verifier::external_body]
pub struct ExFromUtf8Error(std::string::FromUtf8Error);

/// Why an archive could not be turned into CSV text.
#[derive(Debug)]
pub enum ArchiveError {
    /// The bytes are not a zip archive.
    OpenZip(zip::result::ZipError),
    /// The archive has no first entry, or it cannot be opened.
    ZipEntry(zip::result::ZipError),
    /// The first entry could not be read (decompression or checksum).
    ReadEntry(std::io::Error),
    /// The first entry is not UTF-8.
    NotUtf8(std::string::FromUtf8Error),
}

/// The decompressed content of the first entry of the zip archive `archive`
/// as the zip crate reads it, or `None` where opening the archive, opening
/// its first entry, or reading that entry fails.
pub uninterp spec fn first_zip_entry(archive: Seq<u8>) -> Option<Seq<u8>>;

/// Whether zip's `ZipArchive::new` accepts the bytes as an archive.
pub uninterp spec fn zip_archive_opens(archive: Seq<u8>) -> bool;

/// zip `ZipArchive::new` over the bytes, then `ZipArchive::by_index(0)` and
/// `Read::read_to_end` on that entry. Claimed: the content is
/// `first_zip_entry`, an error comes exactly where that is `None`, and the
/// error is `OpenZip` exactly where `ZipArchive::new` fails
/// (`zip_archive_opens`). Whether a later failure lies in opening or in
/// reading the first entry is not stated.
#[verifier::external_body]
pub(crate) fn read_first_zip_entry(zip_bytes: &[u8]) -> (r: Result<Vec<u8>, ArchiveError>)
    ensures
        r is Ok <==> first_zip_entry(zip_bytes@) is Some,
        r matches Ok(v) ==> first_zip_entry(zip_bytes@) == Some(v@),
        r matches Err(ArchiveError::OpenZip(_)) <==> !zip_archive_opens(zip_bytes@),
        !(r matches Err(ArchiveError::NotUtf8(_))),
{
    let mut archive = match zip::ZipArchive::new(std::io::Cursor::new(zip_bytes)) {
        Ok(a) => a,
        Err(e) => return Err(ArchiveError::OpenZip(e)),
    };
    let mut entry = match archive.by_index(0) {
        Ok(f) => f,
        Err(e) => return Err(ArchiveError::ZipEntry(e)),
    };
    let mut buf = Vec::new();
    match std::io::Read::read_to_end(&mut entry, &mut buf) {
        Ok(_) => Ok(buf),
        Err(e) => Err(ArchiveError::ReadEntry(e)),
    }
}

/// std `String::from_utf8`: succeeds exactly on valid UTF-8, and the string
/// holds the decoded characters.
#[verifier::external_body]
pub(crate) fn string_from_utf8(bytes: Vec<u8>) -> (r: Result<String, std::string::FromUtf8Error>)
    ensures
        r is Ok <==> valid_utf8(bytes@),
        r matches Ok(s) ==> s@ == decode_utf8(bytes@),
{
    String::from_utf8(bytes)
}

/// The CSV text of a downloaded kline archive: the first zip entry, decoded
/// as UTF-8, with the header line in front when it has none.
pub fn prepare_csv(zip_bytes: &[u8]) -> (r: Result<String, ArchiveError>)
    ensures
        r matches Err(ArchiveError::OpenZip(_)) <==> !zip_archive_opens(zip_bytes@),
        match first_zip_entry(zip_bytes@) {
            None => (r is Err && !(r matches Err(ArchiveError::NotUtf8(_)))),
            Some(content) => if valid_utf8(content) {
                (r matches Ok(s) && s@ == with_header(decode_utf8(content)))
            } else {
                (r matches Err(ArchiveError::NotUtf8(_)))
            },
        },
{
    let content = read_first_zip_entry(zip_bytes)?;
    let text = match string_from_utf8(content) {
        Ok(t) => t,
        Err(e) => {
            return Err(ArchiveError::NotUtf8(e));
        },
    };
    Ok(ensure_header(text))
}

} // verus!
