use binance_klines_downloader::gotify::GotifyLayer;
use binance_klines_downloader::notify::{LogLevel, NotifyLayer};
use binance_klines_downloader::text::trim_end_slashes;
use binance_klines_downloader::visitor::StringVisitor;

fn pairs(v: &[(String, String)]) -> Vec<(&str, &str)> {
    v.iter().map(|(a, b)| (a.as_str(), b.as_str())).collect()
}

#[test]
fn urls_lose_trailing_slashes() {
    let layer = NotifyLayer::new("https://gotify.example.com//", "tok", "https://ntfy.sh/topic/", "");
    assert_eq!(layer.gotify_url, "https://gotify.example.com");
    assert_eq!(layer.ntfy_url, "https://ntfy.sh/topic");
    assert_eq!(trim_end_slashes("///"), "");
    assert_eq!(trim_end_slashes("a/b"), "a/b");
}

#[test]
fn events_below_info_are_not_pushed() {
    let layer = NotifyLayer::new("https://g", "tok", "https://n", "");
    let r = layer.on_event(LogLevel::Debug, "app", "x");
    assert!(r.gotify.is_none() && r.ntfy.is_none());
    let r = layer.on_event(LogLevel::Trace, "app", "x");
    assert!(r.gotify.is_none() && r.ntfy.is_none());
}

#[test]
fn gotify_needs_url_and_token() {
    let no_token = NotifyLayer::new("https://g", "", "", "");
    assert!(!no_token.gotify_enabled());
    assert!(no_token.on_event(LogLevel::Error, "app", "boom").gotify.is_none());
    let no_url = NotifyLayer::new("/", "tok", "", "");
    assert!(!no_url.gotify_enabled());
    assert!(!no_url.ntfy_enabled());
}

#[test]
fn gotify_message_for_a_warning() {
    let layer = NotifyLayer::new("https://g/", "abc", "", "");
    let r = layer.on_event(LogLevel::Warn, "downloader", "message: retry");
    let g = r.gotify.expect("gotify is enabled");
    assert!(r.ntfy.is_none());
    assert_eq!(g.url, "https://g/message?token=abc");
    assert_eq!(
        pairs(&g.form),
        vec![("title", "[WARN] downloader"), ("message", "message: retry"), ("priority", "7")]
    );
}

#[test]
fn ntfy_message_with_and_without_token() {
    let public = NotifyLayer::new("", "", "https://ntfy.sh/t", "");
    let n = public.on_event(LogLevel::Error, "app", "boom").ntfy.expect("ntfy is enabled");
    assert_eq!(n.url, "https://ntfy.sh/t");
    assert_eq!(pairs(&n.headers), vec![("Title", "[ERROR] app"), ("Priority", "5")]);
    assert_eq!(n.body, "boom");

    let private = NotifyLayer::new("", "", "https://ntfy.sh/t", "secret");
    let n = private.on_event(LogLevel::Info, "app", "done").ntfy.expect("ntfy is enabled");
    assert_eq!(
        pairs(&n.headers),
        vec![("Title", "[INFO] app"), ("Priority", "3"), ("Authorization", "Bearer secret")]
    );
}

#[test]
fn priorities() {
    assert_eq!(NotifyLayer::gotify_priority(LogLevel::Error), 10);
    assert_eq!(NotifyLayer::gotify_priority(LogLevel::Info), 5);
    assert_eq!(NotifyLayer::gotify_priority(LogLevel::Trace), 0);
    assert_eq!(NotifyLayer::ntfy_priority(LogLevel::Warn), 4);
    assert_eq!(NotifyLayer::ntfy_priority(LogLevel::Debug), 2);
    assert_eq!(NotifyLayer::ntfy_priority(LogLevel::Trace), 1);
    assert_eq!(GotifyLayer::level_to_priority(LogLevel::Warn), 7);
    assert_eq!(GotifyLayer::level_to_priority(LogLevel::Debug), 2);
}

#[test]
fn gotify_layer_pushes_info_and_above() {
    let layer = GotifyLayer::new("https://g///", "t");
    assert_eq!(layer.gotify_url, "https://g");
    assert!(layer.on_event(LogLevel::Debug, "x", "m").is_none());
    let g = layer.on_event(LogLevel::Error, "x", "m").expect("errors are pushed");
    assert_eq!(g.url, "https://g/message?token=t");
    assert_eq!(pairs(&g.form), vec![("title", "[ERROR] x"), ("message", "m"), ("priority", "10")]);
}

#[test]
fn fields_are_joined_with_commas() {
    let mut v = StringVisitor::new();
    assert_eq!(v.0, "");
    v.record_str("message", "Saved");
    assert_eq!(v.0, "message: Saved");
    v.record_str("rows", "24");
    v.record_str("path", "\"a.ipc\"");
    assert_eq!(v.0, "message: Saved, rows: 24, path: \"a.ipc\"");
}

#[test]
fn gotify_layer_skips_without_url_or_token() {
    let no_url = GotifyLayer::new("", "tok");
    assert!(!no_url.enabled());
    assert!(no_url.on_event(LogLevel::Error, "app", "boom").is_none());
    let slash_only = GotifyLayer::new("///", "tok");
    assert!(slash_only.on_event(LogLevel::Info, "app", "done").is_none());
    let no_token = GotifyLayer::new("https://g", "");
    assert!(no_token.on_event(LogLevel::Warn, "app", "careful").is_none());
}
