//! A Gotify-only notifier: every event at INFO or above is pushed to Gotify
//! when its URL and token are set.

use vstd::prelude::*;

use crate::notify::{
    event_title, gotify_form, gotify_message, gotify_message_url, gotify_priority_of, is_pushed,
    pairs_view, title_of, GotifyRequest, LogLevel, NotifyLayer,
};
use crate::text::{trim_end_slashes, trimmed_end_slashes};

verus! {

/// Gotify settings; the URL is kept without trailing slashes.
pub struct GotifyLayer {
    pub gotify_url: String,
    pub gotify_token: String,
}

impl GotifyLayer {
    /// Settings from the configuration; trailing slashes of the URL are
    /// dropped.
    pub fn new(gotify_url: &str, gotify_token: &str) -> (r: Self)
        ensures
            r.gotify_url@ == trimmed_end_slashes(gotify_url@),
            r.gotify_token@ == gotify_token@,
    {
        GotifyLayer {
            gotify_url: trim_end_slashes(gotify_url),
            gotify_token: String::from_str(gotify_token),
        }
    }

    /// Gotify is used when both its URL and its token are set.
    pub open spec fn spec_enabled(&self) -> bool {
        self.gotify_url@.len() > 0 && self.gotify_token@.len() > 0
    }

    /// Whether Gotify is used.
    pub fn enabled(&self) -> (r: bool)
        ensures
            r == self.spec_enabled(),
    {
        self.gotify_url.as_str().unicode_len() != 0 && self.gotify_token.as_str().unicode_len() != 0
    }

    /// Gotify priority: 10, 7, 5, 2, 0 from ERROR to TRACE.
    pub fn level_to_priority(level: LogLevel) -> (r: u8)
        ensures
            r == gotify_priority_of(level),
    {
        NotifyLayer::gotify_priority(level)
    }

    /// The request for one log event: none below INFO or when the URL or the
    /// token is empty, otherwise the Gotify message titled `[LEVEL] target`.
    pub fn on_event(&self, level: LogLevel, target: &str, message: &str) -> (r: Option<
        GotifyRequest,
    >)
        ensures
            r is Some <==> is_pushed(level) && self.spec_enabled(),
            r matches Some(g) ==> g.url@ == gotify_message_url(self.gotify_url@, self.gotify_token@)
                && pairs_view(g.form@) == gotify_form(
                event_title(level, target@),
                message@,
                gotify_priority_of(level),
            ),
    {
        let pushed = match level {
            LogLevel::Error | LogLevel::Warn | LogLevel::Info => true,
            _ => false,
        };
        if !pushed || !self.enabled() {
            return None;
        }
        let title = title_of(level, target);
        Some(
            gotify_message(
                self.gotify_url.as_str(),
                self.gotify_token.as_str(),
                title.as_str(),
                message,
                Self::level_to_priority(level),
            ),
        )
    }
}

} // verus!
