//! Push notifications of log events to Gotify and Ntfy: which events are
//! pushed, to which services, with which priority, and the requests sent.

use vstd::prelude::*;

use crate::text::{decimal, push_decimal, trim_end_slashes, trimmed_end_slashes};

verus! {

/// The level of a log event, most severe first.
#[derive(Clone, Copy, Debug, PartialEq, Eq, Structural)]
pub enum LogLevel {
    Error,
    Warn,
    Info,
    Debug,
    Trace,
}

/// The level as the log shows it.
pub open spec fn level_name(level: LogLevel) -> Seq<char> {
    match level {
        LogLevel::Error => "ERROR"@,
        LogLevel::Warn => "WARN"@,
        LogLevel::Info => "INFO"@,
        LogLevel::Debug => "DEBUG"@,
        LogLevel::Trace => "TRACE"@,
    }
}

/// Severity rank: 4 for errors down to 0 for traces.
pub open spec fn severity(level: LogLevel) -> int {
    match level {
        LogLevel::Error => 4,
        LogLevel::Warn => 3,
        LogLevel::Info => 2,
        LogLevel::Debug => 1,
        LogLevel::Trace => 0,
    }
}

/// Events at INFO or above are pushed.
pub open spec fn is_pushed(level: LogLevel) -> bool {
    severity(level) >= 2
}

/// Gotify priority of a level.
pub open spec fn gotify_priority_of(level: LogLevel) -> u8 {
    match level {
        LogLevel::Error => 10,
        LogLevel::Warn => 7,
        LogLevel::Info => 5,
        LogLevel::Debug => 2,
        LogLevel::Trace => 0,
    }
}

/// Ntfy priority of a level.
pub open spec fn ntfy_priority_of(level: LogLevel) -> u8 {
    match level {
        LogLevel::Error => 5,
        LogLevel::Warn => 4,
        LogLevel::Info => 3,
        LogLevel::Debug => 2,
        LogLevel::Trace => 1,
    }
}

/// Title of a pushed event: `[LEVEL] target`.
pub open spec fn event_title(level: LogLevel, target: Seq<char>) -> Seq<char> {
    "["@ + level_name(level) + "] "@ + target
}

/// Texts of (name, value) pairs.
pub open spec fn pairs_view(v: Seq<(String, String)>) -> Seq<(Seq<char>, Seq<char>)> {
    v.map_values(|p: (String, String)| (p.0@, p.1@))
}

/// A form POST to Gotify's message endpoint.
#[derive(Debug)]
pub struct GotifyRequest {
    pub url: String,
    /// The form fields, in order.
    pub form: Vec<(String, String)>,
}

/// A POST to an Ntfy topic.
#[derive(Debug)]
pub struct NtfyRequest {
    pub url: String,
    /// The headers, in order.
    pub headers: Vec<(String, String)>,
    pub body: String,
}

/// Gotify's message endpoint for a server and an application token.
pub open spec fn gotify_message_url(server: Seq<char>, token: Seq<char>) -> Seq<char> {
    server + "/message?token="@ + token
}

/// The form of a Gotify message.
pub open spec fn gotify_form(title: Seq<char>, message: Seq<char>, priority: u8) -> Seq<
    (Seq<char>, Seq<char>),
> {
    seq![("title"@, title), ("message"@, message), ("priority"@, decimal(priority as nat))]
}

/// The headers of an Ntfy message: title, priority, and a bearer token
/// where one is configured.
pub open spec fn ntfy_headers(title: Seq<char>, priority: u8, token: Seq<char>) -> Seq<
    (Seq<char>, Seq<char>),
> {
    let base = seq![("Title"@, title), ("Priority"@, decimal(priority as nat))];
    if token.len() == 0 {
        base
    } else {
        base.push(("Authorization"@, "Bearer "@ + token))
    }
}

/// The Gotify message for a server, token, title, text and priority.
pub fn gotify_message(server: &str, token: &str, title: &str, message: &str, priority: u8) -> (r:
    GotifyRequest)
    ensures
        r.url@ == gotify_message_url(server@, token@),
        pairs_view(r.form@) == gotify_form(title@, message@, priority),
{
    let mut url = String::from_str(server);
    url.append("/message?token=");
    url.append(token);
    assert(url@ =~= gotify_message_url(server@, token@));
    let mut level = String::new();
    push_decimal(&mut level, priority as u64);
    let mut form: Vec<(String, String)> = Vec::new();
    form.push((String::from_str("title"), String::from_str(title)));
    form.push((String::from_str("message"), String::from_str(message)));
    form.push((String::from_str("priority"), level));
    assert(pairs_view(form@) =~= gotify_form(title@, message@, priority));
    GotifyRequest { url, form }
}

/// The title of a pushed event.
pub fn title_of(level: LogLevel, target: &str) -> (r: String)
    ensures
        r@ == event_title(level, target@),
{
    let mut s = String::from_str("[");
    match level {
        LogLevel::Error => s.append("ERROR"),
        LogLevel::Warn => s.append("WARN"),
        LogLevel::Info => s.append("INFO"),
        LogLevel::Debug => s.append("DEBUG"),
        LogLevel::Trace => s.append("TRACE"),
    }
    s.append("] ");
    s.append(target);
    assert(s@ =~= event_title(level, target@));
    s
}

/// Notification settings: Gotify when both its URL and token are set, Ntfy
/// when its URL is set. URLs are kept without trailing slashes.
pub struct NotifyLayer {
    pub gotify_url: String,
    pub gotify_token: String,
    pub ntfy_url: String,
    pub ntfy_token: String,
}

/// The requests that one log event causes.
#[derive(Debug)]
pub struct Notifications {
    pub gotify: Option<GotifyRequest>,
    pub ntfy: Option<NtfyRequest>,
}

impl NotifyLayer {
    /// Settings from the configuration; trailing slashes of the URLs are
    /// dropped.
    pub fn new(gotify_url: &str, gotify_token: &str, ntfy_url: &str, ntfy_token: &str) -> (r: Self)
        ensures
            r.gotify_url@ == trimmed_end_slashes(gotify_url@),
            r.gotify_token@ == gotify_token@,
            r.ntfy_url@ == trimmed_end_slashes(ntfy_url@),
            r.ntfy_token@ == ntfy_token@,
    {
        NotifyLayer {
            gotify_url: trim_end_slashes(gotify_url),
            gotify_token: String::from_str(gotify_token),
            ntfy_url: trim_end_slashes(ntfy_url),
            ntfy_token: String::from_str(ntfy_token),
        }
    }

    /// Gotify is used when both its URL and its token are set.
    pub open spec fn spec_gotify_enabled(&self) -> bool {
        self.gotify_url@.len() > 0 && self.gotify_token@.len() > 0
    }

    /// Ntfy is used when its URL is set.
    pub open spec fn spec_ntfy_enabled(&self) -> bool {
        self.ntfy_url@.len() > 0
    }

    /// Whether Gotify is used.
    pub fn gotify_enabled(&self) -> (r: bool)
        ensures
            r == self.spec_gotify_enabled(),
    {
        self.gotify_url.as_str().unicode_len() != 0 && self.gotify_token.as_str().unicode_len() != 0
    }

    /// Whether Ntfy is used.
    pub fn ntfy_enabled(&self) -> (r: bool)
        ensures
            r == self.spec_ntfy_enabled(),
    {
        self.ntfy_url.as_str().unicode_len() != 0
    }

    /// Gotify priority: 10, 7, 5, 2, 0 from ERROR to TRACE.
    pub fn gotify_priority(level: LogLevel) -> (r: u8)
        ensures
            r == gotify_priority_of(level),
    {
        match level {
            LogLevel::Error => 10,
            LogLevel::Warn => 7,
            LogLevel::Info => 5,
            LogLevel::Debug => 2,
            LogLevel::Trace => 0,
        }
    }

    /// Ntfy priority: 5, 4, 3, 2, 1 from ERROR to TRACE.
    pub fn ntfy_priority(level: LogLevel) -> (r: u8)
        ensures
            r == ntfy_priority_of(level),
    {
        match level {
            LogLevel::Error => 5,
            LogLevel::Warn => 4,
            LogLevel::Info => 3,
            LogLevel::Debug => 2,
            LogLevel::Trace => 1,
        }
    }

    /// The Gotify request for a message.
    pub fn gotify_request(&self, title: &str, message: &str, priority: u8) -> (r: GotifyRequest)
        ensures
            r.url@ == gotify_message_url(self.gotify_url@, self.gotify_token@),
            pairs_view(r.form@) == gotify_form(title@, message@, priority),
    {
        gotify_message(self.gotify_url.as_str(), self.gotify_token.as_str(), title, message, priority)
    }

    /// The Ntfy request for a message.
    pub fn ntfy_request(&self, title: &str, message: &str, priority: u8) -> (r: NtfyRequest)
        ensures
            r.url@ == self.ntfy_url@,
            pairs_view(r.headers@) == ntfy_headers(title@, priority, self.ntfy_token@),
            r.body@ == message@,
    {
        let mut level = String::new();
        push_decimal(&mut level, priority as u64);
        let mut headers: Vec<(String, String)> = Vec::new();
        headers.push((String::from_str("Title"), String::from_str(title)));
        headers.push((String::from_str("Priority"), level));
        if self.ntfy_token.as_str().unicode_len() != 0 {
            let mut bearer = String::from_str("Bearer ");
            bearer.append(self.ntfy_token.as_str());
            headers.push((String::from_str("Authorization"), bearer));
        }
        assert(pairs_view(headers@) =~= ntfy_headers(title@, priority, self.ntfy_token@));
        NtfyRequest { url: self.ntfy_url.clone(), headers, body: String::from_str(message) }
    }

    /// The requests for one log event of `target` whose fields read
    /// `message`: none below INFO; otherwise one to each enabled service,
    /// titled `[LEVEL] target`.
    pub fn on_event(&self, level: LogLevel, target: &str, message: &str) -> (r: Notifications)
        ensures
            r.gotify is Some <==> is_pushed(level) && self.spec_gotify_enabled(),
            r.ntfy is Some <==> is_pushed(level) && self.spec_ntfy_enabled(),
            r.gotify matches Some(g) ==> g.url@ == gotify_message_url(
                self.gotify_url@,
                self.gotify_token@,
            ) && pairs_view(g.form@) == gotify_form(
                event_title(level, target@),
                message@,
                gotify_priority_of(level),
            ),
            r.ntfy matches Some(n) ==> n.url@ == self.ntfy_url@ && pairs_view(n.headers@)
                == ntfy_headers(event_title(level, target@), ntfy_priority_of(level), self.ntfy_token@)
                && n.body@ == message@,
    {
        let pushed = match level {
            LogLevel::Error | LogLevel::Warn | LogLevel::Info => true,
            _ => false,
        };
        if !pushed {
            return Notifications { gotify: None, ntfy: None };
        }
        let title = title_of(level, target);
        let gotify = if self.gotify_enabled() {
            Some(self.gotify_request(title.as_str(), message, Self::gotify_priority(level)))
        } else {
            None
        };
        let ntfy = if self.ntfy_enabled() {
            Some(self.ntfy_request(title.as_str(), message, Self::ntfy_priority(level)))
        } else {
            None
        };
        Notifications { gotify, ntfy }
    }
}

/// More severe events never get a lower priority, on either service; Gotify
/// priorities lie in 0..=10 and Ntfy priorities in 1..=5.
pub proof fn lemma_priority_follows_severity(a: LogLevel, b: LogLevel)
    ensures
        severity(a) <= severity(b) ==> gotify_priority_of(a) <= gotify_priority_of(b),
        severity(a) <= severity(b) ==> ntfy_priority_of(a) <= ntfy_priority_of(b),
        gotify_priority_of(a) <= 10,
        1 <= ntfy_priority_of(a) <= 5,
{
}

/// Configured URLs end without a slash, and dropping trailing slashes again
/// changes nothing.
pub proof fn lemma_trimmed_url(s: Seq<char>)
    ensures
        trimmed_end_slashes(s).len() > 0 ==> trimmed_end_slashes(s).last() != '/',
        trimmed_end_slashes(trimmed_end_slashes(s)) == trimmed_end_slashes(s),
        trimmed_end_slashes(s).is_prefix_of(s),
    decreases s.len(),
{
    if s.len() > 0 && s.last() == '/' {
        lemma_trimmed_url(s.drop_last());
        assert(trimmed_end_slashes(s) == trimmed_end_slashes(s.drop_last()));
        let t = trimmed_end_slashes(s);
        assert(t.is_prefix_of(s.drop_last()));
        assert(s.drop_last().subrange(0, t.len() as int) =~= s.subrange(0, t.len() as int));
    } else {
        assert(s.subrange(0, s.len() as int) =~= s);
    }
}

} // verus!
