//! The messages sent to the operator: a warning's status for a city, and
//! events of the service itself.
use crate::config::Config;
use crate::timestamp::Timestamp;
use std::fmt::Write;
use vstd::prelude::*;

verus! {

/// Japan Standard Time, in seconds east of UTC.
pub const JST_OFFSET_SECS: i32 = 32400;

/// The page linked when no page is known for the city.
pub const DEFAULT_URL: &'static str = "https://www.jma.go.jp/bosai/warning/#lang=ja";

/// How dates are written in messages.
pub const DATE_PATTERN: &'static str = "%Y/%m/%d %H:%M:%S";

/// What chrono writes for an instant, taken at a fixed offset east of UTC,
/// with a strftime pattern; none when the instant is out of chrono's range
/// or the pattern cannot be written.
pub uninterp spec fn local_text(t: Timestamp, offset_secs: int, pattern: Seq<char>) -> Option<Seq<char>>;

pub open spec fn opt_chars(o: Option<String>) -> Option<Seq<char>> {
    match o {
        Some(s) => Some(s@),
        None => None,
    }
}

/// Relies on chrono's `DateTime::from_timestamp`, `FixedOffset::east_opt`,
/// `DateTime::with_timezone` and `DateTime::format`: the instant written with
/// the pattern at the offset, none when chrono cannot write it.
#[verifier::external_body]
fn format_local(t: Timestamp, offset_secs: i32, pattern: &str) -> (r: Option<String>)
    requires
        -86400 < offset_secs < 86400,
    ensures
        opt_chars(r) == local_text(t, offset_secs as int, pattern@),
{
    let zone = chrono::FixedOffset::east_opt(offset_secs).unwrap();
    let local = chrono::DateTime::from_timestamp(t.secs, t.nanos)?.with_timezone(&zone);
    let mut text = String::new();
    write!(text, "{}", local.format(pattern)).ok()?;
    Some(text)
}

/// What a message writes for an instant: Japan Standard Time as
/// `YYYY/MM/DD HH:MM:SS`.
pub open spec fn jst_date(t: Timestamp) -> Option<Seq<char>> {
    local_text(t, JST_OFFSET_SECS as int, DATE_PATTERN@)
}

/// An instant in Japan Standard Time as `YYYY/MM/DD HH:MM:SS`, or none when
/// chrono cannot write it.
pub fn jst_text(t: Timestamp) -> (r: Option<String>)
    ensures
        opt_chars(r) == jst_date(t),
{
    format_local(t, JST_OFFSET_SECS, DATE_PATTERN)
}

/// A message for the operator.
#[derive(Clone, Debug)]
pub struct EmailMessage {
    pub subject: String,
    pub body: String,
}

/// The subject prefix that marks a message sent while testing.
pub open spec fn test_prefix(test_mode: bool) -> Seq<char> {
    if test_mode {
        "test:"@
    } else {
        Seq::empty()
    }
}

pub open spec fn opt_str(o: Option<&str>) -> Option<Seq<char>> {
    match o {
        Some(s) => Some(s@),
        None => None,
    }
}

/// The subject of a warning message: `city:kind:status`.
pub open spec fn warning_subject(city: Seq<char>, kind: Seq<char>, status: Seq<char>, test_mode: bool) -> Seq<char> {
    test_prefix(test_mode) + city + ":"@ + kind + ":"@ + status
}

/// The body of a warning message. The link names the city when a page of
/// its own is given, the whole country otherwise.
pub open spec fn warning_body(
    lmo: Seq<char>,
    date: Seq<char>,
    city: Seq<char>,
    kind: Seq<char>,
    status: Seq<char>,
    jma_url: Option<Seq<char>>,
) -> Seq<char> {
    "LWO:"@ + lmo + "\nDATE:"@ + date + "\nCITY:"@ + city + "\nWARN:"@ + kind + "\nSTAT:"@ + status
        + "\nLINK:気象庁｜"@ + match jma_url {
        Some(_) => city,
        None => "全国"@,
    } + "の警報・注意報\nURL:"@ + match jma_url {
        Some(u) => u,
        None => DEFAULT_URL@,
    } + "\nEND"@
}

pub open spec fn system_subject(event: Seq<char>, test_mode: bool) -> Seq<char> {
    test_prefix(test_mode) + "weather-checker: "@ + event
}

pub open spec fn system_body(event: Seq<char>, date: Seq<char>, details: Seq<char>) -> Seq<char> {
    "EVENT:"@ + event + "\nDATE:"@ + date + "\nDETAILS:"@ + details + "\nEND"@
}

fn subject_start(test_mode: bool) -> (r: String)
    ensures
        r@ == test_prefix(test_mode),
{
    if test_mode {
        String::from_str("test:")
    } else {
        String::new()
    }
}

/// Composes the messages sent to the operator.
pub struct EmailNotifier {
    config: Config,
}

impl EmailNotifier {
    /// The settings the notifier sends with.
    pub closed spec fn settings(&self) -> Config {
        self.config
    }

    pub fn new(config: Config) -> (r: EmailNotifier)
        ensures
            r.settings() == config,
    {
        EmailNotifier { config }
    }

    /// The settings the notifier sends with.
    pub fn config(&self) -> (r: &Config)
        ensures
            *r == self.settings(),
    {
        &self.config
    }

    /// The message telling the status of a warning kind in a city, dated
    /// by the bulletin's control time in Japan Standard Time. None when that
    /// time is out of chrono's range.
    pub fn warning_message(
        &self,
        city: &str,
        warning_kind: &str,
        status: &str,
        lmo: &str,
        jma_url: Option<&str>,
        control_datetime: Timestamp,
        test_mode: bool,
    ) -> (r: Option<EmailMessage>)
        ensures
            match r {
                Some(m) => jst_date(control_datetime) matches Some(d) && m.subject@ == warning_subject(
                    city@,
                    warning_kind@,
                    status@,
                    test_mode,
                ) && m.body@ == warning_body(lmo@, d, city@, warning_kind@, status@, opt_str(jma_url)),
                None => jst_date(control_datetime) is None,
            },
    {
        let date = match jst_text(control_datetime) {
            Some(d) => d,
            None => {
                return None;
            },
        };
        let mut subject = subject_start(test_mode);
        subject.append(city);
        subject.append(":");
        subject.append(warning_kind);
        subject.append(":");
        subject.append(status);
        let mut body = String::from_str("LWO:");
        body.append(lmo);
        body.append("\nDATE:");
        body.append(date.as_str());
        body.append("\nCITY:");
        body.append(city);
        body.append("\nWARN:");
        body.append(warning_kind);
        body.append("\nSTAT:");
        body.append(status);
        body.append("\nLINK:気象庁｜");
        match jma_url {
            Some(_) => body.append(city),
            None => body.append("全国"),
        }
        body.append("の警報・注意報\nURL:");
        match jma_url {
            Some(u) => body.append(u),
            None => body.append(DEFAULT_URL),
        }
        body.append("\nEND");
        Some(EmailMessage { subject, body })
    }

    /// The message telling an event of the service, dated `now` in Japan
    /// Standard Time. None when that time is out of chrono's range.
    pub fn system_message(&self, event: &str, details: &str, now: Timestamp, test_mode: bool) -> (r: Option<
        EmailMessage,
    >)
        ensures
            match r {
                Some(m) => jst_date(now) matches Some(d) && m.subject@ == system_subject(event@, test_mode)
                    && m.body@ == system_body(event@, d, details@),
                None => jst_date(now) is None,
            },
    {
        let date = match jst_text(now) {
            Some(d) => d,
            None => {
                return None;
            },
        };
        let mut subject = subject_start(test_mode);
        subject.append("weather-checker: ");
        subject.append(event);
        let mut body = String::from_str("EVENT:");
        body.append(event);
        body.append("\nDATE:");
        body.append(date.as_str());
        body.append("\nDETAILS:");
        body.append(details);
        body.append("\nEND");
        Some(EmailMessage { subject, body })
    }
}

} // verus!
