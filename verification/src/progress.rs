use std::time::{Duration, Instant};

use vstd::prelude::*;

use crate::text::{chars_of, decimal, decimal_chars, push_chars};

verus! {

#[verifier::external_type_specification]
#[verifier::external_body]
pub struct ExInstant(std::time::Instant);

/// The current time, from `Instant::now`. Nothing is claimed of it.
#[verifier::external_body]
fn instant_now() -> Instant {
    Instant::now()
}

/// The time passed since `t`, from `Instant::elapsed`. Nothing is claimed
/// of it: it depends on the clock.
#[verifier::external_body]
fn elapsed_since(t: &Instant) -> Duration {
    t.elapsed()
}

/// The whole milliseconds of a duration, from `Duration::as_millis`. Nothing
/// is claimed of the value: the duration is opaque here.
#[verifier::external_body]
fn whole_millis(d: &Duration) -> u128 {
    d.as_millis()
}

/// How long, in milliseconds, the reporter waits between two progress lines.
pub const REPORT_INTERVAL_MS: u128 = 1000;

/// The total size as the progress line shows it: the number of bytes, or
/// "{unknown}" when the server did not tell it.
pub open spec fn max_text(max_progress: Option<u64>) -> Seq<char> {
    match max_progress {
        Some(bytes) => decimal(bytes as nat),
        None => "{unknown}"@,
    }
}

/// The progress line printed during a download.
pub open spec fn progress_line(current: u64, max_progress: Option<u64>, message: Seq<char>) -> Seq<
    char,
> {
    "tdownloader: "@ + decimal(current as nat) + " of "@ + max_text(max_progress) + " bytes. ["@
        + message + "]"@
}

/// The line printed when the downloader changes its message.
pub open spec fn message_line(message: Seq<char>) -> Seq<char> {
    "downloader: Message changed to: "@ + message
}

/// The progress line, or nothing when less than a second passed since the
/// last one was printed.
pub fn progress_report(current: u64, max_progress: Option<u64>, message: &str, elapsed_ms: u128) -> (r:
    Option<String>)
    ensures
        r is Some <==> elapsed_ms >= REPORT_INTERVAL_MS,
        r matches Some(line) ==> line@ == progress_line(current, max_progress, message@),
{
    if elapsed_ms < REPORT_INTERVAL_MS {
        return None;
    }
    let mut line = String::new();
    push_chars(&mut line, &chars_of("tdownloader: "));
    push_chars(&mut line, &decimal_chars(current));
    push_chars(&mut line, &chars_of(" of "));
    match max_progress {
        Some(bytes) => push_chars(&mut line, &decimal_chars(bytes)),
        None => push_chars(&mut line, &chars_of("{unknown}")),
    }
    push_chars(&mut line, &chars_of(" bytes. ["));
    push_chars(&mut line, &chars_of(message));
    push_chars(&mut line, &chars_of("]"));
    Some(line)
}

/// What the reporter remembers of the download under way.
pub struct SimpleReporterPrivate {
    /// When the last progress line was printed, or the download set up.
    last_update: Instant,
    /// The size of the download, when it is known.
    max_progress: Option<u64>,
    /// The downloader's message for the download.
    message: String,
}

/// Reports the progress of a download, at most once a second.
pub struct SimpleReporter {
    private: Option<SimpleReporterPrivate>,
}

impl View for SimpleReporter {
    /// The size and message of the download under way, if one is set up.
    type V = Option<(Option<u64>, Seq<char>)>;

    closed spec fn view(&self) -> Option<(Option<u64>, Seq<char>)> {
        match self.private {
            Some(p) => Some((p.max_progress, p.message@)),
            None => None,
        }
    }
}

impl SimpleReporter {
    /// A reporter with no download set up.
    pub fn create() -> (r: Self)
        ensures
            r@ is None,
    {
        SimpleReporter { private: None }
    }

    /// Starts reporting a download of the given size and message; the
    /// clock of the reporter starts now.
    pub fn setup(&mut self, max_progress: Option<u64>, message: &str)
        ensures
            final(self)@ == Some((max_progress, message@)),
    {
        self.private = Some(
            SimpleReporterPrivate {
                last_update: instant_now(),
                max_progress,
                message: message.to_owned(),
            },
        );
    }

    /// The progress line to print for `current` bytes, if a download is set
    /// up and a second has passed since the last line; its clock then starts
    /// again. Which of the two happens depends on the clock. When no line is
    /// due, the reporter, its clock included, is left as it was.
    pub fn progress(&mut self, current: u64) -> (r: Option<String>)
        ensures
            final(self)@ == old(self)@,
            r is None ==> *final(self) == *old(self),
            old(self)@ is None ==> r is None,
            r matches Some(line) ==> (old(self)@ matches Some((max, message)) && line@
                == progress_line(current, max, message)),
    {
        match &mut self.private {
            Some(p) => {
                let waited = whole_millis(&elapsed_since(&p.last_update));
                let r = progress_report(current, p.max_progress, p.message.as_str(), waited);
                if r.is_some() {
                    p.last_update = instant_now();
                }
                r
            },
            None => None,
        }
    }

    /// The line to print when the downloader changes its message; the
    /// reporter itself is left as it is.
    pub fn set_message(&self, message: &str) -> (r: String)
        ensures
            r@ == message_line(message@),
    {
        let mut line = String::new();
        push_chars(&mut line, &chars_of("downloader: Message changed to: "));
        push_chars(&mut line, &chars_of(message));
        line
    }

    /// Ends the report of the download under way.
    pub fn done(&mut self)
        ensures
            final(self)@ is None,
    {
        self.private = None;
    }
}

} // verus!
