//! The notification service: what is sent to it, and how its refusal is told.

use crate::config::{Config, Settings};
use crate::error::{AppError, ErrorKind, Failure};
use crate::status::{body_read, refusal, refusal_text, status_display, HttpStatus};
use crate::text::{
    all_digits, chars_of, first_line, first_line_of, range_all_digits, truncate, truncated,
};
use vstd::prelude::*;

verus! {

/// The address of the notification service, to which the channel is added.
pub const NTFY_URL: &'static str = "https://ntfy.sh/";

/// The tags that every notification carries.
pub const TAGS: &'static str = "brain,puzzle";

/// The most characters that a title may have.
pub const TITLE_LIMIT: usize = 100;

/// One notification, as it is handed to the service.
#[derive(Debug, Clone, PartialEq, Eq)]
pub struct NotificationRequest {
    /// The address of the channel.
    pub url: String,
    /// The title, of at most `TITLE_LIMIT` characters.
    pub title: String,
    /// The tags.
    pub tags: String,
    /// The whole message.
    pub body: String,
    /// How long the service is to wait before it delivers, if it is to wait.
    pub delay: Option<String>,
}

/// The mathematical value of a `NotificationRequest`.
pub struct Notification {
    pub url: Seq<char>,
    pub title: Seq<char>,
    pub tags: Seq<char>,
    pub body: Seq<char>,
    pub delay: Option<Seq<char>>,
}

impl View for NotificationRequest {
    type V = Notification;

    open spec fn view(&self) -> Notification {
        Notification {
            url: self.url@,
            title: self.title@,
            tags: self.tags@,
            body: self.body@,
            delay: match self.delay {
                Some(d) => Some(d@),
                None => None,
            },
        }
    }
}

/// The title of a message: the prefix and the first line of the message,
/// cut to the first `TITLE_LIMIT` characters.
pub open spec fn title_of(prefix: Seq<char>, body: Seq<char>) -> Seq<char> {
    truncate(prefix + first_line(body), TITLE_LIMIT as nat)
}

/// Whether `c` names a unit of time: seconds, minutes, hours or days.
pub open spec fn time_unit(c: char) -> bool {
    c == 's' || c == 'm' || c == 'h' || c == 'd'
}

/// Whether `d` is a delay: decimal digits, at least one, and one unit behind them.
pub open spec fn valid_delay(d: Seq<char>) -> bool {
    d.len() >= 2 && all_digits(d.drop_last()) && time_unit(d.last())
}

/// The delay that is handed on: the one asked for where it is valid, none otherwise.
pub open spec fn forwarded_delay(delay: Option<Seq<char>>) -> Option<Seq<char>> {
    match delay {
        Some(d) => if valid_delay(d) {
            Some(d)
        } else {
            None
        },
        None => None,
    }
}

/// The address of the channel `topic`.
pub open spec fn channel_address(topic: Seq<char>) -> Seq<char> {
    NTFY_URL@ + topic
}

/// The notification that carries `body` under a title that opens with `prefix`.
pub open spec fn notification(
    settings: Settings,
    prefix: Seq<char>,
    body: Seq<char>,
    delay: Option<Seq<char>>,
) -> Notification {
    Notification {
        url: channel_address(settings.ntfy_topic),
        title: title_of(prefix, body),
        tags: TAGS@,
        body,
        delay: forwarded_delay(delay),
    }
}

/// The value of a delay that may be absent.
pub open spec fn asked_delay(delay: Option<&str>) -> Option<Seq<char>> {
    match delay {
        Some(d) => Some(d@),
        None => None,
    }
}

/// The title of a message.
pub fn notification_title(title_prefix: &str, message_body: &str) -> (title: String)
    ensures
        title@ == title_of(title_prefix@, message_body@),
        title@.len() <= TITLE_LIMIT,
        (title_prefix@ + first_line(message_body@)).len() > TITLE_LIMIT ==> title@ == (title_prefix@
            + first_line(message_body@)).take(TITLE_LIMIT as int),
        (title_prefix@ + first_line(message_body@)).len() <= TITLE_LIMIT ==> title@ == title_prefix@
            + first_line(message_body@),
{
    let mut whole = title_prefix.to_owned();
    whole.append(first_line_of(message_body).as_str());
    truncated(whole.as_str(), TITLE_LIMIT)
}

/// Whether `d` is a delay that the service is handed.
pub fn is_valid_delay(d: &str) -> (r: bool)
    ensures
        r == valid_delay(d@),
{
    let v = chars_of(d);
    let n: usize = v.len();
    if n < 2 {
        return false;
    }
    let unit = v[n - 1];
    assert(v@.subrange(0, n - 1) =~= v@.drop_last());
    (unit == 's' || unit == 'm' || unit == 'h' || unit == 'd') && range_all_digits(&v, 0, n - 1)
}

/// The delay that is handed on to the service.
pub fn effective_delay(delay: Option<&str>) -> (r: Option<String>)
    ensures
        body_read(r) == forwarded_delay(asked_delay(delay)),
{
    match delay {
        Some(d) => {
            if is_valid_delay(d) {
                Some(d.to_owned())
            } else {
                None
            }
        },
        None => None,
    }
}

/// Makes the notification that carries `message_body` under a title that
/// opens with `title_prefix`. A delay that is not valid is left out, and the
/// notification is then delivered at once.
pub fn send_notification(
    config: &Config,
    title_prefix: &str,
    message_body: &str,
    delay: Option<&str>,
) -> (r: NotificationRequest)
    ensures
        r@ == notification(config@, title_prefix@, message_body@, asked_delay(delay)),
        r@.title.len() <= TITLE_LIMIT,
        r@.body == message_body@,
{
    let mut url = NTFY_URL.to_owned();
    url.append(config.ntfy_topic.as_str());
    NotificationRequest {
        url,
        title: notification_title(title_prefix, message_body),
        tags: TAGS.to_owned(),
        body: message_body.to_owned(),
        delay: effective_delay(delay),
    }
}

/// The failure of a notification that the service answered with the status
/// numbered `code` and with `body`.
pub open spec fn notification_refused(code: u16, body: Option<Seq<char>>) -> Failure {
    Failure {
        kind: ErrorKind::Ntfy,
        detail: refusal("Notification request failed with status "@, status_display(code), body),
    }
}

/// The failure of a notification that the service answered without success.
pub fn notification_failure(status: &HttpStatus, body: &Option<String>) -> (e: AppError)
    ensures
        e@ == notification_refused(status.code(), body_read(*body)),
{
    let described = status.describe();
    AppError::Ntfy(
        refusal_text("Notification request failed with status ", described.as_str(), body),
    )
}

} // verus!
