use fermi_notifier::config::Config;
use fermi_notifier::error::AppError;
use fermi_notifier::ntfy::{
    effective_delay, is_valid_delay, notification_failure, notification_title, send_notification,
    NotificationRequest, NTFY_URL, TAGS, TITLE_LIMIT,
};
use fermi_notifier::status::HttpStatus;

fn config() -> Config {
    Config { gemini_api_key: "k".to_string(), ntfy_topic: "fermi-daily".to_string(), port: 8080 }
}

#[test]
fn title_is_prefix_and_first_line() {
    assert_eq!(notification_title("Problem: ", "How many?\nThink."), "Problem: How many?");
    assert_eq!(notification_title("Solution: ", "  Step 1...  \nStep 2"), "Solution: Step 1...");
    assert_eq!(notification_title("Problem: ", "one line only "), "Problem: one line only");
}

#[test]
fn title_of_an_empty_message_is_the_prefix() {
    assert_eq!(notification_title("Problem: ", ""), "Problem: ");
    assert_eq!(notification_title("Problem: ", "\nrest"), "Problem: ");
}

#[test]
fn title_is_cut_to_100_characters() {
    let body = "x".repeat(300);
    let title = notification_title("Problem: ", &body);
    assert_eq!(title.chars().count(), 100);
    assert_eq!(title, format!("Problem: {}", "x".repeat(91)));
    assert_eq!(TITLE_LIMIT, 100);
}

#[test]
fn title_of_exactly_100_characters_is_kept() {
    let body = "y".repeat(91);
    let title = notification_title("Problem: ", &body);
    assert_eq!(title, format!("Problem: {}", body));
    assert_eq!(title.chars().count(), 100);
    let longer = "y".repeat(92);
    assert_eq!(notification_title("Problem: ", &longer), title);
}

#[test]
fn title_is_cut_between_characters_not_bytes() {
    let body = "é😀".repeat(100);
    let title = notification_title("Problem: ", &body);
    let whole = format!("Problem: {}", body);
    let expected: String = whole.chars().take(100).collect();
    assert_eq!(title, expected);
    assert_eq!(title.chars().count(), 100);
    assert!(title.len() > 100);
    assert!(title.ends_with('é'));
}

#[test]
fn title_is_cut_after_the_first_line_is_taken() {
    let body = format!("{}\nsecond line", "z".repeat(95));
    let title = notification_title("Solution: ", &body);
    assert_eq!(title, format!("Solution: {}", "z".repeat(90)));
}

#[test]
fn long_prefix_alone_is_cut() {
    let prefix = "p".repeat(120);
    assert_eq!(notification_title(&prefix, "body"), "p".repeat(100));
}

#[test]
fn delays_of_digits_and_a_unit_are_valid() {
    for d in ["10m", "2h", "45s", "3d", "1d", "30s", "0s", "0010m", "123456789h"] {
        assert!(is_valid_delay(d), "{:?}", d);
        assert_eq!(effective_delay(Some(d)), Some(d.to_string()));
    }
}

#[test]
fn other_delays_are_dropped() {
    for d in [
        "10mins", "abc", "-5m", "", "m", "s", "10", "10M", "10 m", " 10m", "10m ", "1.5h", "+5m",
        "10w", "10ms", "mm", "5m5", "١٠m", "10\u{00B5}",
    ] {
        assert!(!is_valid_delay(d), "{:?}", d);
        assert_eq!(effective_delay(Some(d)), None, "{:?}", d);
    }
}

#[test]
fn no_delay_stays_no_delay() {
    assert_eq!(effective_delay(None), None);
}

#[test]
fn notification_carries_title_tags_body_and_address() {
    let body = "How many golf balls fit in a bus?\nAssume a school bus.";
    let r = send_notification(&config(), "Problem: ", body, None);
    assert_eq!(
        r,
        NotificationRequest {
            url: "https://ntfy.sh/fermi-daily".to_string(),
            title: "Problem: How many golf balls fit in a bus?".to_string(),
            tags: "brain,puzzle".to_string(),
            body: body.to_string(),
            delay: None,
        }
    );
    assert_eq!(NTFY_URL, "https://ntfy.sh/");
    assert_eq!(TAGS, "brain,puzzle");
}

#[test]
fn notification_forwards_a_valid_delay() {
    let r = send_notification(&config(), "Solution: ", "Step 1", Some("10m"));
    assert_eq!(r.delay, Some("10m".to_string()));
    assert_eq!(r.title, "Solution: Step 1");
}

#[test]
fn notification_drops_a_delay_that_is_not_valid() {
    for d in ["10mins", "abc", "-5m", ""] {
        let r = send_notification(&config(), "Solution: ", "Step 1", Some(d));
        assert_eq!(r.delay, None, "{:?}", d);
        assert_eq!(r.body, "Step 1");
        assert_eq!(r.title, "Solution: Step 1");
    }
}

#[test]
fn notification_body_is_never_cut() {
    let body = "b".repeat(5000);
    let r = send_notification(&config(), "Problem: ", &body, None);
    assert_eq!(r.body, body);
    assert_eq!(r.title.chars().count(), 100);
}

#[test]
fn refused_notification_tells_status_and_body() {
    let status = HttpStatus::from_u16(429).unwrap();
    assert_eq!(
        notification_failure(&status, &Some("slow down".to_string())),
        AppError::Ntfy(
            "Notification request failed with status 429 Too Many Requests: slow down".to_string()
        )
    );
    assert_eq!(
        notification_failure(&status, &None),
        AppError::Ntfy(
            "Notification request failed with status 429 Too Many Requests: Failed to read error body"
                .to_string()
        )
    );
}
