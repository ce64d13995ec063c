use fermi_notifier::config::{parse_port, Config, DEFAULT_PORT};
use fermi_notifier::error::{AppError, ErrorKind};

fn found(s: &str) -> Result<String, String> {
    Ok(s.to_string())
}

fn missing() -> Result<String, String> {
    Err("environment variable not found".to_string())
}

#[test]
fn parse_port_reads_numbers() {
    assert_eq!(parse_port("8080"), Some(8080));
    assert_eq!(parse_port("0"), Some(0));
    assert_eq!(parse_port("65535"), Some(65535));
    assert_eq!(parse_port("+443"), Some(443));
    assert_eq!(parse_port("00080"), Some(80));
    assert_eq!(parse_port("0000000000000000000000001"), Some(1));
}

#[test]
fn parse_port_refuses_what_is_no_port() {
    for s in [
        "", "+", "-", "-1", "65536", "70000", "99999999999999999999", "80 ", " 80", "8o8o",
        "12.5", "++1", "+-1", "1+", "０", "٣", "0x50", "1e3", "4294967376",
    ] {
        assert_eq!(parse_port(s), None, "{:?}", s);
    }
}

#[test]
fn parse_port_agrees_with_std() {
    let samples = [
        "", "+", "-", "0", "1", "+1", "-0", "+0", "80", "8080", "65535", "65536", "065535",
        "0065536", "655350", "4294967296", "4294967297", "18446744073709551616", "a", "1a", "a1",
        " 1", "1 ", "+ 1", "١٢٣", "1_000", "6553", "65534", "99999", "100000",
    ];
    for s in samples {
        assert_eq!(parse_port(s), s.parse::<u16>().ok(), "{:?}", s);
    }
    let mut n: u32 = 0;
    while n < 70000 {
        let s = n.to_string();
        assert_eq!(parse_port(&s), s.parse::<u16>().ok(), "{:?}", s);
        n += 7;
    }
}

#[test]
fn settings_load_with_all_three_values() {
    let r = Config::from_env(found("key"), found("topic"), Some("9000".to_string()));
    assert_eq!(
        r,
        Ok(Config {
            gemini_api_key: "key".to_string(),
            ntfy_topic: "topic".to_string(),
            port: 9000
        })
    );
}

#[test]
fn port_defaults_to_8080() {
    let r = Config::from_env(found("key"), found("topic"), None).unwrap();
    assert_eq!(r.port, 8080);
    assert_eq!(DEFAULT_PORT, 8080);
}

#[test]
fn port_that_is_no_number_is_refused() {
    let r = Config::from_env(found("key"), found("topic"), Some("http".to_string()));
    assert_eq!(r, Err(AppError::Config("PORT must be a number".to_string())));
}

#[test]
fn port_is_looked_at_first() {
    let r = Config::from_env(missing(), missing(), Some("".to_string()));
    assert_eq!(r, Err(AppError::Config("PORT must be a number".to_string())));
}

#[test]
fn missing_credential_is_refused_with_its_reason() {
    let r = Config::from_env(missing(), found("topic"), None);
    assert_eq!(r, Err(AppError::Config("environment variable not found".to_string())));
}

#[test]
fn missing_channel_is_refused_with_its_reason() {
    let r = Config::from_env(found("key"), Err("no channel".to_string()), None);
    assert_eq!(r, Err(AppError::Config("no channel".to_string())));
}

#[test]
fn credential_is_looked_at_before_channel() {
    let r = Config::from_env(Err("first".to_string()), Err("second".to_string()), None);
    match r {
        Err(e) => {
            assert_eq!(e.kind(), ErrorKind::Config);
            assert_eq!(e.detail(), "first");
        }
        Ok(c) => panic!("loaded {:?}", c),
    }
}
