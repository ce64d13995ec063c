//! The settings of the service, read once when it starts.

use crate::error::{AppError, AppResult, ErrorKind, Failure};
use crate::text::{
    all_digits, chars_of, decimal_digit, digit_value, is_decimal_digit, lemma_numeral_grows,
    numeral_value,
};
use vstd::prelude::*;

verus! {

/// The port on which the service listens where none is set.
pub const DEFAULT_PORT: u16 = 8080;

/// The settings of the service.
#[derive(Debug, Clone, PartialEq, Eq)]
pub struct Config {
    /// The credential of the generation service.
    pub gemini_api_key: String,
    /// The channel to which notifications go.
    pub ntfy_topic: String,
    /// The port on which the service listens.
    pub port: u16,
}

/// The mathematical value of a `Config`.
pub struct Settings {
    pub gemini_api_key: Seq<char>,
    pub ntfy_topic: Seq<char>,
    pub port: u16,
}

impl View for Config {
    type V = Settings;

    open spec fn view(&self) -> Settings {
        Settings {
            gemini_api_key: self.gemini_api_key@,
            ntfy_topic: self.ntfy_topic@,
            port: self.port,
        }
    }
}

/// `s` without the `+` that it may open with.
pub open spec fn behind_plus(s: Seq<char>) -> Seq<char> {
    if s.len() > 0 && s[0] == '+' {
        s.drop_first()
    } else {
        s
    }
}

/// The port that `s` writes: decimal digits, behind a `+` or not, that make
/// a number up to 65535.
pub open spec fn port_number(s: Seq<char>) -> Option<u16> {
    let digits = behind_plus(s);
    if digits.len() > 0 && all_digits(digits) && numeral_value(digits) <= u16::MAX {
        Some(numeral_value(digits) as u16)
    } else {
        None
    }
}

/// The failure of a port that is set and is no number.
pub open spec fn port_malformed() -> Failure {
    Failure { kind: ErrorKind::Config, detail: "PORT must be a number"@ }
}

/// The settings that the three values give: the port, 8080 where none is
/// set, must be a number; then the credential and the channel must be there.
/// A value that could not be had comes with the reason why.
pub open spec fn load(
    gemini_api_key: Result<Seq<char>, Seq<char>>,
    ntfy_topic: Result<Seq<char>, Seq<char>>,
    port: Option<Seq<char>>,
) -> Result<Settings, Failure> {
    let number = match port {
        Some(text) => port_number(text),
        None => Some(DEFAULT_PORT),
    };
    match (number, gemini_api_key, ntfy_topic) {
        (None, _, _) => Err(port_malformed()),
        (Some(_), Err(reason), _) => Err(Failure { kind: ErrorKind::Config, detail: reason }),
        (Some(_), Ok(_), Err(reason)) => Err(Failure { kind: ErrorKind::Config, detail: reason }),
        (Some(port), Ok(gemini_api_key), Ok(ntfy_topic)) => Ok(
            Settings { gemini_api_key, ntfy_topic, port },
        ),
    }
}

/// The value of a text that was found, or of the reason why it was not.
pub open spec fn looked_up(value: Result<String, String>) -> Result<Seq<char>, Seq<char>> {
    match value {
        Ok(text) => Ok(text@),
        Err(reason) => Err(reason@),
    }
}

/// The value of a text that may be absent.
pub open spec fn optional(value: Option<String>) -> Option<Seq<char>> {
    match value {
        Some(text) => Some(text@),
        None => None,
    }
}

/// The value of a result of loading the settings.
pub open spec fn loaded(r: AppResult<Config>) -> Result<Settings, Failure> {
    match r {
        Ok(config) => Ok(config@),
        Err(e) => Err(e@),
    }
}

/// Reads a port number.
pub fn parse_port(s: &str) -> (r: Option<u16>)
    ensures
        r == port_number(s@),
{
    let v = chars_of(s);
    let start: usize = if v.len() > 0 && v[0] == '+' {
        1
    } else {
        0
    };
    let ghost digits = v@.skip(start as int);
    assert(digits =~= behind_plus(s@));
    if start == v.len() {
        return None;
    }
    let mut total: u32 = 0;
    let mut i: usize = start;
    while i < v.len()
        invariant
            start <= i <= v.len(),
            digits == v@.skip(start as int),
            digits == behind_plus(s@),
            all_digits(digits.take(i - start)),
            total == numeral_value(digits.take(i - start)),
            total <= u16::MAX,
        decreases v.len() - i,
    {
        let c = v[i];
        if !is_decimal_digit(c) {
            assert(digits[i - start] == c);
            return None;
        }
        let d: u32 = c as u32 - '0' as u32;
        let ghost longer = digits.take(i - start + 1);
        assert(longer.drop_last() =~= digits.take(i - start));
        assert(longer.last() == c);
        assert(d == digit_value(c));
        assert forall|j: int| 0 <= j < longer.len() implies decimal_digit(
            #[trigger] longer[j],
        ) by {
            if j < longer.len() - 1 {
                assert(longer[j] == digits.take(i - start)[j]);
            }
        }
        total = total * 10 + d;
        if total > 65535 {
            proof {
                lemma_numeral_grows(digits, i - start + 1);
            }
            return None;
        }
        i = i + 1;
    }
    assert(digits.take(i - start) =~= digits);
    Some(total as u16)
}

impl Config {
    /// The settings that the values of the three variables give.
    pub fn from_env(
        gemini_api_key: Result<String, String>,
        ntfy_topic: Result<String, String>,
        port: Option<String>,
    ) -> (r: AppResult<Config>)
        ensures
            loaded(r) == load(looked_up(gemini_api_key), looked_up(ntfy_topic), optional(port)),
    {
        let number = match port {
            Some(text) => parse_port(text.as_str()),
            None => Some(DEFAULT_PORT),
        };
        let port = match number {
            Some(port) => port,
            None => {
                return Err(AppError::Config("PORT must be a number".to_owned()));
            },
        };
        let gemini_api_key = match gemini_api_key {
            Ok(text) => text,
            Err(reason) => {
                return Err(AppError::Config(reason));
            },
        };
        let ntfy_topic = match ntfy_topic {
            Ok(text) => text,
            Err(reason) => {
                return Err(AppError::Config(reason));
            },
        };
        Ok(Config { gemini_api_key, ntfy_topic, port })
    }
}

} // verus!
