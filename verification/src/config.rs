//! Startup settings: the backend's base URL, the model identifier and the
//! listen port, each taken from an optional override or from its default.

use vstd::prelude::*;
use vstd::string::*;

verus! {

/// Port that is listened on when no override is given.
pub const DEFAULT_PORT: u16 = 8080;

/// Whether `c` is one of the ten ASCII decimal digits.
pub open spec fn is_digit(c: char) -> bool {
    48 <= c as u32 && c as u32 <= 57
}

/// Whether every character of `s` is an ASCII decimal digit.
pub open spec fn all_digits(s: Seq<char>) -> bool {
    forall|i: int| 0 <= i < s.len() ==> is_digit(#[trigger] s[i])
}

/// The number that a sequence of decimal digits writes, most significant
/// digit first. Leading zeros do not change it.
pub open spec fn decimal_value(s: Seq<char>) -> nat
    decreases s.len(),
{
    if s.len() == 0 {
        0
    } else {
        (decimal_value(s.drop_last()) * 10 + (s.last() as u32 - 48)) as nat
    }
}

/// The digits of an unsigned decimal numeral: the text without one leading
/// plus sign, if it has one.
pub open spec fn unsigned_digits(s: Seq<char>) -> Seq<char> {
    if s.len() > 0 && s[0] == '+' {
        s.subrange(1, s.len() as int)
    } else {
        s
    }
}

/// The port that a text denotes: an optional plus sign, then at least one
/// decimal digit and nothing else, with a value that fits in sixteen bits.
/// Any other text denotes no port.
pub open spec fn port_of(s: Seq<char>) -> Option<u16> {
    let digits = unsigned_digits(s);
    if digits.len() > 0 && all_digits(digits) && decimal_value(digits) <= 65535 {
        Some(decimal_value(digits) as u16)
    } else {
        None
    }
}

/// A numeral is never smaller than the numeral made of its first `k` digits.
pub proof fn lemma_prefix_value_le(s: Seq<char>, k: int)
    requires
        all_digits(s),
        0 <= k <= s.len(),
    ensures
        decimal_value(s.subrange(0, k)) <= decimal_value(s),
    decreases s.len(),
{
    if k == s.len() {
        assert(s.subrange(0, k) =~= s);
    } else {
        let shorter = s.drop_last();
        assert(is_digit(s.last()));
        assert forall|i: int| 0 <= i < shorter.len() implies is_digit(#[trigger] shorter[i]) by {
            assert(shorter[i] == s[i]);
        }
        lemma_prefix_value_le(shorter, k);
        assert(shorter.subrange(0, k) =~= s.subrange(0, k));
    }
}

/// Reads a listen port from its decimal text.
pub fn parse_port(text: &str) -> (port: Option<u16>)
    ensures
        port == port_of(text@),
{
    let n: usize = text.unicode_len();
    let start: usize = if n > 0 && text.get_char(0) == '+' {
        1
    } else {
        0
    };
    let ghost digits = unsigned_digits(text@);
    if start == n {
        return None;
    }
    let mut value: u32 = 0;
    let mut i: usize = start;
    while i < n
        invariant
            start <= i <= n,
            n == text@.len(),
            digits == unsigned_digits(text@),
            digits == text@.subrange(start as int, n as int),
            all_digits(digits.subrange(0, i - start)),
            value == decimal_value(digits.subrange(0, i - start)),
            value <= 65535,
        decreases n - i,
    {
        let c: char = text.get_char(i);
        let code: u32 = c as u32;
        let ghost seen = digits.subrange(0, i - start);
        let ghost grown = digits.subrange(0, i - start + 1);
        proof {
            assert(digits[i - start] == c);
            assert(grown.drop_last() =~= seen);
            assert(grown.last() == c);
        }
        if code < 48 || code > 57 {
            proof {
                assert(!is_digit(digits[i - start]));
            }
            return None;
        }
        let next: u32 = value * 10 + (code - 48);
        proof {
            assert(decimal_value(grown) == next);
            assert forall|j: int| 0 <= j < grown.len() implies is_digit(#[trigger] grown[j]) by {
                if j < seen.len() {
                    assert(grown[j] == seen[j]);
                }
            }
        }
        if next > 65535 {
            proof {
                if all_digits(digits) {
                    lemma_prefix_value_le(digits, i - start + 1);
                }
            }
            return None;
        }
        value = next;
        i = i + 1;
    }
    proof {
        assert(digits.subrange(0, i - start) =~= digits);
    }
    Some(value as u16)
}

/// The settings that the service starts with.
#[derive(Debug, Clone, PartialEq, Eq)]
pub struct Settings {
    pub base_url: String,
    pub model: String,
    pub port: u16,
}

/// Why the service cannot start.
#[derive(Debug, Clone, Copy, PartialEq, Eq, Structural)]
pub enum StartupError {
    /// The port override does not denote a sixteen-bit unsigned integer.
    InvalidPort,
}

/// The text in force for a setting: the override, or the default where
/// there is none.
pub open spec fn text_setting(given: Option<String>, default: Seq<char>) -> Seq<char> {
    match given {
        Some(text) => text@,
        None => default,
    }
}

/// The port in force: the one that the override denotes, or the default
/// where there is no override.
pub open spec fn port_setting(given: Option<String>) -> Option<u16> {
    match given {
        Some(text) => port_of(text@),
        None => Some(DEFAULT_PORT),
    }
}

/// Base URL of the backend when no override is given.
pub fn default_base_url() -> (url: String)
    ensures
        url@ == "http://localhost:11434"@,
{
    String::from_str("http://localhost:11434")
}

/// Model identifier when no override is given.
pub fn default_model() -> (model: String)
    ensures
        model@ == "llama3"@,
{
    String::from_str("llama3")
}

/// Settles the startup settings from the three optional overrides. Startup
/// fails exactly when a port override is given that denotes no port.
pub fn resolve_settings(
    base_url: Option<String>,
    model: Option<String>,
    port: Option<String>,
) -> (settings: Result<Settings, StartupError>)
    ensures
        match settings {
            Ok(s) => {
                &&& s.base_url@ == text_setting(base_url, "http://localhost:11434"@)
                &&& s.model@ == text_setting(model, "llama3"@)
                &&& port_setting(port) == Some(s.port)
            },
            Err(e) => e == StartupError::InvalidPort && port_setting(port).is_none(),
        },
{
    let port_number: u16 = match port {
        Some(text) => match parse_port(text.as_str()) {
            Some(number) => number,
            None => {
                return Err(StartupError::InvalidPort);
            },
        },
        None => DEFAULT_PORT,
    };
    let base_url_text: String = match base_url {
        Some(text) => text,
        None => default_base_url(),
    };
    let model_text: String = match model {
        Some(text) => text,
        None => default_model(),
    };
    Ok(Settings { base_url: base_url_text, model: model_text, port: port_number })
}

/// A port override that is not numeric stops the startup: a text with a
/// character that is neither a decimal digit nor a plus sign in first place
/// denotes no port.
pub proof fn lemma_non_numeric_port_fails(port: String, at: int)
    requires
        0 <= at < port@.len(),
        !is_digit(port@[at]),
        !(at == 0 && port@[0] == '+'),
    ensures
        port_of(port@) is None,
        port_setting(Some(port)) is None,
{
    let digits = unsigned_digits(port@);
    if port@[0] == '+' {
        assert(digits[at - 1] == port@[at]);
    } else {
        assert(digits[at] == port@[at]);
    }
}

} // verus!
