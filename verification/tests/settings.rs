use prompt_relay::config::default_base_url;
use prompt_relay::config::default_model;
use prompt_relay::config::parse_port;
use prompt_relay::config::resolve_settings;
use prompt_relay::config::Settings;
use prompt_relay::config::StartupError;
use prompt_relay::config::DEFAULT_PORT;

#[test]
fn defaults_are_as_documented() {
    assert_eq!(default_base_url(), "http://localhost:11434");
    assert_eq!(default_model(), "llama3");
    assert_eq!(DEFAULT_PORT, 8080);
}

#[test]
fn plain_numerals_are_ports() {
    assert_eq!(parse_port("8080"), Some(8080));
    assert_eq!(parse_port("0"), Some(0));
    assert_eq!(parse_port("1"), Some(1));
    assert_eq!(parse_port("65535"), Some(65535));
}

#[test]
fn leading_plus_and_zeros_are_accepted() {
    assert_eq!(parse_port("+80"), Some(80));
    assert_eq!(parse_port("00080"), Some(80));
    assert_eq!(parse_port("+000"), Some(0));
    assert_eq!(parse_port("0000065535"), Some(65535));
}

#[test]
fn values_beyond_sixteen_bits_are_no_ports() {
    assert_eq!(parse_port("65536"), None);
    assert_eq!(parse_port("70000"), None);
    assert_eq!(parse_port("99999999999999999999999999"), None);
    assert_eq!(parse_port("4294967376"), None);
}

#[test]
fn non_numeric_texts_are_no_ports() {
    assert_eq!(parse_port(""), None);
    assert_eq!(parse_port("+"), None);
    assert_eq!(parse_port("-1"), None);
    assert_eq!(parse_port("abc"), None);
    assert_eq!(parse_port("80 "), None);
    assert_eq!(parse_port(" 80"), None);
    assert_eq!(parse_port("8_080"), None);
    assert_eq!(parse_port("++80"), None);
    assert_eq!(parse_port("8+0"), None);
    assert_eq!(parse_port("0x50"), None);
    assert_eq!(parse_port("80.0"), None);
    assert_eq!(parse_port("\u{ff18}\u{ff10}"), None);
    assert_eq!(parse_port("8\u{e9}"), None);
}

#[test]
fn port_reading_agrees_with_the_standard_parser() {
    let texts = [
        "", "+", "-", "0", "+0", "-0", "7", "80", "443", "8080", "+8080", "08080", "65535",
        "65536", "655350", "100000", "x", "12a", "a12", "1 2", "+-1", "٣", "65535\n", "0000",
    ];
    for text in texts {
        assert_eq!(parse_port(text), text.parse::<u16>().ok(), "text {:?}", text);
    }
    let mut n: u32 = 0;
    while n <= 70000 {
        let text = format!("{}", n);
        assert_eq!(parse_port(&text), text.parse::<u16>().ok(), "text {:?}", text);
        n += 7;
    }
}

#[test]
fn settings_without_overrides_are_the_defaults() {
    let settings = resolve_settings(None, None, None);
    assert_eq!(
        settings,
        Ok(Settings {
            base_url: "http://localhost:11434".to_string(),
            model: "llama3".to_string(),
            port: 8080,
        })
    );
}

#[test]
fn overrides_replace_the_defaults() {
    let settings = resolve_settings(
        Some("http://backend:9000".to_string()),
        Some("mistral".to_string()),
        Some("3000".to_string()),
    );
    assert_eq!(
        settings,
        Ok(Settings {
            base_url: "http://backend:9000".to_string(),
            model: "mistral".to_string(),
            port: 3000,
        })
    );
}

#[test]
fn each_override_stands_alone() {
    let settings = resolve_settings(None, Some("phi3".to_string()), None).unwrap();
    assert_eq!(settings.base_url, "http://localhost:11434");
    assert_eq!(settings.model, "phi3");
    assert_eq!(settings.port, 8080);
    let settings = resolve_settings(None, None, Some("+81".to_string())).unwrap();
    assert_eq!(settings.model, "llama3");
    assert_eq!(settings.port, 81);
}

#[test]
fn non_numeric_port_stops_the_startup() {
    assert_eq!(
        resolve_settings(None, None, Some("eighty".to_string())),
        Err(StartupError::InvalidPort)
    );
    assert_eq!(
        resolve_settings(
            Some("http://backend:9000".to_string()),
            Some("mistral".to_string()),
            Some(String::new()),
        ),
        Err(StartupError::InvalidPort)
    );
    assert_eq!(
        resolve_settings(None, None, Some("65536".to_string())),
        Err(StartupError::InvalidPort)
    );
}
