use dstui::config::{AppConfig, Wizard, WizardKey, WizardStep};
use dstui::text::{parse_number, trim_end};

fn type_text(wizard: &mut Wizard, text: &str) {
    for c in text.chars() {
        assert_eq!(wizard.handle_key(WizardKey::Char(c)), WizardStep::Continue);
    }
}

fn filled(url: &str, port: &str, user: &str, pass: &str, interval: &str) -> Wizard {
    let mut wizard = Wizard::new();
    for (i, text) in [url, port, user, pass, interval].iter().enumerate() {
        type_text(&mut wizard, text);
        if i < 4 {
            assert_eq!(wizard.handle_key(WizardKey::Enter), WizardStep::Continue);
        }
    }
    wizard
}

#[test]
fn the_form_collects_the_settings() {
    let mut wizard = filled("http://localhost/", "5000", "user", "pass", "30");
    assert_eq!(wizard.active(), 4);
    let step = wizard.handle_key(WizardKey::Enter);
    assert_eq!(
        step,
        WizardStep::Finished(AppConfig {
            server_url: "http://localhost".to_string(),
            port: 5000,
            username: "user".to_string(),
            password: "pass".to_string(),
            refresh_interval: 30,
        })
    );
}

#[test]
fn number_fields_take_digits_only() {
    let mut wizard = Wizard::new();
    wizard.handle_key(WizardKey::Down);
    type_text(&mut wizard, "5a0-0 0");
    assert_eq!(wizard.input(1), "5000");
    wizard.handle_key(WizardKey::Up);
    type_text(&mut wizard, "a1-b");
    assert_eq!(wizard.input(0), "a1-b");
    for _ in 0..4 {
        wizard.handle_key(WizardKey::Down);
    }
    assert_eq!(wizard.active(), 4);
    type_text(&mut wizard, "x6y0");
    assert_eq!(wizard.input(4), "60");
}

#[test]
fn moving_between_fields_stops_at_the_ends() {
    let mut wizard = Wizard::new();
    assert_eq!(wizard.active(), 0);
    wizard.handle_key(WizardKey::Up);
    assert_eq!(wizard.active(), 0);
    for expected in [1, 2, 3, 4, 4, 4] {
        wizard.handle_key(WizardKey::Down);
        assert_eq!(wizard.active(), expected);
    }
    wizard.handle_key(WizardKey::Up);
    assert_eq!(wizard.active(), 3);
    assert_eq!(Wizard::labels().len(), 5);
    assert_eq!(Wizard::labels()[1], " Port ");
}

#[test]
fn backspace_takes_the_last_character() {
    let mut wizard = Wizard::new();
    type_text(&mut wizard, "abé");
    assert_eq!(wizard.handle_key(WizardKey::Backspace), WizardStep::Continue);
    assert_eq!(wizard.input(0), "ab");
    wizard.handle_key(WizardKey::Backspace);
    wizard.handle_key(WizardKey::Backspace);
    wizard.handle_key(WizardKey::Backspace);
    assert_eq!(wizard.input(0), "");
}

#[test]
fn a_bad_port_is_reported() {
    for port in ["", "65536", "99999999999999999999999999"] {
        let mut wizard = filled("http://h", port, "u", "p", "30");
        assert_eq!(wizard.handle_key(WizardKey::Enter), WizardStep::Continue);
        assert_eq!(wizard.error_msg(), &Some("Port must be a number 0–65535".to_string()));
        assert_eq!(wizard.active(), 4);
        assert_eq!(wizard.handle_key(WizardKey::Char('1')), WizardStep::Continue);
        assert_eq!(wizard.error_msg(), &None);
    }
    let mut wizard = filled("http://h", "65535", "u", "p", "30");
    match wizard.handle_key(WizardKey::Enter) {
        WizardStep::Finished(config) => assert_eq!(config.port, 65535),
        other => panic!("{:?}", other),
    }
    let mut wizard = filled("http://h", "0007", "u", "p", "0");
    match wizard.handle_key(WizardKey::Enter) {
        WizardStep::Finished(config) => {
            assert_eq!(config.port, 7);
            assert_eq!(config.refresh_interval, 0);
        }
        other => panic!("{:?}", other),
    }
}

#[test]
fn a_bad_refresh_interval_is_reported() {
    for interval in ["", "18446744073709551616"] {
        let mut wizard = filled("http://h", "80", "u", "p", interval);
        assert_eq!(wizard.handle_key(WizardKey::Enter), WizardStep::Continue);
        assert_eq!(wizard.error_msg(), &Some("Refresh interval must be a number".to_string()));
        wizard.handle_key(WizardKey::Up);
        assert_eq!(wizard.error_msg(), &None);
    }
    let mut wizard = filled("http://h", "80", "u", "p", "18446744073709551615");
    match wizard.handle_key(WizardKey::Enter) {
        WizardStep::Finished(config) => assert_eq!(config.refresh_interval, u64::MAX),
        other => panic!("{:?}", other),
    }
}

#[test]
fn escape_gives_up_and_other_keys_do_nothing() {
    let mut wizard = filled("http://h", "80", "u", "p", "");
    assert_eq!(wizard.handle_key(WizardKey::Other), WizardStep::Continue);
    assert_eq!(wizard.input(0), "http://h");
    assert_eq!(wizard.handle_key(WizardKey::Esc), WizardStep::Aborted);
    assert_eq!(wizard.active(), 4);
}

#[test]
fn the_password_is_shown_as_stars() {
    let wizard = filled("http://h", "80", "user", "pässw", "1");
    assert_eq!(wizard.display_value(3), "******");
    assert_eq!(wizard.display_value(2), "user");
    assert_eq!(wizard.display_value(0), "http://h");
    assert_eq!(Wizard::new().display_value(3), "");
}

#[test]
fn trailing_slashes_are_trimmed() {
    assert_eq!(trim_end("http://h///", '/'), "http://h");
    assert_eq!(trim_end("http://h", '/'), "http://h");
    assert_eq!(trim_end("///", '/'), "");
    assert_eq!(trim_end("", '/'), "");
    assert_eq!(trim_end("a/b/", '/'), "a/b");
}

#[test]
fn numbers_are_parsed_with_a_limit() {
    assert_eq!(parse_number("", 10), None);
    assert_eq!(parse_number("0", 0), Some(0));
    assert_eq!(parse_number("1", 0), None);
    assert_eq!(parse_number("10", 10), Some(10));
    assert_eq!(parse_number("11", 10), None);
    assert_eq!(parse_number("007", 10), Some(7));
    assert_eq!(parse_number("+7", 10), None);
    assert_eq!(parse_number("7a", 10), None);
    assert_eq!(parse_number("18446744073709551615", u64::MAX), Some(u64::MAX));
    assert_eq!(parse_number("18446744073709551616", u64::MAX), None);
    assert_eq!(parse_number("٣", 10), None);
}

#[test]
fn endpoint_joins_address_and_port() {
    let config = AppConfig {
        server_url: "http://localhost".into(),
        port: 5000,
        username: "user".into(),
        password: "pass".into(),
        refresh_interval: 30,
    };
    assert_eq!(config.endpoint(), "http://localhost:5000");
    assert_eq!(config.clone(), config);
}

#[test]
fn the_form_stays_well_formed() {
    let mut wizard = Wizard::new();
    assert!(wizard.is_well_formed());
    for key in [
        WizardKey::Char('h'),
        WizardKey::Down,
        WizardKey::Char('x'),
        WizardKey::Char('8'),
        WizardKey::Backspace,
        WizardKey::Backspace,
        WizardKey::Enter,
        WizardKey::Up,
        WizardKey::Other,
        WizardKey::Esc,
    ] {
        wizard.handle_key(key);
        assert!(wizard.is_well_formed());
    }
}

#[test]
fn texts_of_digits() {
    assert!(dstui::text::only_digits(""));
    assert!(dstui::text::only_digits("0123456789"));
    assert!(!dstui::text::only_digits("12a"));
    assert!(!dstui::text::only_digits("-1"));
    assert!(!dstui::text::only_digits("١٢"));
}
