use cheap_alerts::{AlertError, Config, TransportChoice};

#[test]
fn file_config_round_trips() {
    let c = Config {
        from: String::from("a@b.com"),
        transport: TransportChoice::File { path: String::from("/tmp/alerts") },
    };
    let text = c.render();
    assert_eq!(text, "a@b.com\nfile /tmp/alerts");
    let back = Config::parse(&text).expect("rendered text should parse");
    assert_eq!(back, c);
}

#[test]
fn sendmail_config_round_trips() {
    let c = Config { from: String::from("a@b.com"), transport: TransportChoice::SendMail };
    let text = c.render();
    assert_eq!(text, "a@b.com\nsendmail");
    let back = Config::parse(&text).expect("rendered text should parse");
    assert_eq!(back, c);
}

#[test]
fn smtp_localhost_config_round_trips() {
    let c = Config { from: String::from("a@b.com"), transport: TransportChoice::SmtpLocalHost };
    let text = c.render();
    assert_eq!(text, "a@b.com\nsmtplocalhost");
    let back = Config::parse(&text).expect("rendered text should parse");
    assert_eq!(back, c);
}

#[test]
fn smtp_simple_config_round_trips() {
    let c = Config {
        from: String::from("a@b.com"),
        transport: TransportChoice::SmtpSimple { domain: String::from("mail.example.com") },
    };
    let text = c.render();
    assert_eq!(text, "a@b.com\nsmtpsimple mail.example.com");
    let back = Config::parse(&text).expect("rendered text should parse");
    assert_eq!(back, c);
}

#[test]
fn text_without_newline_does_not_parse() {
    assert!(Config::parse("a@b.com sendmail").is_none());
}

#[test]
fn unknown_transport_line_does_not_parse() {
    assert!(Config::parse("a@b.com\ncarrier-pigeon").is_none());
}

#[test]
fn parsed_config_builds_a_sender() {
    let c = Config::parse("a@b.com\nfile /tmp").expect("text should parse");
    assert!(c.build().is_ok());
}

#[test]
fn parsed_config_with_bad_address_fails_to_build() {
    let c = Config::parse("not an email\nsendmail").expect("text should parse");
    assert!(matches!(c.build(), Err(AlertError::MissingEmail)));
}

#[test]
fn from_with_newline_round_trips() {
    let c = cheap_alerts::Config {
        from: String::from("a\nlocalhost"),
        transport: TransportChoice::SendMail,
    };
    let text = c.render();
    assert_eq!(text, "a\\nlocalhost\nsendmail");
    let back = Config::parse(&text).expect("rendered text should parse");
    assert_eq!(back, c);
}

#[test]
fn from_with_backslash_round_trips() {
    let c = cheap_alerts::Config {
        from: String::from("a\\n@b.com"),
        transport: TransportChoice::File { path: String::from("/tmp/alerts") },
    };
    let text = c.render();
    assert_eq!(text, "a\\\\n@b.com\nfile /tmp/alerts");
    let back = Config::parse(&text).expect("rendered text should parse");
    assert_eq!(back, c);
}
