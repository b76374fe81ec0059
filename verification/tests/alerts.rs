use cheap_alerts::{AlertError, Carrier, Destination, Sender};

#[test]
fn carrier_tags_resolve_to_documented_domains() {
    assert_eq!(Carrier::from_tag("att").get_domain(), "txt.att.net");
    assert_eq!(Carrier::from_tag("sprint").get_domain(), "messaging.sprintpcs.com");
    assert_eq!(Carrier::from_tag("tmobile").get_domain(), "tmomail.net");
    assert_eq!(Carrier::from_tag("verizon").get_domain(), "vtext.com");
    assert_eq!(Carrier::from_tag("boost").get_domain(), "myboostmobile.com");
    assert_eq!(Carrier::from_tag("cricket").get_domain(), "sms.mycricket.com");
    assert_eq!(Carrier::from_tag("metropcs").get_domain(), "mymetropcs.com");
    assert_eq!(Carrier::from_tag("tracfone").get_domain(), "mmst5.tracfone.com");
    assert_eq!(Carrier::from_tag("uscellular").get_domain(), "email.uscc.net");
    assert_eq!(Carrier::from_tag("virgin").get_domain(), "vmobl.com");
}

#[test]
fn unknown_tag_becomes_custom_domain() {
    let c = Carrier::from_tag("bogus");
    assert!(matches!(&c, Carrier::Other { domain } if domain == "bogus"));
    assert_eq!(c.get_domain(), "bogus");
}

#[test]
fn destination_keeps_only_digits() {
    let d = Destination::new("(612) 555-0111", &Carrier::Verizon);
    assert_eq!(d.number, "6125550111");
    assert_eq!(d.address(), "6125550111@vtext.com");
}

#[test]
fn destination_normalization_is_idempotent() {
    let once = Destination::new("+1 (612) 555-0111 ext. 9", &Carrier::ATT);
    let twice = Destination::new(&once.number, &Carrier::ATT);
    assert_eq!(once.number, twice.number);
}

#[test]
fn empty_digits_are_not_rejected() {
    let d = Destination::new("no digits here", &Carrier::TMobile);
    assert_eq!(d.number, "");
    assert_eq!(d.address(), "@tmomail.net");
}

#[test]
fn bogus_tag_address_ends_with_its_domain() {
    let c = Carrier::from_tag("bogus");
    let d = Destination::new("5551230000", &c);
    assert!(d.address().ends_with("@bogus"));
    assert_eq!(d.address(), "5551230000@bogus");
}

#[test]
fn missing_address_fails_file_backend() {
    assert!(matches!(
        Sender::builder().file("/tmp"),
        Err(AlertError::MissingEmail)
    ));
}

#[test]
fn missing_address_fails_sendmail_backend() {
    assert!(matches!(
        Sender::builder().sendmail(),
        Err(AlertError::MissingEmail)
    ));
}

#[test]
fn missing_address_fails_smtp_backends() {
    assert!(matches!(
        Sender::builder().smtp_unencrypted_localhost(),
        Err(AlertError::MissingEmail) | Err(AlertError::LettreSmtp(_))
    ));
    assert!(matches!(
        Sender::builder().smtp_simple("example.com"),
        Err(AlertError::MissingEmail) | Err(AlertError::LettreSmtp(_))
    ));
    assert!(matches!(
        Sender::builder().smtp_full("127.0.0.1:25", cheap_alerts::ClientSecurity::None),
        Err(AlertError::MissingEmail) | Err(AlertError::LettreSmtp(_))
    ));
    if let Ok(client) = cheap_alerts::SmtpClient::new_unencrypted_localhost() {
        assert!(matches!(
            Sender::builder().smtp(client),
            Err(AlertError::MissingEmail)
        ));
    }
}

#[test]
fn invalid_address_fails_backend_selection() {
    let builder = Sender::builder().address("not an email");
    assert!(matches!(builder.file("/tmp"), Err(AlertError::MissingEmail)));
    let builder = Sender::builder().address("not an email");
    assert!(matches!(builder.sendmail(), Err(AlertError::MissingEmail)));
}

#[test]
fn valid_address_builds_file_sender() {
    let sender = Sender::builder().address("a@b.com").file("/tmp");
    assert!(sender.is_ok());
}

#[test]
fn missing_email_error_message() {
    assert_eq!(
        AlertError::MissingEmail.message(),
        "Error, email address to build a Sender"
    );
}

#[test]
fn malformed_destination_fails_at_send_time() {
    let mut sender = Sender::builder()
        .address("a@b.com")
        .file("/tmp")
        .expect("sender should build");
    let dest = Destination::new("no digits", &Carrier::Other { domain: String::new() });
    assert_eq!(dest.address(), "@");
    let r = sender.send_to(&dest, "hi");
    assert!(matches!(r, Err(AlertError::Lettre(_))));
}

#[test]
fn carrier_parses_through_fromstr() {
    let c: Carrier = "att".parse().unwrap();
    assert_eq!(c.get_domain(), "txt.att.net");
    let custom: Carrier = "gateway.example".parse().unwrap();
    assert_eq!(custom.get_domain(), "gateway.example");
}
