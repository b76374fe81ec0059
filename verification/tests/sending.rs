use cheap_alerts::{send_message, AlertError, Carrier, Destination, EchoTransport, Opts, Sender};

#[test]
fn file_backend_writes_a_record() {
    let mut sender = Sender::builder()
        .address("a@b.com")
        .file("/tmp")
        .expect("sender should build");
    let dest = Destination::new("(612) 555-0111", &Carrier::Verizon);
    assert_eq!(dest.address(), "6125550111@vtext.com");
    sender.send_to(&dest, "hi").expect("file send should succeed");
}

#[test]
fn file_backend_sends_are_independent() {
    let mut sender = Sender::builder()
        .address("a@b.com")
        .file("/tmp")
        .expect("sender should build");
    let dest = Destination::new("5551230000", &Carrier::ATT);
    sender.send_to(&dest, "first").expect("first send should succeed");
    sender.send_to(&dest, "second").expect("second send should succeed");
}

#[test]
fn echo_transport_renders_email_dump() {
    let to = vec![String::from("6125550111@vtext.com")];
    let text = EchoTransport.render("id-1", Some("a@b.com"), &to, "hi");
    assert_eq!(
        text,
        "Message: id-1\n-----------\nFrom: a@b.com\nTo: 6125550111@vtext.com\n-----------\nMessage\n----------\nhi"
    );
}

#[test]
fn echo_transport_renders_empty_envelope() {
    let text = EchoTransport.render("id-2", None, &Vec::new(), "x");
    assert_eq!(
        text,
        "Message: id-2\n-----------\nFrom: no-one\nTo: no-one-----------\nMessage\n----------\nx"
    );
}

#[test]
fn send_message_without_valid_from_fails() {
    let opts = Opts {
        carrier: Carrier::from_tag("verizon"),
        number: String::from("6125550111"),
        domain: None,
        from: String::from("not an address"),
        message: String::from("hi"),
    };
    assert!(matches!(
        send_message(&opts),
        Err(AlertError::MissingEmail) | Err(AlertError::LettreSmtp(_))
    ));
}

#[test]
fn smtp_backend_failure_is_reported_as_smtp_error() {
    let client =
        cheap_alerts::SmtpClient::new("127.0.0.1:9", cheap_alerts::ClientSecurity::None).unwrap();
    let mut sender = Sender::builder()
        .address("a@b.com")
        .smtp(client)
        .expect("sender should build");
    let dest = Destination::new("5551230000", &Carrier::ATT);
    assert!(matches!(
        sender.send_to(&dest, "hi"),
        Err(AlertError::LettreSmtp(_))
    ));
}

#[test]
fn sendmail_backend_failure_is_reported_as_sendmail_error() {
    let mut sender = Sender::builder()
        .address("a@b.com")
        .sendmail()
        .expect("sender should build");
    let dest = Destination::new("5551230000", &Carrier::ATT);
    // where no sendmail command is installed, the failure must surface as
    // the sendmail backend's own error case
    if let Err(e) = sender.send_to(&dest, "hi") {
        assert!(matches!(e, AlertError::LettreSendMail(_)));
    }
}
