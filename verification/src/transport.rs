//! The mail-delivery collaborators, taken on trust: declarations of the
//! `lettre` types the sender logic carries, and thin wrappers around the
//! calls it makes into `lettre` and `chrono`.  Each wrapper's contract states
//! only what those crates' own sources show.

use vstd::prelude::*;
use lettre::Transport;

verus! {

#[verifier::external_type_specification]
#[verifier::external_body]
pub struct ExEmailAddress(lettre::EmailAddress);

#[verifier::external_type_specification]
#[verifier::external_body]
pub struct ExEnvelope(lettre::Envelope);

#[verifier::external_type_specification]
#[verifier::external_body]
pub struct ExSendableEmail(lettre::SendableEmail);

#[verifier::external_type_specification]
#[verifier::external_body]
pub struct ExFileTransport(lettre::FileTransport);

#[verifier::external_type_specification]
#[verifier::external_body]
pub struct ExSendmailTransport(lettre::SendmailTransport);

#[verifier::external_type_specification]
#[verifier::external_body]
pub struct ExSmtpTransport(lettre::SmtpTransport);

#[verifier::external_type_specification]
#[verifier::external_body]
pub struct ExSmtpClient(lettre::SmtpClient);

#[verifier::external_type_specification]
#[verifier::external_body]
pub struct ExClientSecurity(lettre::ClientSecurity);

#[verifier::external_type_specification]
#[verifier::external_body]
pub struct ExEmailError(lettre::error::Error);

#[verifier::external_type_specification]
#[verifier::external_body]
pub struct ExFileError(lettre::file::error::Error);

#[verifier::external_type_specification]
#[verifier::external_body]
pub struct ExSendmailError(lettre::sendmail::error::Error);

#[verifier::external_type_specification]
#[verifier::external_body]
pub struct ExSmtpError(lettre::smtp::error::Error);

/// Whether `fast_chemail::is_valid_email` accepts a string as a
/// syntactically valid email address.
pub uninterp spec fn chemail_accepts(s: Seq<char>) -> bool;

/// The address string a lettre `EmailAddress` holds: what its `AsRef<str>`
/// hands out.
pub uninterp spec fn addr_str_of(a: lettre::EmailAddress) -> Seq<char>;

/// The sender address an `Envelope` holds: what its `from` accessor hands
/// out, as the address string.
pub uninterp spec fn envelope_from_of(e: lettre::Envelope) -> Option<Seq<char>>;

/// The recipient addresses an `Envelope` holds: what its `to` accessor hands
/// out, as address strings.
pub uninterp spec fn envelope_to_of(e: lettre::Envelope) -> Seq<Seq<char>>;

/// The message id a `SendableEmail` holds: what its `message_id` accessor
/// hands out.
pub uninterp spec fn email_id_of(m: lettre::SendableEmail) -> Seq<char>;

/// The envelope sender a `SendableEmail` holds, as the address string.
pub uninterp spec fn email_from_of(m: lettre::SendableEmail) -> Option<Seq<char>>;

/// The envelope recipients a `SendableEmail` holds, as address strings.
pub uninterp spec fn email_to_of(m: lettre::SendableEmail) -> Seq<Seq<char>>;

/// The body bytes a `SendableEmail` holds: what its `message` accessor reads
/// out.
pub uninterp spec fn email_body_of(m: lettre::SendableEmail) -> Seq<u8>;

/// Whether a string ends with the literal `localhost`.
pub open spec fn ends_in_localhost(s: Seq<char>) -> bool {
    s.len() >= 9 && s.subrange(s.len() - 9, s.len() as int) == "localhost"@
}

/// The strings lettre's `EmailAddress::new` accepts: those `fast_chemail`
/// recognizes as a valid address, plus any string that ends in `localhost`.
pub open spec fn accepted_email(s: Seq<char>) -> bool {
    chemail_accepts(s) || ends_in_localhost(s)
}

/// Relies on lettre's `EmailAddress::new`: it returns `Ok` exactly when
/// `fast_chemail::is_valid_email` accepts the string or the string ends with
/// `"localhost"`, and the accepted address holds the given string verbatim.
#[verifier::external_body]
pub fn email_address_new(s: String) -> (r: Result<
    lettre::EmailAddress,
    lettre::error::Error,
>)
    ensures
        r is Ok <==> chemail_accepts(s@) || ends_in_localhost(s@),
        r matches Ok(a) ==> addr_str_of(a) == s@,
{
    lettre::EmailAddress::new(s)
}

/// Relies on the `Clone` impl lettre derives for `EmailAddress`: the copy
/// holds the same address string.
pub assume_specification[ <lettre::EmailAddress as Clone>::clone ](
    a: &lettre::EmailAddress,
) -> (r: lettre::EmailAddress)
    ensures
        addr_str_of(r) == addr_str_of(*a),
;

/// Relies on lettre's `Envelope::new`: it fails exactly when the recipient
/// list is empty, and otherwise stores the given sender and recipients
/// verbatim.
#[verifier::external_body]
pub fn envelope_new(
    from: Option<lettre::EmailAddress>,
    to: Vec<lettre::EmailAddress>,
) -> (r: Result<lettre::Envelope, lettre::error::Error>)
    ensures
        r is Ok <==> to@.len() > 0,
        r matches Ok(env) ==> envelope_from_of(env) == (match from {
            Some(a) => Some(addr_str_of(a)),
            None => None::<Seq<char>>,
        }),
        r matches Ok(env) ==> envelope_to_of(env) == Seq::new(
            to@.len(),
            |i: int| addr_str_of(to@[i]),
        ),
{
    lettre::Envelope::new(from, to)
}

/// Relies on lettre's `SendableEmail::new`: it packs the given envelope,
/// message id and byte body into a sendable email verbatim and cannot fail.
#[verifier::external_body]
pub fn sendable_email_new(
    env: lettre::Envelope,
    id: String,
    body: Vec<u8>,
) -> (r: lettre::SendableEmail)
    ensures
        email_from_of(r) == envelope_from_of(env),
        email_to_of(r) == envelope_to_of(env),
        email_id_of(r) == id@,
        email_body_of(r) == body@,
{
    lettre::SendableEmail::new(env, id, body)
}

/// Relies on chrono's `Utc::now` and `DateTime::to_rfc2822`: the current
/// instant, formatted as an RFC 2822 timestamp.  Nothing is promised of the
/// value: it depends on the clock.
#[verifier::external_body]
pub fn now_rfc2822() -> String {
    chrono::Utc::now().to_rfc2822()
}

/// The directory a `FileTransport` writes under, as the path string it was
/// created with.
pub uninterp spec fn dir_of(t: lettre::FileTransport) -> Seq<char>;

/// Relies on lettre's `FileTransport::new`: a transport that writes each
/// email as one JSON record, named after its message id, under the given
/// directory, which it stores verbatim.
#[verifier::external_body]
pub fn file_transport_new(path: &str) -> (r: lettre::FileTransport)
    ensures
        dir_of(r) == path@,
{
    lettre::FileTransport::new(path)
}

/// Relies on lettre's `SendmailTransport::new`: a transport that pipes each
/// email to the local `/usr/sbin/sendmail` command.
#[verifier::external_body]
pub fn sendmail_transport_new() -> lettre::SendmailTransport {
    lettre::SendmailTransport::new()
}

/// Relies on lettre's `SmtpTransport::new`: a transport driving the given
/// SMTP client; construction cannot fail.
#[verifier::external_body]
pub fn smtp_transport_new(client: lettre::SmtpClient) -> lettre::SmtpTransport {
    lettre::SmtpTransport::new(client)
}

/// Relies on lettre's `SmtpClient::new_unencrypted_localhost`: a client for
/// `localhost:25` with no transport security; it fails only if `localhost`
/// does not resolve on this machine.
#[verifier::external_body]
pub fn smtp_client_localhost() -> Result<lettre::SmtpClient, lettre::smtp::error::Error> {
    lettre::SmtpClient::new_unencrypted_localhost()
}

/// Relies on lettre's `SmtpClient::new_simple`: a TLS client for the
/// domain's submissions port; it fails if the domain does not resolve here,
/// and aborts, as the crate's own source does, only if the platform's TLS
/// backend cannot initialize at all.
#[verifier::external_body]
pub fn smtp_client_simple(domain: &str) -> Result<
    lettre::SmtpClient,
    lettre::smtp::error::Error,
> {
    lettre::SmtpClient::new_simple(domain)
}

/// Relies on lettre's `SmtpClient::new`: a client for the first socket
/// address the string resolves to, under the given TLS policy; it fails when
/// resolution yields no address.
#[verifier::external_body]
pub fn smtp_client_new(addr: &str, security: lettre::ClientSecurity) -> Result<
    lettre::SmtpClient,
    lettre::smtp::error::Error,
> {
    lettre::SmtpClient::new(addr, security)
}

/// Relies on lettre's `FileTransport::send`: writes the email as one JSON
/// record named after its message id under the transport's directory, and
/// reports any I/O or serialization failure.
#[verifier::external_body]
pub fn file_send(t: &mut lettre::FileTransport, email: lettre::SendableEmail) -> Result<
    (),
    lettre::file::error::Error,
> {
    t.send(email)
}

/// Relies on lettre's `SendmailTransport::send`: pipes the email to the
/// sendmail command and reports whether the command succeeded.
#[verifier::external_body]
pub fn sendmail_send(t: &mut lettre::SendmailTransport, email: lettre::SendableEmail) -> Result<
    (),
    lettre::sendmail::error::Error,
> {
    t.send(email)
}

/// Relies on lettre's `SmtpTransport::send`: runs the SMTP transaction for
/// the email; the server's reply is dropped and only success or the failure
/// is kept.
#[verifier::external_body]
pub fn smtp_send(t: &mut lettre::SmtpTransport, email: lettre::SendableEmail) -> Result<
    (),
    lettre::smtp::error::Error,
> {
    t.send(email).map(|_| ())
}

/// The description the `Display` impl of lettre's content error produces.
pub uninterp spec fn content_err_text_of(e: lettre::error::Error) -> Seq<char>;

/// The description the `Display` impl of lettre's file-transport error
/// produces.
pub uninterp spec fn file_err_text_of(e: lettre::file::error::Error) -> Seq<char>;

/// The description the `Display` impl of lettre's sendmail-transport error
/// produces.
pub uninterp spec fn sendmail_err_text_of(e: lettre::sendmail::error::Error) -> Seq<char>;

/// The description the `Display` impl of lettre's SMTP-transport error
/// produces.
pub uninterp spec fn smtp_err_text_of(e: lettre::smtp::error::Error) -> Seq<char>;

/// Relies on the `Display` impl of lettre's content error: a human-readable
/// description, a function of the error value alone.
#[verifier::external_body]
pub fn email_error_text(e: &lettre::error::Error) -> (r: String)
    ensures
        r@ == content_err_text_of(*e),
{
    e.to_string()
}

/// Relies on the `Display` impl of lettre's file-transport error: a
/// human-readable description, a function of the error value alone.
#[verifier::external_body]
pub fn file_error_text(e: &lettre::file::error::Error) -> (r: String)
    ensures
        r@ == file_err_text_of(*e),
{
    e.to_string()
}

/// Relies on the `Display` impl of lettre's sendmail-transport error: a
/// human-readable description, a function of the error value alone.
#[verifier::external_body]
pub fn sendmail_error_text(e: &lettre::sendmail::error::Error) -> (r: String)
    ensures
        r@ == sendmail_err_text_of(*e),
{
    e.to_string()
}

/// Relies on the `Display` impl of lettre's SMTP-transport error: a
/// human-readable description, a function of the error value alone.
#[verifier::external_body]
pub fn smtp_error_text(e: &lettre::smtp::error::Error) -> (r: String)
    ensures
        r@ == smtp_err_text_of(*e),
{
    e.to_string()
}

} // verus!
