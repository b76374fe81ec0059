//! The sender builder and the sender: accumulate a from-address, pick one of
//! the delivery backends, then compose and dispatch messages.

use vstd::prelude::*;
use crate::destination::{Destination, address_of};
use crate::error::AlertError;
use crate::transport::{
    accepted_email, addr_str_of, dir_of, email_address_new, email_body_of, email_from_of, email_id_of,
    email_to_of, envelope_new, file_send, file_transport_new, now_rfc2822, sendable_email_new,
    sendmail_send, sendmail_transport_new, smtp_client_localhost, smtp_client_new,
    smtp_client_simple, smtp_send, smtp_transport_new,
};

verus! {

use vstd::string::StringExecFns;
use vstd::string::StringSliceAdditionalSpecFns;
use vstd::slice::slice_to_vec;

/// The delivery backend a sender dispatches through, fixed when the sender
/// is built.
pub enum Backend {
    /// Writes each send as one record under a directory.
    File(lettre::FileTransport),
    /// Pipes each send to the local sendmail command.
    Sendmail(lettre::SendmailTransport),
    /// Runs an SMTP transaction for each send.
    Smtp(lettre::SmtpTransport),
}

/// A builder for a [`Sender`]: it captures a from-address, and each
/// backend-selection call finishes it.
pub struct SenderBuilder {
    /// The captured from-address, if a valid one was supplied.
    pub address: Option<lettre::EmailAddress>,
}

/// A configured sender: a validated from-address and the backend every
/// message is dispatched through.
pub struct Sender {
    /// The validated from-address of every message this sender composes.
    pub address: lettre::EmailAddress,
    /// The delivery backend, fixed for this sender's lifetime.
    pub client: Backend,
}

impl SenderBuilder {
    /// Sets the address this sender sends from.  A string that lettre does
    /// not accept as an email address is silently ignored: the failure only
    /// surfaces, as `MissingEmail`, when a backend is picked.
    pub fn address(self, from: &str) -> (r: Self)
        ensures
            accepted_email(from@) ==> (r.address matches Some(a) && addr_str_of(a) == from@),
            !accepted_email(from@) ==> r.address == self.address,
    {
        match email_address_new(String::from_str(from)) {
            Ok(add) => SenderBuilder { address: Some(add) },
            Err(_) => self,
        }
    }

    /// Finishes the builder with the file backend, which writes each send as
    /// one record under the directory at `path`.  Fails with `MissingEmail`
    /// exactly when no valid from-address was captured.
    pub fn file(self, path: &str) -> (r: Result<Sender, AlertError>)
        ensures
            r is Ok <==> self.address is Some,
            self.address is None ==> (r matches Err(e) && e is MissingEmail),
            r matches Ok(s) ==> s.address == self.address->0,
            r matches Ok(s) ==> (s.client matches Backend::File(t) && dir_of(t) == path@),
    {
        let client = Backend::File(file_transport_new(path));
        if let Some(address) = self.address {
            Ok(Sender { address, client })
        } else {
            Err(AlertError::MissingEmail)
        }
    }

    /// Finishes the builder with the sendmail backend.  Fails with
    /// `MissingEmail` exactly when no valid from-address was captured.
    pub fn sendmail(self) -> (r: Result<Sender, AlertError>)
        ensures
            r is Ok <==> self.address is Some,
            self.address is None ==> (r matches Err(e) && e is MissingEmail),
            r matches Ok(s) ==> s.client is Sendmail && s.address == self.address->0,
    {
        let client = Backend::Sendmail(sendmail_transport_new());
        if let Some(address) = self.address {
            Ok(Sender { address, client })
        } else {
            Err(AlertError::MissingEmail)
        }
    }

    /// Finishes the builder with an SMTP backend over an unencrypted
    /// connection to `localhost:25` — for local testing only.  Fails with
    /// `MissingEmail` when no valid from-address was captured, or with the
    /// SMTP client's own error if the client cannot be set up.
    pub fn smtp_unencrypted_localhost(self) -> (r: Result<Sender, AlertError>)
        ensures
            r is Ok ==> self.address is Some,
            self.address is None ==> (r matches Err(e) && (e is MissingEmail || e is LettreSmtp)),
            self.address is Some ==> (r matches Ok(s) && s.client is Smtp && s.address
                == self.address->0) || (r matches Err(e) && e is LettreSmtp),
    {
        match smtp_client_localhost() {
            Ok(smtp) => self.smtp(smtp),
            Err(e) => Err(AlertError::LettreSmtp(e)),
        }
    }

    /// Finishes the builder with an SMTP backend that connects to the given
    /// domain's submissions port under TLS.  Fails with `MissingEmail` when
    /// no valid from-address was captured, or with the SMTP client's own
    /// error if the client cannot be set up.
    pub fn smtp_simple(self, domain: &str) -> (r: Result<Sender, AlertError>)
        ensures
            r is Ok ==> self.address is Some,
            self.address is None ==> (r matches Err(e) && (e is MissingEmail || e is LettreSmtp)),
            self.address is Some ==> (r matches Ok(s) && s.client is Smtp && s.address
                == self.address->0) || (r matches Err(e) && e is LettreSmtp),
    {
        match smtp_client_simple(domain) {
            Ok(smtp) => self.smtp(smtp),
            Err(e) => Err(AlertError::LettreSmtp(e)),
        }
    }

    /// Finishes the builder with an SMTP backend for an explicit socket
    /// address under the given TLS policy.  Fails with `MissingEmail` when
    /// no valid from-address was captured, or with the SMTP client's own
    /// error if the client cannot be set up.
    pub fn smtp_full(self, addr: &str, security: lettre::ClientSecurity) -> (r: Result<
        Sender,
        AlertError,
    >)
        ensures
            r is Ok ==> self.address is Some,
            self.address is None ==> (r matches Err(e) && (e is MissingEmail || e is LettreSmtp)),
            self.address is Some ==> (r matches Ok(s) && s.client is Smtp && s.address
                == self.address->0) || (r matches Err(e) && e is LettreSmtp),
    {
        match smtp_client_new(addr, security) {
            Ok(smtp) => self.smtp(smtp),
            Err(e) => Err(AlertError::LettreSmtp(e)),
        }
    }

    /// Finishes the builder with an SMTP backend wrapping an already-built
    /// client — maximum caller control.  Fails with `MissingEmail` exactly
    /// when no valid from-address was captured.
    pub fn smtp(self, smtp: lettre::SmtpClient) -> (r: Result<Sender, AlertError>)
        ensures
            r is Ok <==> self.address is Some,
            self.address is None ==> (r matches Err(e) && e is MissingEmail),
            r matches Ok(s) ==> s.client is Smtp && s.address == self.address->0,
    {
        let client = Backend::Smtp(smtp_transport_new(smtp));
        if let Some(address) = self.address {
            Ok(Sender { address, client })
        } else {
            Err(AlertError::MissingEmail)
        }
    }
}

impl Sender {
    /// A fresh builder with no from-address captured yet.
    pub fn builder() -> (r: SenderBuilder)
        ensures
            r.address is None,
    {
        SenderBuilder { address: None }
    }

    /// Composes the email of one send: the destination's gateway address as
    /// the sole recipient, this sender's from-address as the sender, the
    /// given stamp as the message id, and the message's UTF-8 bytes as the
    /// body.  Fails with the content error exactly when lettre rejects the
    /// composed destination address.
    pub fn compose(&self, dest: &Destination, stamp: String, msg: &str) -> (r: Result<
        lettre::SendableEmail,
        AlertError,
    >)
        ensures
            r is Ok <==> accepted_email(address_of(dest@)),
            r matches Err(e) ==> e is Lettre,
            r matches Ok(email) ==> email_from_of(email) == Some(addr_str_of(self.address)),
            r matches Ok(email) ==> email_to_of(email) == seq![address_of(dest@)],
            r matches Ok(email) ==> email_id_of(email) == stamp@,
            r matches Ok(email) ==> email_body_of(email) == msg.spec_bytes(),
    {
        let to = match email_address_new(dest.address()) {
            Ok(a) => a,
            Err(e) => {
                return Err(AlertError::Lettre(e));
            },
        };
        let from = self.address.clone();
        let mut recipients: Vec<lettre::EmailAddress> = Vec::new();
        recipients.push(to);
        let env = match envelope_new(Some(from), recipients) {
            Ok(env) => env,
            Err(e) => {
                return Err(AlertError::Lettre(e));
            },
        };
        let email = sendable_email_new(env, stamp, slice_to_vec(msg.as_bytes()));
        proof {
            assert(email_to_of(email) =~= seq![address_of(dest@)]);
        }
        Ok(email)
    }

    /// Composes a message to the destination's gateway address — see
    /// [`Sender::compose`] — timestamps it with the current instant, and
    /// dispatches it through this sender's backend.  If lettre rejects the
    /// composed address, the send fails with the content error and nothing
    /// is dispatched.  A backend failure is wrapped in this backend's own
    /// error case.
    pub fn send_to(&mut self, dest: &Destination, msg: &str) -> (r: Result<(), AlertError>)
        ensures
            final(self).address == old(self).address,
            final(self).client is File <==> old(self).client is File,
            final(self).client is Sendmail <==> old(self).client is Sendmail,
            final(self).client is Smtp <==> old(self).client is Smtp,
            !accepted_email(address_of(dest@)) <==> (r matches Err(e) && e is Lettre),
            old(self).client is File ==> !(r matches Err(e) && (e is LettreSendMail || e
                is LettreSmtp || e is MissingEmail)),
            old(self).client is Sendmail ==> !(r matches Err(e) && (e is LettreFile || e
                is LettreSmtp || e is MissingEmail)),
            old(self).client is Smtp ==> !(r matches Err(e) && (e is LettreFile || e
                is LettreSendMail || e is MissingEmail)),
    {
        let stamp = now_rfc2822();
        let email = match self.compose(dest, stamp, msg) {
            Ok(email) => email,
            Err(e) => {
                return Err(e);
            },
        };
        match &mut self.client {
            Backend::File(t) => match file_send(t, email) {
                Ok(_) => Ok(()),
                Err(e) => Err(AlertError::LettreFile(e)),
            },
            Backend::Sendmail(t) => match sendmail_send(t, email) {
                Ok(_) => Ok(()),
                Err(e) => Err(AlertError::LettreSendMail(e)),
            },
            Backend::Smtp(t) => match smtp_send(t, email) {
                Ok(_) => Ok(()),
                Err(e) => Err(AlertError::LettreSmtp(e)),
            },
        }
    }
}

} // verus!
