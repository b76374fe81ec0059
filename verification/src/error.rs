//! The unified error taxonomy: one case per delivery backend's native error
//! type, plus the configuration error of finishing a builder without a valid
//! from-address.

use vstd::prelude::*;
use crate::transport::{
    content_err_text_of, email_error_text, file_err_text_of, file_error_text,
    sendmail_err_text_of, sendmail_error_text, smtp_err_text_of, smtp_error_text,
};

verus! {

use vstd::string::StringExecFns;

/// Everything that can go wrong while building a sender or sending a
/// message.  Each backend's native error is wrapped losslessly.
#[derive(Debug)]
pub enum AlertError {
    /// An email-content error: a malformed address or envelope.
    Lettre(lettre::error::Error),
    /// A file-backend error.
    LettreFile(lettre::file::error::Error),
    /// A sendmail-backend error.
    LettreSendMail(lettre::sendmail::error::Error),
    /// An SMTP-backend error.
    LettreSmtp(lettre::smtp::error::Error),
    /// No valid from-address was supplied before a backend was picked.
    MissingEmail,
}

impl AlertError {
    /// A human-readable description, delegated to the wrapped cause, or a
    /// fixed string for the missing-email case.
    pub fn message(&self) -> (r: String)
        ensures
            self is MissingEmail ==> r@ == "Error, email address to build a Sender"@,
            self matches AlertError::Lettre(e) ==> r@ == content_err_text_of(*e),
            self matches AlertError::LettreFile(e) ==> r@ == file_err_text_of(*e),
            self matches AlertError::LettreSendMail(e) ==> r@ == sendmail_err_text_of(*e),
            self matches AlertError::LettreSmtp(e) ==> r@ == smtp_err_text_of(*e),
    {
        match self {
            AlertError::Lettre(e) => email_error_text(e),
            AlertError::LettreFile(e) => file_error_text(e),
            AlertError::LettreSendMail(e) => sendmail_error_text(e),
            AlertError::LettreSmtp(e) => smtp_error_text(e),
            AlertError::MissingEmail => String::from_str("Error, email address to build a Sender"),
        }
    }
}

impl From<lettre::error::Error> for AlertError {
    fn from(other: lettre::error::Error) -> (r: Self) {
        AlertError::Lettre(other)
    }
}

impl vstd::std_specs::convert::FromSpecImpl<lettre::error::Error> for AlertError {
    open spec fn obeys_from_spec() -> bool {
        true
    }

    open spec fn from_spec(t: lettre::error::Error) -> Self {
        AlertError::Lettre(t)
    }
}

impl From<lettre::file::error::Error> for AlertError {
    fn from(other: lettre::file::error::Error) -> (r: Self) {
        AlertError::LettreFile(other)
    }
}

impl vstd::std_specs::convert::FromSpecImpl<lettre::file::error::Error> for AlertError {
    open spec fn obeys_from_spec() -> bool {
        true
    }

    open spec fn from_spec(t: lettre::file::error::Error) -> Self {
        AlertError::LettreFile(t)
    }
}

impl From<lettre::sendmail::error::Error> for AlertError {
    fn from(other: lettre::sendmail::error::Error) -> (r: Self) {
        AlertError::LettreSendMail(other)
    }
}

impl vstd::std_specs::convert::FromSpecImpl<lettre::sendmail::error::Error> for AlertError {
    open spec fn obeys_from_spec() -> bool {
        true
    }

    open spec fn from_spec(t: lettre::sendmail::error::Error) -> Self {
        AlertError::LettreSendMail(t)
    }
}

impl From<lettre::smtp::error::Error> for AlertError {
    fn from(other: lettre::smtp::error::Error) -> (r: Self) {
        AlertError::LettreSmtp(other)
    }
}

impl vstd::std_specs::convert::FromSpecImpl<lettre::smtp::error::Error> for AlertError {
    open spec fn obeys_from_spec() -> bool {
        true
    }

    open spec fn from_spec(t: lettre::smtp::error::Error) -> Self {
        AlertError::LettreSmtp(t)
    }
}

} // verus!
