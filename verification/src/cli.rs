//! The computation behind the command-line front end: one call that builds a
//! sender from collected options and dispatches the message.

use vstd::prelude::*;
use crate::carrier::Carrier;
use crate::destination::{Destination, DestinationModel, address_of, digits_of};
use crate::error::AlertError;
use crate::sender::Sender;
use crate::transport::accepted_email;

verus! {

/// The options of one send, as the command-line front end collects them.
pub struct Opts {
    /// The carrier whose gateway the message goes through.
    pub carrier: Carrier,
    /// The raw phone number; it is normalized to digits before sending.
    pub number: String,
    /// The SMTP domain to deliver through over TLS; `None` selects an
    /// unencrypted connection to localhost.
    pub domain: Option<String>,
    /// The from-address of the message.
    pub from: String,
    /// The message body.
    pub message: String,
}

/// Builds a sender bound to the options' from-address and SMTP backend,
/// composes the gateway destination, and sends the message.  Succeeds only
/// if lettre accepted both the from-address and the composed destination
/// address.
pub fn send_message(opts: &Opts) -> (r: Result<(), AlertError>)
    ensures
        r is Ok ==> accepted_email(opts.from@),
        accepted_email(opts.from@) ==> !(r matches Err(e) && e is MissingEmail),
        !accepted_email(opts.from@) ==> (r matches Err(e) && (e is MissingEmail || e
            is LettreSmtp)),
        r is Ok ==> accepted_email(
            address_of(
                DestinationModel {
                    number: digits_of(opts.number@),
                    carrier: opts.carrier@,
                },
            ),
        ),
{
    let builder = Sender::builder().address(opts.from.as_str());
    let picked = if let Some(domain) = &opts.domain {
        builder.smtp_simple(domain.as_str())
    } else {
        builder.smtp_unencrypted_localhost()
    };
    let mut sender = match picked {
        Ok(s) => s,
        Err(e) => {
            return Err(e);
        },
    };
    let dest = Destination::new(opts.number.as_str(), &opts.carrier);
    match sender.send_to(&dest, opts.message.as_str()) {
        Ok(_) => Ok(()),
        Err(e) => Err(e),
    }
}

} // verus!
