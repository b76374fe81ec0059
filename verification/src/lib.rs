//! A small helper library for sending notifications as text messages through
//! a carrier's email-to-SMS gateway.  A phone number and a carrier are reduced
//! to a gateway address `<digits>@<carrier-domain>`, and a configured `Sender`
//! composes a message and hands it to one of several delivery backends
//! (a file sink, the local `sendmail` command, or an SMTP client).

pub mod carrier;
pub mod destination;
pub mod cli;
pub mod config;
pub mod echo_transport;
pub mod error;
pub mod sender;
pub mod text;
pub mod transport;

pub use carrier::Carrier;
pub use destination::Destination;
pub use cli::{Opts, send_message};
pub use config::{Config, TransportChoice};
pub use echo_transport::EchoTransport;
pub use error::AlertError;
pub use sender::{Backend, Sender, SenderBuilder};
pub use lettre::smtp::client::net::ClientTlsParameters;
pub use lettre::smtp::{ClientSecurity, SmtpClient};
