//! The kinds of failure a client connection can meet, and what each means
//! for the caller's next step.

use vstd::prelude::*;

verus! {

/// What the caller can do about a failure.
#[derive(Clone, Copy, Debug, PartialEq, Eq, Structural)]
pub enum ErrorClass {
    /// The server could not be reached: try another address or transport.
    Transport,
    /// The server's identity could not be trusted: do not retry it without
    /// a change of configuration.
    Authentication,
    /// The caller's own TLS configuration is broken.
    Configuration,
}

/// A configuration mistake found while staging a builder.
#[derive(Clone, Copy, Debug, PartialEq, Eq, Structural)]
pub enum ConfigError {
    /// The bytes handed to `add_ca` are not a DER certificate.
    BadCertificate,
}

/// The step at which a connection attempt stopped.
#[derive(Clone, Copy, Debug, PartialEq, Eq, Structural)]
pub enum AttemptStage {
    /// Opening the TCP connection.
    TcpConnect,
    /// The expected name is not a valid DNS name.
    NameCheck,
    /// The TLS handshake, which authenticates the server's certificate.
    TlsHandshake,
    /// The HTTP/2 handshake over the established TLS session.
    Http2Handshake,
}

/// The class of a failure at each step of a connection attempt.
pub open spec fn class_of(stage: AttemptStage) -> ErrorClass {
    match stage {
        AttemptStage::TcpConnect => ErrorClass::Transport,
        AttemptStage::NameCheck => ErrorClass::Configuration,
        AttemptStage::TlsHandshake => ErrorClass::Authentication,
        AttemptStage::Http2Handshake => ErrorClass::Transport,
    }
}

/// The class of a failure at the given step: a refused or lost TCP
/// connection or a failed HTTP/2 setup is a transport error, a rejected
/// certificate an authentication error, a name that cannot be checked a
/// configuration error.
pub fn classify(stage: AttemptStage) -> (r: ErrorClass)
    ensures
        r == class_of(stage),
        stage == AttemptStage::TcpConnect ==> r == ErrorClass::Transport,
        stage == AttemptStage::TlsHandshake ==> r == ErrorClass::Authentication,
{
    match stage {
        AttemptStage::TcpConnect => ErrorClass::Transport,
        AttemptStage::NameCheck => ErrorClass::Configuration,
        AttemptStage::TlsHandshake => ErrorClass::Authentication,
        AttemptStage::Http2Handshake => ErrorClass::Transport,
    }
}

/// Whether trying another address or transport can help: only after a
/// transport failure. An authentication failure needs a change of
/// configuration, and so does a configuration error.
pub fn may_retry_elsewhere(class: ErrorClass) -> (r: bool)
    ensures
        r == (class == ErrorClass::Transport),
{
    match class {
        ErrorClass::Transport => true,
        _ => false,
    }
}

impl ConfigError {
    /// Every configuration mistake is of the configuration class.
    pub fn class(&self) -> (r: ErrorClass)
        ensures
            r == ErrorClass::Configuration,
    {
        ErrorClass::Configuration
    }
}

} // verus!
