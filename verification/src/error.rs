//! The failures that end one connection, and how each is reported.

use vstd::prelude::*;

verus! {

/// `std::io::Error`, carried through without looking inside.
#[verifier::external_type_specification]
#[verifier::external_body]
pub struct ExIoError(std::io::Error);

/// `httparse::Error`, carried through without looking inside.
#[verifier::external_type_specification]
#[verifier::external_body]
pub struct ExParseError(httparse::Error);

/// `std::string::FromUtf8Error`, carried through without looking inside.
#[verifier::external_type_specification]
#[verifier::external_body]
pub struct ExFromUtf8Error(std::string::FromUtf8Error);

/// Why a connection was given up.
#[derive(Debug)]
pub enum HttpProxyError {
    /// A socket operation failed.
    Io(std::io::Error),
    /// The first bytes of the connection are not an HTTP request head.
    HttpParse(httparse::Error),
    /// The `Host` header does not hold UTF-8 text.
    FromUtf8(std::string::FromUtf8Error),
}

/// The three classes of failure, without the error values.
#[derive(Debug, Clone, Copy, PartialEq, Eq, Structural)]
pub enum Failure {
    Transport,
    Protocol,
    Encoding,
}

impl HttpProxyError {
    /// The class of this failure.
    pub open spec fn failure(self) -> Failure {
        match self {
            HttpProxyError::Io(_) => Failure::Transport,
            HttpProxyError::HttpParse(_) => Failure::Protocol,
            HttpProxyError::FromUtf8(_) => Failure::Encoding,
        }
    }

    /// The class of this failure.
    pub fn class(&self) -> (class: Failure)
        ensures
            class == self.failure(),
    {
        match self {
            HttpProxyError::Io(_) => Failure::Transport,
            HttpProxyError::HttpParse(_) => Failure::Protocol,
            HttpProxyError::FromUtf8(_) => Failure::Encoding,
        }
    }

    /// Whether this failure belongs in the error log. A request head that
    /// does not parse is expected noise and is left out; a transport failure
    /// is logged, and so is an encoding failure, as one of that class.
    pub fn is_reported(&self) -> (reported: bool)
        ensures
            reported == (self.failure() != Failure::Protocol),
    {
        match self {
            HttpProxyError::HttpParse(_) => false,
            _ => true,
        }
    }
}

impl From<std::io::Error> for HttpProxyError {
    fn from(err: std::io::Error) -> (error: HttpProxyError) {
        HttpProxyError::Io(err)
    }
}

impl vstd::std_specs::convert::FromSpecImpl<std::io::Error> for HttpProxyError {
    open spec fn obeys_from_spec() -> bool {
        true
    }

    open spec fn from_spec(err: std::io::Error) -> HttpProxyError {
        HttpProxyError::Io(err)
    }
}

impl From<httparse::Error> for HttpProxyError {
    fn from(err: httparse::Error) -> (error: HttpProxyError) {
        HttpProxyError::HttpParse(err)
    }
}

impl vstd::std_specs::convert::FromSpecImpl<httparse::Error> for HttpProxyError {
    open spec fn obeys_from_spec() -> bool {
        true
    }

    open spec fn from_spec(err: httparse::Error) -> HttpProxyError {
        HttpProxyError::HttpParse(err)
    }
}

impl From<std::string::FromUtf8Error> for HttpProxyError {
    fn from(err: std::string::FromUtf8Error) -> (error: HttpProxyError) {
        HttpProxyError::FromUtf8(err)
    }
}

impl vstd::std_specs::convert::FromSpecImpl<std::string::FromUtf8Error> for HttpProxyError {
    open spec fn obeys_from_spec() -> bool {
        true
    }

    open spec fn from_spec(err: std::string::FromUtf8Error) -> HttpProxyError {
        HttpProxyError::FromUtf8(err)
    }
}

} // verus!
