//! What comes back from a fetch, and the error that a failed one reports.
//!
//! The transport hands over what it saw in two steps. First the reply: no
//! response at all, or a response with its status code and its body, still
//! unread. [`Reply::check`] gives the body back only if the status is in the
//! success range. What the decoder made of that body is the second step, and
//! [`finish`] ends the fetch with it: the typed value or one [`Error`].
//! Nothing is retried and no partial result is kept.

use vstd::prelude::*;
use crate::decimal::{append_decimal, decimal};

verus! {

/// The three ways in which a fetch fails.
#[derive(Copy, Clone, Debug, PartialEq, Eq, Structural)]
pub enum ErrorKind {
    /// No response was received.
    Transport,
    /// A response was received with a status outside the success range.
    Status,
    /// The body of a successful response could not be decoded.
    Decode,
}

/// Why a fetch failed.
#[derive(Debug, PartialEq, Eq)]
pub enum Error {
    /// The exchange itself failed: the network, the connection or TLS. The
    /// text is the transport's own report, unchanged.
    Transport(String),
    /// The endpoint answered with this status code, which is outside the
    /// success range. The body of such a response is discarded unread.
    Status(u16),
    /// The body was not valid JSON or did not have the shape of the expected
    /// schema. The text is the decoder's own report, unchanged.
    Decode(String),
}

impl Error {
    /// Which of the three ways of failing this is.
    pub open spec fn kind_of(self) -> ErrorKind {
        match self {
            Error::Transport(_) => ErrorKind::Transport,
            Error::Status(_) => ErrorKind::Status,
            Error::Decode(_) => ErrorKind::Decode,
        }
    }

    /// The status code that a status error carries.
    pub open spec fn status_of(self) -> Option<u16> {
        match self {
            Error::Status(code) => Some(code),
            _ => None,
        }
    }

    /// The text that describes this error.
    pub open spec fn description(self) -> Seq<char> {
        match self {
            Error::Transport(report) => "transport error: "@ + report@,
            Error::Status(code) => "status error: HTTP "@ + decimal(code as nat),
            Error::Decode(report) => "decode error: "@ + report@,
        }
    }

    /// Which of the three ways of failing this is.
    pub fn kind(&self) -> (kind: ErrorKind)
        ensures
            kind == self.kind_of(),
    {
        match self {
            Error::Transport(_) => ErrorKind::Transport,
            Error::Status(_) => ErrorKind::Status,
            Error::Decode(_) => ErrorKind::Decode,
        }
    }

    /// The status code, if this is a status error.
    pub fn status(&self) -> (code: Option<u16>)
        ensures
            code == self.status_of(),
    {
        match self {
            Error::Status(code) => Some(*code),
            _ => None,
        }
    }

    /// Describes this error in one line.
    pub fn to_string(&self) -> (line: String)
        ensures
            line@ == self.description(),
    {
        match self {
            Error::Transport(report) => {
                let mut line = "transport error: ".to_owned();
                line.append(report.as_str());
                line
            },
            Error::Status(code) => {
                let mut line = "status error: HTTP ".to_owned();
                append_decimal(&mut line, *code as u64);
                line
            },
            Error::Decode(report) => {
                let mut line = "decode error: ".to_owned();
                line.append(report.as_str());
                line
            },
        }
    }
}

/// The success range of HTTP status codes: 200 to 299.
pub open spec fn is_success(status: u16) -> bool {
    200 <= status <= 299
}

/// What the transport reports once a request has been sent. `B` is whatever
/// the transport reads the body from; it is carried along unread.
#[derive(Debug, PartialEq, Eq)]
pub enum Reply<B> {
    /// No response was received; the text is the transport's report.
    Failed(String),
    /// A response was received, with this status code and this body.
    Answered(u16, B),
}

impl<B> Reply<B> {
    /// What a fetch does with this reply: it goes on with the body of a
    /// response whose status is in the success range, and ends with an error
    /// on any other reply.
    pub open spec fn verdict(self) -> Result<B, Error> {
        match self {
            Reply::Failed(report) => Err(Error::Transport(report)),
            Reply::Answered(status, body) => if is_success(status) {
                Ok(body)
            } else {
                Err(Error::Status(status))
            },
        }
    }

    /// Decides what a fetch does with this reply. A failed exchange ends it
    /// with a transport error, and a status outside 200..=299 with a status
    /// error that carries the code; the body of such a response is dropped
    /// here, unread. Only the body of a successful response is handed back,
    /// to be decoded.
    pub fn check(self) -> (checked: Result<B, Error>)
        ensures
            checked == self.verdict(),
    {
        match self {
            Reply::Failed(report) => Err(Error::Transport(report)),
            Reply::Answered(status, body) => {
                if 200 <= status && status <= 299 {
                    Ok(body)
                } else {
                    Err(Error::Status(status))
                }
            },
        }
    }
}

/// Whatever the body holds, a response with a status outside the success
/// range ends the fetch with a status error that carries that status.
pub proof fn lemma_unsuccessful_status_is_status_error<B>(status: u16, body: B)
    requires
        !is_success(status),
    ensures
        Reply::Answered(status, body).verdict() == Err::<B, Error>(Error::Status(status)),
        Error::Status(status).kind_of() == ErrorKind::Status,
        Error::Status(status).status_of() == Some(status),
{
}

/// What a fetch ends with once the body of a successful response has been
/// through the decoder.
pub open spec fn outcome<T>(decoded: Result<T, String>) -> Result<T, Error> {
    match decoded {
        Ok(value) => Ok(value),
        Err(report) => Err(Error::Decode(report)),
    }
}

/// Ends a fetch with what decoding the body gave: the typed value as it is,
/// or a decode error that carries the decoder's report.
pub fn finish<T>(decoded: Result<T, String>) -> (ended: Result<T, Error>)
    ensures
        ended == outcome(decoded),
{
    match decoded {
        Ok(value) => Ok(value),
        Err(report) => Err(Error::Decode(report)),
    }
}

/// A body that the decoder refused never yields a value: the fetch ends with
/// a decode error.
pub proof fn lemma_refused_body_is_decode_error<T>(decoded: Result<T, String>)
    requires
        decoded is Err,
    ensures
        outcome(decoded) is Err,
        outcome(decoded)->Err_0 == Error::Decode(decoded->Err_0),
        outcome(decoded)->Err_0.kind_of() == ErrorKind::Decode,
{
}

} // verus!
