//! The failures that the client reports.

use crate::text::decimal;
use crate::text::decimal_text;
use crate::text::join2;
use crate::text::join3;
use vstd::prelude::*;

verus! {

/// Why a configuration could not be built.
#[derive(Debug)]
pub enum NvisyConfigBuilderError {
    /// A setting without a default was never given; holds its name.
    UninitializedField(&'static str),
    /// A setting was given a value that the rules refuse; holds the reason.
    ValidationError(String),
}

/// A failure of one HTTP exchange.
#[derive(Debug)]
pub enum HttpError {
    /// The transport failed: no connection, a timeout, a broken body.
    Transport(String),
    /// The server answered with a status outside the success range.
    Status {
        /// The status code of the answer.
        status: u16,
        /// The body that came with it.
        body: Vec<u8>,
    },
}

/// Everything that can go wrong in a call of the client.
#[non_exhaustive]
#[derive(Debug)]
pub enum Error {
    /// The HTTP exchange failed, or was answered with a failure status.
    Http(HttpError),
    /// A JSON body could not be written or read.
    Serialization(String),
    /// The configuration is incomplete or breaks a rule.
    Config(NvisyConfigBuilderError),
    /// A text is not a URL.
    UrlParse(url::ParseError),
    /// A local file could not be read or written.
    Io(std::io::Error),
    /// The server's answer was well formed and still unusable.
    Api(String),
}

/// The result of a call of the client.
pub type Result<T, E = Error> = std::result::Result<T, E>;

impl From<HttpError> for Error {
    fn from(cause: HttpError) -> (error: Error) {
        Error::Http(cause)
    }
}

impl vstd::std_specs::convert::FromSpecImpl<HttpError> for Error {
    open spec fn obeys_from_spec() -> bool {
        true
    }

    open spec fn from_spec(cause: HttpError) -> Error {
        Error::Http(cause)
    }
}

impl From<NvisyConfigBuilderError> for Error {
    fn from(cause: NvisyConfigBuilderError) -> (error: Error) {
        Error::Config(cause)
    }
}

impl vstd::std_specs::convert::FromSpecImpl<NvisyConfigBuilderError> for Error {
    open spec fn obeys_from_spec() -> bool {
        true
    }

    open spec fn from_spec(cause: NvisyConfigBuilderError) -> Error {
        Error::Config(cause)
    }
}

impl From<url::ParseError> for Error {
    fn from(cause: url::ParseError) -> (error: Error) {
        Error::UrlParse(cause)
    }
}

impl vstd::std_specs::convert::FromSpecImpl<url::ParseError> for Error {
    open spec fn obeys_from_spec() -> bool {
        true
    }

    open spec fn from_spec(cause: url::ParseError) -> Error {
        Error::UrlParse(cause)
    }
}

impl From<std::io::Error> for Error {
    fn from(cause: std::io::Error) -> (error: Error) {
        Error::Io(cause)
    }
}

impl vstd::std_specs::convert::FromSpecImpl<std::io::Error> for Error {
    open spec fn obeys_from_spec() -> bool {
        true
    }

    open spec fn from_spec(cause: std::io::Error) -> Error {
        Error::Io(cause)
    }
}

impl NvisyConfigBuilderError {
    /// What `message` writes.
    pub open spec fn message_text(self) -> Seq<char> {
        match self {
            NvisyConfigBuilderError::UninitializedField(name) => "`"@ + name@
                + "` must be initialized"@,
            NvisyConfigBuilderError::ValidationError(reason) => reason@,
        }
    }

    /// The failure in words.
    pub fn message(&self) -> (text: String)
        ensures
            text@ == self.message_text(),
    {
        match self {
            NvisyConfigBuilderError::UninitializedField(name) => join3(
                "`",
                name,
                "` must be initialized",
            ),
            NvisyConfigBuilderError::ValidationError(reason) => reason.clone(),
        }
    }
}

impl HttpError {
    /// What `message` writes.
    pub open spec fn message_text(self) -> Seq<char> {
        match self {
            HttpError::Transport(cause) => cause@,
            HttpError::Status { status, body } => "status "@ + decimal_text(status as nat),
        }
    }

    /// The failure in words.
    pub fn message(&self) -> (text: String)
        ensures
            text@ == self.message_text(),
    {
        match self {
            HttpError::Transport(cause) => cause.clone(),
            HttpError::Status { status, body } => {
                let code = decimal(*status as u64);
                join2("status ", code.as_str())
            },
        }
    }
}

impl Error {
    /// Whether `text` is what `message` may write for this failure.
    pub open spec fn is_message(self, text: Seq<char>) -> bool {
        match self {
            Error::Http(cause) => text == "HTTP error: "@ + cause.message_text(),
            Error::Serialization(cause) => text == "Serialization error: "@ + cause@,
            Error::Config(cause) => text == "Configuration error: "@ + cause.message_text(),
            Error::UrlParse(cause) => exists|inner: String|
                vstd::string::to_string_from_display_ensures::<url::ParseError>(&cause, inner)
                    && text == "URL parse error: "@ + inner@,
            Error::Io(cause) => exists|inner: String|
                vstd::string::to_string_from_display_ensures::<std::io::Error>(&cause, inner)
                    && text == "I/O error: "@ + inner@,
            Error::Api(cause) => text == "API error: "@ + cause@,
        }
    }

    /// The failure in words: the kind of failure, a colon, and its cause.
    pub fn message(&self) -> (text: String)
        ensures
            self.is_message(text@),
    {
        match self {
            Error::Http(cause) => {
                let inner = cause.message();
                join2("HTTP error: ", inner.as_str())
            },
            Error::Serialization(cause) => join2("Serialization error: ", cause.as_str()),
            Error::Config(cause) => {
                let inner = cause.message();
                join2("Configuration error: ", inner.as_str())
            },
            Error::UrlParse(cause) => {
                let inner = cause.to_string();
                join2("URL parse error: ", inner.as_str())
            },
            Error::Io(cause) => {
                let inner = cause.to_string();
                join2("I/O error: ", inner.as_str())
            },
            Error::Api(cause) => join2("API error: ", cause.as_str()),
        }
    }
}

} // verus!
