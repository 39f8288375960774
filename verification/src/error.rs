//! The failures of rendering and of a query call.

use vstd::prelude::*;
use vstd::string::StringExecFns;

verus! {

/// Why a template could not be rendered.
#[derive(Debug, PartialEq, Eq)]
pub enum RenderError {
    /// A placeholder names a parameter that the map does not bind.
    UnknownParameter(String),
    /// A value of kind `Identifier` is not an identifier.
    InvalidIdentifier(String),
    /// A `{{` has no `}}` after it.
    MalformedTemplate,
    /// A value of kind `Float` is not a decimal with a fractional digit.
    InvalidFloat(String),
    /// A value of kind `Duration` is not a sequence of `<int><unit>` pairs.
    InvalidDuration(String),
    /// A value of kind `Timestamp` is not an RFC 3339 UTC date-time.
    InvalidTimestamp(String),
}

/// A [`RenderError`] as plain text.
pub enum RenderErrorView {
    UnknownParameter(Seq<char>),
    InvalidIdentifier(Seq<char>),
    MalformedTemplate,
    InvalidFloat(Seq<char>),
    InvalidDuration(Seq<char>),
    InvalidTimestamp(Seq<char>),
}

impl View for RenderError {
    type V = RenderErrorView;

    open spec fn view(&self) -> RenderErrorView {
        match self {
            RenderError::UnknownParameter(s) => RenderErrorView::UnknownParameter(s@),
            RenderError::InvalidIdentifier(s) => RenderErrorView::InvalidIdentifier(s@),
            RenderError::MalformedTemplate => RenderErrorView::MalformedTemplate,
            RenderError::InvalidFloat(s) => RenderErrorView::InvalidFloat(s@),
            RenderError::InvalidDuration(s) => RenderErrorView::InvalidDuration(s@),
            RenderError::InvalidTimestamp(s) => RenderErrorView::InvalidTimestamp(s@),
        }
    }
}

impl RenderErrorView {
    /// The diagnostic text: what went wrong, then the offending name or value.
    pub open spec fn message(self) -> Seq<char> {
        match self {
            RenderErrorView::UnknownParameter(s) => "unknown parameter: "@ + s,
            RenderErrorView::InvalidIdentifier(s) => "invalid identifier: "@ + s,
            RenderErrorView::MalformedTemplate => "malformed template: unclosed placeholder"@,
            RenderErrorView::InvalidFloat(s) => "invalid float: "@ + s,
            RenderErrorView::InvalidDuration(s) => "invalid duration: "@ + s,
            RenderErrorView::InvalidTimestamp(s) => "invalid timestamp: "@ + s,
        }
    }
}

impl Clone for RenderError {
    fn clone(&self) -> (r: RenderError)
        ensures
            r@ == self@,
    {
        match self {
            RenderError::UnknownParameter(s) => RenderError::UnknownParameter(s.clone()),
            RenderError::InvalidIdentifier(s) => RenderError::InvalidIdentifier(s.clone()),
            RenderError::MalformedTemplate => RenderError::MalformedTemplate,
            RenderError::InvalidFloat(s) => RenderError::InvalidFloat(s.clone()),
            RenderError::InvalidDuration(s) => RenderError::InvalidDuration(s.clone()),
            RenderError::InvalidTimestamp(s) => RenderError::InvalidTimestamp(s.clone()),
        }
    }
}

impl RenderError {
    /// The diagnostic text of this error.
    pub fn message(&self) -> (m: String)
        ensures
            m@ == self@.message(),
    {
        match self {
            RenderError::UnknownParameter(s) => String::from_str("unknown parameter: ").concat(
                s.as_str(),
            ),
            RenderError::InvalidIdentifier(s) => String::from_str("invalid identifier: ").concat(
                s.as_str(),
            ),
            RenderError::MalformedTemplate => String::from_str(
                "malformed template: unclosed placeholder",
            ),
            RenderError::InvalidFloat(s) => String::from_str("invalid float: ").concat(s.as_str()),
            RenderError::InvalidDuration(s) => String::from_str("invalid duration: ").concat(
                s.as_str(),
            ),
            RenderError::InvalidTimestamp(s) => String::from_str("invalid timestamp: ").concat(
                s.as_str(),
            ),
        }
    }
}

/// Why a query call failed.
#[derive(Debug, PartialEq, Eq)]
pub enum Error {
    /// The template could not be rendered; no request was sent.
    QueryRender(RenderError),
    /// The transport failed before a complete response arrived; the text is
    /// the transport's diagnostic.
    Transport(String),
    /// The server answered with a status outside 2xx; the text is the
    /// `message` of its error body, empty where there was none.
    Influxdb(String),
}

/// An [`Error`] as plain text.
pub enum ErrorView {
    QueryRender(RenderErrorView),
    Transport(Seq<char>),
    Influxdb(Seq<char>),
}

impl View for Error {
    type V = ErrorView;

    open spec fn view(&self) -> ErrorView {
        match self {
            Error::QueryRender(e) => ErrorView::QueryRender(e@),
            Error::Transport(s) => ErrorView::Transport(s@),
            Error::Influxdb(s) => ErrorView::Influxdb(s@),
        }
    }
}

impl ErrorView {
    /// The diagnostic text for an operator. A transport failure speaks for
    /// itself; the other two kinds are introduced.
    pub open spec fn message(self) -> Seq<char> {
        match self {
            ErrorView::QueryRender(e) => "query render error: "@ + e.message(),
            ErrorView::Transport(s) => s,
            ErrorView::Influxdb(s) => "error response from InfluxDB: "@ + s,
        }
    }
}

impl Clone for Error {
    fn clone(&self) -> (r: Error)
        ensures
            r@ == self@,
    {
        match self {
            Error::QueryRender(e) => Error::QueryRender(e.clone()),
            Error::Transport(s) => Error::Transport(s.clone()),
            Error::Influxdb(s) => Error::Influxdb(s.clone()),
        }
    }
}

impl Error {
    /// The diagnostic text of this error.
    pub fn message(&self) -> (m: String)
        ensures
            m@ == self@.message(),
    {
        match self {
            Error::QueryRender(e) => {
                let inner = e.message();
                String::from_str("query render error: ").concat(inner.as_str())
            },
            Error::Transport(s) => s.clone(),
            Error::Influxdb(s) => String::from_str("error response from InfluxDB: ").concat(
                s.as_str(),
            ),
        }
    }
}

} // verus!
