//! Error taxonomy: terminal failures, I/O, initialisation, event handling and
//! closed or full channels, each with the place it concerns.

use vstd::prelude::*;
use vstd::string::StringExecFns;

verus! {

/// A span of a source text: its byte offset and its length.
#[derive(Debug, Clone, Copy, PartialEq, Eq)]
pub struct SourceSpan {
    pub offset: usize,
    pub length: usize,
}

impl SourceSpan {
    /// The span of `length` bytes starting at `offset`.
    pub fn new(offset: usize, length: usize) -> (s: Self)
        ensures
            s.offset == offset,
            s.length == length,
    {
        SourceSpan { offset, length }
    }
}

impl From<(usize, usize)> for SourceSpan {
    fn from(t: (usize, usize)) -> (s: Self) {
        SourceSpan { offset: t.0, length: t.1 }
    }
}

impl vstd::std_specs::convert::FromSpecImpl<(usize, usize)> for SourceSpan {
    open spec fn obeys_from_spec() -> bool {
        true
    }

    open spec fn from_spec(t: (usize, usize)) -> SourceSpan {
        SourceSpan { offset: t.0, length: t.1 }
    }
}

/// The failures the runtime reports.
#[derive(Debug)]
pub enum OxittyError {
    /// A terminal operation failed (setup, polling, reading, rendering).
    Terminal { src: String, err_span: SourceSpan, msg: String },
    /// An input/output operation failed.
    Io { src: String, err_span: SourceSpan, msg: String },
    /// Initialisation failed; `path` names the resource concerned.
    InitError { path: String, src: String, err_span: SourceSpan, msg: String },
    /// The event system failed.
    Event { src: String, err_span: SourceSpan, msg: String },
    /// A channel was closed.
    ChannelClosed { src: String, err_span: SourceSpan },
    /// A channel was at capacity and refused a message; the message was
    /// dropped, and sending may succeed later.
    ChannelFull { src: String, err_span: SourceSpan },
}

/// The result type of the runtime's fallible operations.
pub type OxittyResult<T> = Result<T, OxittyError>;

/// The span `(offset, length)`.
pub open spec fn span_of(t: (usize, usize)) -> SourceSpan {
    SourceSpan { offset: t.0, length: t.1 }
}

impl OxittyError {
    /// A terminal error.
    pub fn terminal(src: String, err_span: (usize, usize), msg: String) -> (e: Self)
        ensures
            e == (OxittyError::Terminal { src, err_span: span_of(err_span), msg }),
    {
        OxittyError::Terminal { src, err_span: SourceSpan::new(err_span.0, err_span.1), msg }
    }

    /// An input/output error.
    pub fn io(src: String, err_span: (usize, usize), msg: String) -> (e: Self)
        ensures
            e == (OxittyError::Io { src, err_span: span_of(err_span), msg }),
    {
        OxittyError::Io { src, err_span: SourceSpan::new(err_span.0, err_span.1), msg }
    }

    /// An initialisation error about `path`.
    pub fn init(path: String, src: String, err_span: (usize, usize), msg: String) -> (e: Self)
        ensures
            e == (OxittyError::InitError { path, src, err_span: span_of(err_span), msg }),
    {
        OxittyError::InitError { path, src, err_span: SourceSpan::new(err_span.0, err_span.1), msg }
    }

    /// An event-system error.
    pub fn event(src: String, err_span: (usize, usize), msg: String) -> (e: Self)
        ensures
            e == (OxittyError::Event { src, err_span: span_of(err_span), msg }),
    {
        OxittyError::Event { src, err_span: SourceSpan::new(err_span.0, err_span.1), msg }
    }

    /// A closed-channel error.
    pub fn channel_closed(src: String, err_span: (usize, usize)) -> (e: Self)
        ensures
            e == (OxittyError::ChannelClosed { src, err_span: span_of(err_span) }),
    {
        OxittyError::ChannelClosed { src, err_span: SourceSpan::new(err_span.0, err_span.1) }
    }

    /// A full-channel error.
    pub fn channel_full(src: String, err_span: (usize, usize)) -> (e: Self)
        ensures
            e == (OxittyError::ChannelFull { src, err_span: span_of(err_span) }),
    {
        OxittyError::ChannelFull { src, err_span: SourceSpan::new(err_span.0, err_span.1) }
    }

    /// The one-line description of the error.
    pub fn message(&self) -> (m: String)
        ensures
            m@ == match self {
                OxittyError::Terminal { msg, .. } => "Terminal error: "@ + msg@,
                OxittyError::Io { msg, .. } => "IO error: "@ + msg@,
                OxittyError::InitError { msg, .. } => "Initialization error: "@ + msg@,
                OxittyError::Event { msg, .. } => "Event error: "@ + msg@,
                OxittyError::ChannelClosed { .. } => "Channel closed"@,
                OxittyError::ChannelFull { .. } => "Channel full"@,
            },
    {
        match self {
            OxittyError::Terminal { msg, .. } => {
                let mut m = String::from_str("Terminal error: ");
                m.append(msg.as_str());
                m
            },
            OxittyError::Io { msg, .. } => {
                let mut m = String::from_str("IO error: ");
                m.append(msg.as_str());
                m
            },
            OxittyError::InitError { msg, .. } => {
                let mut m = String::from_str("Initialization error: ");
                m.append(msg.as_str());
                m
            },
            OxittyError::Event { msg, .. } => {
                let mut m = String::from_str("Event error: ");
                m.append(msg.as_str());
                m
            },
            OxittyError::ChannelClosed { .. } => String::from_str("Channel closed"),
            OxittyError::ChannelFull { .. } => String::from_str("Channel full"),
        }
    }
}

} // verus!
