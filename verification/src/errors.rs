//! Error type shared by every layer of the replication client.

use vstd::prelude::*;
use vstd::string::StringExecFns;

verus! {

/// Every failure the library reports.
#[derive(Debug, Clone)]
pub enum ReplicationError {
    /// The driver could not connect, or the connection was lost.
    Connection { message: String },
    /// A configuration value was rejected.
    Configuration { message: String },
    /// A bounds or format violation inside a frame.
    MessageParsing { message: String, context: Option<String> },
    /// An unexpected server status, a framing violation, an unknown tag or a
    /// broken constraint between messages.
    Protocol { message: String, context: Option<String> },
    /// A buffer could not be used as asked.
    BufferOperation { message: String },
    /// A low-level read or write failed in the driver or in a sink transport.
    NetworkIO { message: String },
    /// A sink gave up on an event.
    Sink { message: String, sink: String },
}

/// Mathematical content of a `ReplicationError`.
pub enum ErrorView {
    Connection { message: Seq<char> },
    Configuration { message: Seq<char> },
    MessageParsing { message: Seq<char>, context: Option<Seq<char>> },
    Protocol { message: Seq<char>, context: Option<Seq<char>> },
    BufferOperation { message: Seq<char> },
    NetworkIO { message: Seq<char> },
    Sink { message: Seq<char>, sink: Seq<char> },
}

/// Result type of the library.
pub type ReplicationResult<T> = Result<T, ReplicationError>;

pub open spec fn opt_string_view(s: Option<String>) -> Option<Seq<char>> {
    match s {
        Some(t) => Some(t@),
        None => None,
    }
}

/// A parse error without context.
pub open spec fn parse_error(message: Seq<char>) -> ErrorView {
    ErrorView::MessageParsing { message, context: None }
}

/// A protocol error without context.
pub open spec fn protocol_error(message: Seq<char>) -> ErrorView {
    ErrorView::Protocol { message, context: None }
}

/// A configuration error.
pub open spec fn config_error(message: Seq<char>) -> ErrorView {
    ErrorView::Configuration { message }
}

impl View for ReplicationError {
    type V = ErrorView;

    open spec fn view(&self) -> ErrorView {
        match *self {
            ReplicationError::Connection { message } => ErrorView::Connection {
                message: message@,
            },
            ReplicationError::Configuration { message } => ErrorView::Configuration {
                message: message@,
            },
            ReplicationError::MessageParsing { message, context } => ErrorView::MessageParsing {
                message: message@,
                context: opt_string_view(context),
            },
            ReplicationError::Protocol { message, context } => ErrorView::Protocol {
                message: message@,
                context: opt_string_view(context),
            },
            ReplicationError::BufferOperation { message } => ErrorView::BufferOperation {
                message: message@,
            },
            ReplicationError::NetworkIO { message } => ErrorView::NetworkIO { message: message@ },
            ReplicationError::Sink { message, sink } => ErrorView::Sink {
                message: message@,
                sink: sink@,
            },
        }
    }
}

impl ErrorView {
    /// The message carried by the error, whatever its variant.
    pub open spec fn message(self) -> Seq<char> {
        match self {
            ErrorView::Connection { message } => message,
            ErrorView::Configuration { message } => message,
            ErrorView::MessageParsing { message, .. } => message,
            ErrorView::Protocol { message, .. } => message,
            ErrorView::BufferOperation { message } => message,
            ErrorView::NetworkIO { message } => message,
            ErrorView::Sink { message, .. } => message,
        }
    }

    /// The fixed text that introduces the message when the error is rendered.
    pub open spec fn prefix(self) -> Seq<char> {
        match self {
            ErrorView::Connection { .. } => "Database connection error: "@,
            ErrorView::Configuration { .. } => "Configuration error: "@,
            ErrorView::MessageParsing { .. } => "Message parsing error: "@,
            ErrorView::Protocol { .. } => "Protocol error: "@,
            ErrorView::BufferOperation { .. } => "Buffer operation error: "@,
            ErrorView::NetworkIO { .. } => "Network IO error: "@,
            ErrorView::Sink { .. } => "Sink error: "@,
        }
    }

    /// The one-line rendering of the error.
    pub open spec fn rendered(self) -> Seq<char> {
        self.prefix() + self.message()
    }
}

impl ReplicationError {
    /// A connection error.
    pub fn connection(message: &str) -> (e: Self)
        ensures
            e@ == (ErrorView::Connection { message: message@ }),
    {
        ReplicationError::Connection { message: String::from_str(message) }
    }

    /// A configuration error.
    pub fn config(message: &str) -> (e: Self)
        ensures
            e@ == config_error(message@),
    {
        ReplicationError::Configuration { message: String::from_str(message) }
    }

    /// A parse error without context.
    pub fn parse(message: &str) -> (e: Self)
        ensures
            e@ == parse_error(message@),
    {
        ReplicationError::MessageParsing { message: String::from_str(message), context: None }
    }

    /// A parse error with context.
    pub fn parse_with_context(message: &str, context: &str) -> (e: Self)
        ensures
            e@ == (ErrorView::MessageParsing { message: message@, context: Some(context@) }),
    {
        ReplicationError::MessageParsing {
            message: String::from_str(message),
            context: Some(String::from_str(context)),
        }
    }

    /// A protocol error without context.
    pub fn protocol(message: &str) -> (e: Self)
        ensures
            e@ == protocol_error(message@),
    {
        ReplicationError::Protocol { message: String::from_str(message), context: None }
    }

    /// A buffer operation error.
    pub fn buffer(message: &str) -> (e: Self)
        ensures
            e@ == (ErrorView::BufferOperation { message: message@ }),
    {
        ReplicationError::BufferOperation { message: String::from_str(message) }
    }

    /// A low-level I/O error.
    pub fn network_io(message: &str) -> (e: Self)
        ensures
            e@ == (ErrorView::NetworkIO { message: message@ }),
    {
        ReplicationError::NetworkIO { message: String::from_str(message) }
    }

    /// A terminal sink error raised by the sink called `sink`.
    pub fn sink(message: &str, sink: &str) -> (e: Self)
        ensures
            e@ == (ErrorView::Sink { message: message@, sink: sink@ }),
    {
        ReplicationError::Sink { message: String::from_str(message), sink: String::from_str(sink) }
    }

    /// The message carried by the error.
    pub fn message(&self) -> (m: &str)
        ensures
            m@ == self@.message(),
    {
        match self {
            ReplicationError::Connection { message } => message.as_str(),
            ReplicationError::Configuration { message } => message.as_str(),
            ReplicationError::MessageParsing { message, .. } => message.as_str(),
            ReplicationError::Protocol { message, .. } => message.as_str(),
            ReplicationError::BufferOperation { message } => message.as_str(),
            ReplicationError::NetworkIO { message } => message.as_str(),
            ReplicationError::Sink { message, .. } => message.as_str(),
        }
    }

    /// Renders the error on one line: the variant's prefix, then the message.
    pub fn to_string(&self) -> (s: String)
        ensures
            s@ == self@.rendered(),
    {
        let prefix = match self {
            ReplicationError::Connection { .. } => "Database connection error: ",
            ReplicationError::Configuration { .. } => "Configuration error: ",
            ReplicationError::MessageParsing { .. } => "Message parsing error: ",
            ReplicationError::Protocol { .. } => "Protocol error: ",
            ReplicationError::BufferOperation { .. } => "Buffer operation error: ",
            ReplicationError::NetworkIO { .. } => "Network IO error: ",
            ReplicationError::Sink { .. } => "Sink error: ",
        };
        String::from_str(prefix).concat(self.message())
    }
}

} // verus!
