//! Crate error type, hand-rolled per house convention.
use vstd::prelude::*;
use vstd::string::*;

verus! {

broadcast use vstd::string::group_string_axioms;

/// `std::io::Error`, carried through opaque.
#[verifier::external_type_specification]
#[verifier::external_body]
pub struct ExIoError(std::io::Error);

/// Every failure the harness can produce.
#[derive(Debug)]
pub enum Error {
    /// A CLI flag failed to parse.
    InvalidFlag {
        /// The flag as given on the command line.
        flag: String,
        /// Why it was rejected.
        reason: String,
    },
    /// A CLI flag is not recognised.
    UnknownFlag(String),
    /// The gossipsub configuration was rejected by the builder.
    Config(String),
    /// Building the gossipsub behaviour failed.
    Behaviour(&'static str),
    /// Subscribing to the benchmark topic failed.
    Subscribe(String),
    /// Listening on a memory address failed.
    Listen(String),
    /// An internal channel closed before the run finished.
    ChannelClosed(&'static str),
    /// The tokio runtime could not be built.
    Runtime(std::io::Error),
    /// Writing the report failed.
    Report(std::io::Error),
    /// A setup phase did not complete in time.
    SetupTimeout(&'static str),
}

/// An error with its texts as character sequences (I/O causes omitted).
pub ghost enum ErrorView {
    InvalidFlag { flag: Seq<char>, reason: Seq<char> },
    UnknownFlag(Seq<char>),
    Config(Seq<char>),
    Behaviour(Seq<char>),
    Subscribe(Seq<char>),
    Listen(Seq<char>),
    ChannelClosed(Seq<char>),
    Runtime,
    Report,
    SetupTimeout(Seq<char>),
}

impl View for Error {
    type V = ErrorView;

    open spec fn view(&self) -> ErrorView {
        match self {
            Error::InvalidFlag { flag, reason } => ErrorView::InvalidFlag { flag: flag@, reason: reason@ },
            Error::UnknownFlag(f) => ErrorView::UnknownFlag(f@),
            Error::Config(r) => ErrorView::Config(r@),
            Error::Behaviour(r) => ErrorView::Behaviour(r@),
            Error::Subscribe(r) => ErrorView::Subscribe(r@),
            Error::Listen(r) => ErrorView::Listen(r@),
            Error::ChannelClosed(w) => ErrorView::ChannelClosed(w@),
            Error::Runtime(_) => ErrorView::Runtime,
            Error::Report(_) => ErrorView::Report,
            Error::SetupTimeout(p) => ErrorView::SetupTimeout(p@),
        }
    }
}

/// The message for an error without an I/O cause; `None` for the two that
/// carry one.
pub open spec fn message_spec(e: ErrorView) -> Option<Seq<char>> {
    match e {
        ErrorView::InvalidFlag { flag, reason } => Some("invalid flag "@ + flag + ": "@ + reason),
        ErrorView::UnknownFlag(f) => Some("unknown flag "@ + f),
        ErrorView::Config(r) => Some("gossipsub config rejected: "@ + r),
        ErrorView::Behaviour(r) => Some("gossipsub behaviour rejected: "@ + r),
        ErrorView::Subscribe(r) => Some("subscribe failed: "@ + r),
        ErrorView::Listen(r) => Some("listen failed: "@ + r),
        ErrorView::ChannelClosed(w) => Some("channel closed early: "@ + w),
        ErrorView::Runtime => None,
        ErrorView::Report => None,
        ErrorView::SetupTimeout(p) => Some("setup phase timed out: "@ + p),
    }
}

/// `<std::io::Error as Display>` through `to_string`. Its text comes from the
/// operating system and is not specified.
#[verifier::external_body]
fn io_error_text(e: &std::io::Error) -> String {
    e.to_string()
}

impl Error {
    /// The human-readable message (what `Display` prints).
    pub fn message(&self) -> (r: String)
        ensures
            match message_spec(self@) {
                Some(m) => r@ == m,
                None => match self@ {
                    ErrorView::Runtime => exists|t: Seq<char>| r@ == "tokio runtime: "@ + t,
                    _ => exists|t: Seq<char>| r@ == "writing report: "@ + t,
                },
            },
    {
        match self {
            Error::InvalidFlag { flag, reason } => {
                let mut s = "invalid flag ".to_owned();
                s.append(flag.as_str());
                s.append(": ");
                s.append(reason.as_str());
                s
            },
            Error::UnknownFlag(flag) => {
                let mut s = "unknown flag ".to_owned();
                s.append(flag.as_str());
                s
            },
            Error::Config(reason) => {
                let mut s = "gossipsub config rejected: ".to_owned();
                s.append(reason.as_str());
                s
            },
            Error::Behaviour(reason) => {
                let mut s = "gossipsub behaviour rejected: ".to_owned();
                s.append(reason);
                s
            },
            Error::Subscribe(reason) => {
                let mut s = "subscribe failed: ".to_owned();
                s.append(reason.as_str());
                s
            },
            Error::Listen(reason) => {
                let mut s = "listen failed: ".to_owned();
                s.append(reason.as_str());
                s
            },
            Error::ChannelClosed(which) => {
                let mut s = "channel closed early: ".to_owned();
                s.append(which);
                s
            },
            Error::Runtime(e) => {
                let mut s = "tokio runtime: ".to_owned();
                let t = io_error_text(e);
                s.append(t.as_str());
                s
            },
            Error::Report(e) => {
                let mut s = "writing report: ".to_owned();
                let t = io_error_text(e);
                s.append(t.as_str());
                s
            },
            Error::SetupTimeout(phase) => {
                let mut s = "setup phase timed out: ".to_owned();
                s.append(phase);
                s
            },
        }
    }
}

} // verus!
