//! The one failure type of the crate, and the ways an exchange can fail.

use vstd::prelude::*;
use crate::text::{concat, signed, signed_string};

verus! {

/// Why a document could not be queried.
#[derive(Clone, Copy, Debug, PartialEq, Eq, Structural)]
pub enum XmlFault {
    /// The expression is not handed on: it names a prefix outside the fixed
    /// bindings, or it uses a part of XPath whose result the document does
    /// not determine.
    Refused,
    /// The text is not well-formed XML.
    Document,
    /// The expression is not XPath, or it is empty.
    Expression,
    /// The expression could not be evaluated on the document.
    Evaluation,
}

/// What went wrong, as the immediate caller sees it.
#[derive(Debug)]
pub enum Error {
    /// The transport could not complete the exchange; the text is what it
    /// reported.
    Io(String),
    /// The server answered with a status other than 200 and 207. The text
    /// reads `METHOD target: status`.
    Status(u16, String),
    /// A response body, or an expression applied to it, could not be read.
    Xml(XmlFault),
    /// The address of a resource is not an absolute URL with a host.
    Url(String),
    /// A response lacks a value that must accompany another one; the text is
    /// the expression that matched nothing.
    Missing(String),
    /// The credentials are too long to encode.
    Credentials,
    /// A point in time outside the calendar that timestamps are written in.
    Time(i64),
    /// Any other failure, by its message.
    Misc(String),
}

/// An [`Error`] with its texts as sequences of characters.
pub enum Failure {
    Io(Seq<char>),
    Status(u16, Seq<char>),
    Xml(XmlFault),
    Url(Seq<char>),
    Missing(Seq<char>),
    Credentials,
    Time(i64),
    Misc(Seq<char>),
}

impl View for Error {
    type V = Failure;

    open spec fn view(&self) -> Failure {
        match self {
            Error::Io(text) => Failure::Io(text@),
            Error::Status(status, text) => Failure::Status(*status, text@),
            Error::Xml(fault) => Failure::Xml(*fault),
            Error::Url(text) => Failure::Url(text@),
            Error::Missing(text) => Failure::Missing(text@),
            Error::Credentials => Failure::Credentials,
            Error::Time(seconds) => Failure::Time(*seconds),
            Error::Misc(text) => Failure::Misc(text@),
        }
    }
}

/// What a fault of a query reads as.
pub open spec fn fault_text(fault: XmlFault) -> Seq<char> {
    match fault {
        XmlFault::Refused => "expression refused"@,
        XmlFault::Document => "malformed document"@,
        XmlFault::Expression => "malformed expression"@,
        XmlFault::Evaluation => "evaluation failed"@,
    }
}

/// What a failure reads as.
pub open spec fn message_of(failure: Failure) -> Seq<char> {
    match failure {
        Failure::Io(text) => "I/O error: "@ + text,
        Failure::Status(_, text) => text,
        Failure::Xml(fault) => "XML error: "@ + fault_text(fault),
        Failure::Url(text) => "Not an absolute URL: "@ + text,
        Failure::Missing(text) => "Nothing found for "@ + text,
        Failure::Credentials => "Credentials too long"@,
        Failure::Time(seconds) => "Time out of range: "@ + signed(seconds as int),
        Failure::Misc(text) => text,
    }
}

impl XmlFault {
    /// What the fault reads as.
    pub fn message(&self) -> (text: &'static str)
        ensures
            text@ == fault_text(*self),
    {
        match self {
            XmlFault::Refused => "expression refused",
            XmlFault::Document => "malformed document",
            XmlFault::Expression => "malformed expression",
            XmlFault::Evaluation => "evaluation failed",
        }
    }
}

impl Error {
    /// What the failure reads as.
    pub fn message(&self) -> (text: String)
        ensures
            text@ == message_of(self@),
    {
        match self {
            Error::Io(text) => concat("I/O error: ", text.as_str()),
            Error::Status(_, text) => text.clone(),
            Error::Xml(fault) => concat("XML error: ", fault.message()),
            Error::Url(text) => concat("Not an absolute URL: ", text.as_str()),
            Error::Missing(text) => concat("Nothing found for ", text.as_str()),
            Error::Credentials => "Credentials too long".to_owned(),
            Error::Time(seconds) => {
                let written = signed_string(*seconds);
                concat("Time out of range: ", written.as_str())
            },
            Error::Misc(text) => text.clone(),
        }
    }

    /// A failure that has nothing but a message.
    pub fn new(message: String) -> (e: Error)
        ensures
            e@ == Failure::Misc(message@),
    {
        Error::Misc(message)
    }
}

} // verus!
