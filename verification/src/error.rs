//! The errors of the client.

use crate::jira::error::{collection_text, ErrorCollection};
use crate::text::{decimal, push_decimal};
use vstd::prelude::*;
use vstd::string::*;

verus! {

/// What can go wrong between this client and the server.
#[derive(Debug)]
pub enum Error {
    /// A rule of this client was broken.
    Jirascope { message: String },
    /// The credentials were refused or are missing.
    Auth { message: String },
    /// Reading or writing failed; the text is the failure's own.
    Io(String),
    /// The request did not reach the server; the text is the transport's own.
    Ureq(String),
    /// The server answered with an error status and said why.
    Jira(u16, ErrorCollection),
}

/// The error as one line of text.
pub open spec fn error_text(e: Error) -> Seq<char> {
    match e {
        Error::Jirascope { message } => "Jirascope error: "@ + message@,
        Error::Auth { message } => "Auth error: "@ + message@,
        Error::Io(text) => "IO error: "@ + text@,
        Error::Ureq(text) => "Ureq error: "@ + text@,
        Error::Jira(code, errors) => "Jira error "@ + decimal(code as nat) + ": "@
            + collection_text(errors@),
    }
}

impl Error {
    /// An error of this client with the given message.
    pub fn jirascope(message: &str) -> (e: Error)
        ensures
            e matches Error::Jirascope { message: m } && m@ == message@,
    {
        Error::Jirascope { message: message.to_owned() }
    }

    /// An authentication error with the given message.
    pub fn auth(message: &str) -> (e: Error)
        ensures
            e matches Error::Auth { message: m } && m@ == message@,
    {
        Error::Auth { message: message.to_owned() }
    }

    /// The error as one line of text.
    pub fn to_string(&self) -> (text: String)
        ensures
            text@ == error_text(*self),
    {
        let mut text = String::new();
        match self {
            Error::Jirascope { message } => {
                text.append("Jirascope error: ");
                text.append(message.as_str());
                assert(text@ =~= "Jirascope error: "@ + message@);
            },
            Error::Auth { message } => {
                text.append("Auth error: ");
                text.append(message.as_str());
                assert(text@ =~= "Auth error: "@ + message@);
            },
            Error::Io(cause) => {
                text.append("IO error: ");
                text.append(cause.as_str());
                assert(text@ =~= "IO error: "@ + cause@);
            },
            Error::Ureq(cause) => {
                text.append("Ureq error: ");
                text.append(cause.as_str());
                assert(text@ =~= "Ureq error: "@ + cause@);
            },
            Error::Jira(code, errors) => {
                text.append("Jira error ");
                push_decimal(&mut text, *code as usize);
                text.append(": ");
                let line = errors.to_string();
                text.append(line.as_str());
                assert(text@ =~= "Jira error "@ + decimal(*code as nat) + ": "@ + collection_text(
                    errors@,
                ));
            },
        }
        text
    }
}

} // verus!
