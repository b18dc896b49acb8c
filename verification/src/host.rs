//! What the host runtime is told: the exceptions it can receive, and the
//! text of each message that crosses the boundary.

use crate::open::Role;
use vstd::prelude::*;
use vstd::string::*;

verus! {

/// The two kinds of exception that a call can raise in the host.
#[derive(Debug, Clone, Copy, PartialEq, Eq, Structural)]
pub enum Exception {
    /// An argument of the call could not be decoded: the caller's fault.
    IllegalArgument,
    /// The kernel refused to open a file or to clone: the environment's.
    Io,
}

/// The host's name of the class of each exception.
pub open spec fn class_of(exception: Exception) -> Seq<char> {
    match exception {
        Exception::IllegalArgument => "java/lang/IllegalArgumentException"@,
        Exception::Io => "java/io/IOException"@,
    }
}

/// The message for an argument that could not be decoded: it says which
/// argument, then gives the decoder's own words.
pub open spec fn invalid_argument_text(role: Role, why: Seq<char>) -> Seq<char> {
    match role {
        Role::Destination => "invalid dst: "@ + why,
        Role::Source => "invalid src: "@ + why,
    }
}

/// The last words of a call whose exception the host did not accept.
pub open spec fn throw_failure_text(why: Seq<char>) -> Seq<char> {
    "failed to throw new exception: "@ + why
}

/// The last words of a version query whose answer the host could not hold.
pub open spec fn string_failure_text(why: Seq<char>) -> Seq<char> {
    "failed to create String: "@ + why
}

impl Exception {
    /// The name under which the host finds the exception's class.
    pub fn class_name(&self) -> (name: &'static str)
        ensures
            name@ == class_of(*self),
    {
        match self {
            Exception::IllegalArgument => "java/lang/IllegalArgumentException",
            Exception::Io => "java/io/IOException",
        }
    }
}

/// The message of the exception for an argument that could not be decoded.
pub fn invalid_argument_message(role: Role, why: &str) -> (text: String)
    ensures
        text@ == invalid_argument_text(role, why@),
{
    let mut text = match role {
        Role::Destination => String::from_str("invalid dst: "),
        Role::Source => String::from_str("invalid src: "),
    };
    text.append(why);
    text
}

/// The message of the fatal error that ends the process when the host did
/// not accept an exception.
pub fn throw_failure_message(why: &str) -> (text: String)
    ensures
        text@ == throw_failure_text(why@),
{
    let mut text = String::from_str("failed to throw new exception: ");
    text.append(why);
    text
}

/// The message of the fatal error that ends the process when the host could
/// not make a string of the version.
pub fn string_failure_message(why: &str) -> (text: String)
    ensures
        text@ == string_failure_text(why@),
{
    let mut text = String::from_str("failed to create String: ");
    text.append(why);
    text
}

} // verus!
