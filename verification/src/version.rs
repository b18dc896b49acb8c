//! The version query.

use crate::call::{Action, ActionView};
use crate::host::{string_failure_message, string_failure_text};
use vstd::prelude::*;
use vstd::string::*;

verus! {

/// The version that is reported: the one that the build embedded, or
/// `unknown` where it embedded none.
pub open spec fn version_of(embedded: Option<Seq<char>>) -> Seq<char> {
    match embedded {
        Some(version) => version,
        None => "unknown"@,
    }
}

/// What an embedded version stands for.
pub open spec fn embedded_view(embedded: Option<&str>) -> Option<Seq<char>> {
    match embedded {
        Some(version) => Some(version@),
        None => None,
    }
}

/// The reported version is never empty, unless the build embedded an empty
/// one.
pub proof fn lemma_version_is_not_empty(embedded: Option<Seq<char>>)
    requires
        embedded matches Some(version) ==> version.len() > 0,
    ensures
        version_of(embedded).len() > 0,
{
    reveal_strlit("unknown");
}

/// The version to report to the host, given what the build embedded. It is
/// the same on every call, and empty only where the build embedded an empty
/// version.
pub fn version(embedded: Option<&str>) -> (text: String)
    ensures
        text@ == version_of(embedded_view(embedded)),
        (embedded matches Some(version) ==> version@.len() > 0) ==> text@.len() > 0,
{
    proof {
        if embedded matches Some(version) ==> version@.len() > 0 {
            lemma_version_is_not_empty(embedded_view(embedded));
        }
    }
    match embedded {
        Some(version) => String::from_str(version),
        None => String::from_str("unknown"),
    }
}

/// How a version query ends, given whether the host could make a string of
/// the version: the string goes back to the host, or the process is ended
/// with a message that gives the host's reason.
pub fn version_reply(created: Result<(), String>) -> (action: Action)
    ensures
        created is Ok ==> action@ == ActionView::Return,
        created is Err ==> action@ == (ActionView::Abort {
            message: string_failure_text(created->Err_0@),
        }),
{
    match created {
        Ok(()) => Action::Return,
        Err(why) => Action::Abort { message: string_failure_message(why.as_str()) },
    }
}

} // verus!
