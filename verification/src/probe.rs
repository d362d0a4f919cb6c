//! Remote state prober: which version of a file the archive holds.

use vstd::prelude::*;
use vstd::string::StringExecFns;
use crate::json::{json_text_member, read_text_member, text_of};

verus! {

/// The member of a contents answer that holds the version of the file.
pub const VERSION_KEY: &'static str = "sha";

/// How this application names itself to the archive.
pub const USER_AGENT: &'static str = "Chronicle-App";

/// What precedes the credential in the authorization header.
pub const AUTHORIZATION_SCHEME: &'static str = "token ";

/// An authenticated read of the metadata of one file of the archive.
#[derive(Debug, Clone, PartialEq, Eq)]
pub struct ProbeCall {
    pub url: String,
    pub authorization: String,
    pub user_agent: String,
}

/// How a `ProbeCall` ended.
#[derive(Debug, Clone, PartialEq, Eq)]
pub enum ProbeReply {
    /// The archive answered with `status` and `body`.
    Answered { status: u16, body: String },
    /// No answer came: the transport failed.
    Unreachable,
}

/// Whether `status` reports success: a code from 200 to 299.
pub open spec fn is_success(status: int) -> bool {
    200 <= status <= 299
}

/// The value of the authorization header for `credential`.
pub open spec fn authorization_text(credential: Seq<char>) -> Seq<char> {
    AUTHORIZATION_SCHEME@ + credential
}

/// The version that an answer with `status` reports, `member` being what
/// its body holds under `VERSION_KEY`: that member where the answer
/// reports success, none otherwise.
pub open spec fn version_given(status: int, member: Option<Seq<char>>) -> Option<Seq<char>> {
    if is_success(status) {
        member
    } else {
        None
    }
}

/// The version of the file that `reply` establishes. Whatever does not
/// confirm that the file exists counts as its absence: an answer that
/// reports no success, a body from which no version can be read, and no
/// answer at all.
pub open spec fn remote_version(reply: ProbeReply) -> Option<Seq<char>> {
    match reply {
        ProbeReply::Answered { status, body } => version_given(
            status as int,
            json_text_member(body@, VERSION_KEY@),
        ),
        ProbeReply::Unreachable => None,
    }
}

/// Decides `is_success`.
pub fn is_success_status(status: u16) -> (b: bool)
    ensures
        b == is_success(status as int),
{
    200 <= status && status <= 299
}

/// The value of the authorization header for `credential`.
pub fn authorization(credential: &str) -> (out: String)
    ensures
        out@ == authorization_text(credential@),
{
    let mut out = String::from_str(AUTHORIZATION_SCHEME);
    out.append(credential);
    out
}

/// The version that an answer with `status` reports, `member` being what
/// its body holds under `VERSION_KEY`.
pub fn version_of_member(status: u16, member: Option<String>) -> (v: Option<String>)
    ensures
        text_of(v) == version_given(status as int, text_of(member)),
{
    if is_success_status(status) {
        member
    } else {
        None
    }
}

/// The version of the file that `reply` establishes, `None` standing for
/// its absence.
pub fn probe_version(reply: &ProbeReply) -> (v: Option<String>)
    ensures
        text_of(v) == remote_version(*reply),
{
    match reply {
        ProbeReply::Answered { status, body } => {
            if is_success_status(*status) {
                version_of_member(*status, read_text_member(body.as_str(), VERSION_KEY))
            } else {
                None
            }
        },
        ProbeReply::Unreachable => None,
    }
}

} // verus!
