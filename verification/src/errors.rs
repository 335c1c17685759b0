//! The error of the ingestion as a whole.

use vstd::prelude::*;
use vstd::string::StringExecFns;

verus! {

/// What can stop the ingestion of a feed, of an entry, or the start of the
/// service. A cause is carried as the text of the underlying error.
#[derive(Debug, PartialEq, Eq)]
pub enum IngestError {
    /// The feed at this URL could not be fetched, for this cause.
    Fetch(String, String),
    /// What was fetched from this URL could not be parsed, for this cause.
    Parse(String, String),
    /// The store refused a read or a write.
    Db(String),
    /// The configuration is missing or malformed.
    Config(String),
}

/// The text of an error.
pub open spec fn error_text(e: IngestError) -> Seq<char> {
    match e {
        IngestError::Fetch(url, cause) => "HTTP error fetching "@ + url@ + ": "@ + cause@,
        IngestError::Parse(url, cause) => "Parse error for "@ + url@ + ": "@ + cause@,
        IngestError::Db(cause) => "Database error: "@ + cause@,
        IngestError::Config(cause) => "Configuration error: "@ + cause@,
    }
}

/// `head`, `first`, `sep` and `second` in one text.
fn joined(head: &str, first: &str, sep: &str, second: &str) -> (r: String)
    ensures
        r@ == head@ + first@ + sep@ + second@,
{
    let mut r = head.to_owned();
    r.append(first);
    r.append(sep);
    r.append(second);
    r
}

impl IngestError {
    /// The error as a line of text for a log or a user.
    pub fn message(&self) -> (r: String)
        ensures
            r@ == error_text(*self),
    {
        match self {
            IngestError::Fetch(url, cause) => joined(
                "HTTP error fetching ",
                url.as_str(),
                ": ",
                cause.as_str(),
            ),
            IngestError::Parse(url, cause) => joined(
                "Parse error for ",
                url.as_str(),
                ": ",
                cause.as_str(),
            ),
            IngestError::Db(cause) => {
                let r = joined("Database error: ", cause.as_str(), "", "");
                proof {
                    reveal_strlit("");
                    assert(r@ =~= "Database error: "@ + cause@);
                }
                r
            },
            IngestError::Config(cause) => {
                let r = joined("Configuration error: ", cause.as_str(), "", "");
                proof {
                    reveal_strlit("");
                    assert(r@ =~= "Configuration error: "@ + cause@);
                }
                r
            },
        }
    }
}

} // verus!
