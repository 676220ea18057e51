//! The ways a request's configuration or its response can be rejected.

use vstd::prelude::*;

verus! {

/// Why no listing could be produced. Transport failures are surfaced by
/// the caller that performs the request; these cover everything after a
/// body has been received, plus the period check.
#[derive(Debug, Clone, PartialEq, Eq)]
pub enum Error {
    /// The configured period is not one of the accepted values.
    Validation { period: String },
    /// The response body is not valid JSON.
    Decode,
    /// The response JSON lacks a `topartists.artist` array of entries
    /// with string `name` and `playcount` fields.
    MissingField,
}

/// The message text for each error. The validation message names the
/// rejected period and enumerates the accepted set.
pub open spec fn message_spec(e: Error) -> Seq<char> {
    match e {
        Error::Validation { period } => "Period "@ + period@
            + " not allowed. Only allow \"overall\", \"7day\", \"1month\", \"3month\", \"6month\", or \"12month\"."@,
        Error::Decode => "Could not convert response to JSON"@,
        Error::MissingField => "Response JSON is missing the expected topartists.artist entries"@,
    }
}

impl Error {
    /// Renders the message exactly as `message_spec` lays it out.
    pub fn message(&self) -> (r: String)
        ensures
            r@ == message_spec(*self),
    {
        match self {
            Error::Validation { period } => {
                let mut s = String::from_str("Period ");
                s.append(period.as_str());
                s.append(
                    " not allowed. Only allow \"overall\", \"7day\", \"1month\", \"3month\", \"6month\", or \"12month\".",
                );
                proof {
                    assert(s@ =~= message_spec(*self));
                }
                s
            },
            Error::Decode => String::from_str("Could not convert response to JSON"),
            Error::MissingField => String::from_str(
                "Response JSON is missing the expected topartists.artist entries",
            ),
        }
    }
}

} // verus!
