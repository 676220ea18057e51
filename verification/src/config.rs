//! The request configuration and the query URI built from it.

use vstd::prelude::*;
use crate::text::dec_rep;
use crate::text::u16_to_dec;

verus! {

/// Inputs for one top-artists request: credentials, the user asked
/// about, how many artists to request, and the lookback period.
/// No field is validated at construction time; the period is checked
/// only when a summary is formatted.
#[derive(Debug)]
pub struct Config {
    pub api_key: String,
    pub username: String,
    pub limit: u16,
    pub period: String,
}

/// The full request URI for a configuration: the fixed endpoint and
/// method name, then the user, api_key, format, period and limit query
/// parameters, in that order. Values are interpolated as given, with no
/// percent-encoding.
pub open spec fn uri_spec(c: Config) -> Seq<char> {
    "http://ws.audioscrobbler.com/2.0/?method=user.gettopartists&user="@ + c.username@
        + "&api_key="@ + c.api_key@ + "&format=json&period="@ + c.period@ + "&limit="@
        + dec_rep(c.limit as int)
}

impl Config {
    /// Packs the four raw inputs, unchanged and unchecked.
    pub fn new(api_key: String, username: String, limit: u16, period: String) -> (c: Config)
        ensures
            c.api_key == api_key,
            c.username == username,
            c.limit == limit,
            c.period == period,
    {
        Config { api_key, username, limit, period }
    }

    /// Builds the query URI exactly as `uri_spec` lays it out.
    pub fn get_uri(&self) -> (r: String)
        ensures
            r@ == uri_spec(*self),
    {
        let mut s = String::from_str(
            "http://ws.audioscrobbler.com/2.0/?method=user.gettopartists&user=",
        );
        s.append(self.username.as_str());
        s.append("&api_key=");
        s.append(self.api_key.as_str());
        s.append("&format=json&period=");
        s.append(self.period.as_str());
        s.append("&limit=");
        let limit = u16_to_dec(self.limit);
        s.append(limit.as_str());
        proof {
            assert(s@ =~= uri_spec(*self));
        }
        s
    }
}

} // verus!
