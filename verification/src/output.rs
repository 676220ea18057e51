//! Formatting of the fetched artists: the one-line summary sentence and
//! the plain per-artist listing.

use vstd::prelude::*;
use crate::config::Config;
use crate::error::Error;
use crate::text::dec_rep;
use crate::text::u16_to_dec;

verus! {

/// One artist entry from a response: the name and the play count, the
/// count kept as the string the service returned it in.
#[derive(Debug, Clone, PartialEq, Eq)]
pub struct Artist {
    pub name: String,
    pub playcount: String,
}

impl Artist {
    /// Packs the two fields, unchanged.
    pub fn new(name: String, playcount: String) -> (a: Artist)
        ensures
            a.name == name,
            a.playcount == playcount,
    {
        Artist { name, playcount }
    }
}

/// The display phrase for each accepted period value; `None` for any
/// other value.
pub open spec fn period_phrase_spec(p: Seq<char>) -> Option<Seq<char>> {
    if p == "overall"@ {
        Some(""@)
    } else if p == "7day"@ {
        Some(" week"@)
    } else if p == "1month"@ {
        Some(" month"@)
    } else if p == "3month"@ {
        Some(" 3 months"@)
    } else if p == "6month"@ {
        Some(" 6 months"@)
    } else if p == "12month"@ {
        Some(" year"@)
    } else {
        None
    }
}

/// Maps an accepted period value to its display phrase, exactly as
/// `period_phrase_spec` does.
pub fn period_phrase(p: &String) -> (r: Option<&'static str>)
    ensures
        match period_phrase_spec(p@) {
            Some(q) => r matches Some(s) && s@ == q,
            None => r is None,
        },
{
    if p.eq(&String::from_str("overall")) {
        Some("")
    } else if p.eq(&String::from_str("7day")) {
        Some(" week")
    } else if p.eq(&String::from_str("1month")) {
        Some(" month")
    } else if p.eq(&String::from_str("3month")) {
        Some(" 3 months")
    } else if p.eq(&String::from_str("6month")) {
        Some(" 6 months")
    } else if p.eq(&String::from_str("12month")) {
        Some(" year")
    } else {
        None
    }
}

/// The separator that trails the entry at position `i` (0-indexed). It
/// is driven by the configured limit, not by how many entries the
/// service returned: positions up to `limit - 3` get a comma, position
/// `limit - 2` gets `, &`, and later positions get nothing.
pub open spec fn sep_spec(i: int, limit: int) -> Seq<char> {
    if i <= limit - 3 {
        ","@
    } else if i == limit - 2 {
        ", &"@
    } else {
        ""@
    }
}

/// The text one artist contributes to the summary: a space, the name,
/// the play count in parentheses, and the position's separator.
pub open spec fn entry_spec(a: Artist, i: int, limit: int) -> Seq<char> {
    " "@ + a.name@ + " ("@ + a.playcount@ + ")"@ + sep_spec(i, limit)
}

/// The first `k` artist entries of the summary, concatenated in
/// response order.
pub open spec fn entries_spec(artists: Seq<Artist>, limit: int, k: int) -> Seq<char>
    recommends
        0 <= k <= artists.len(),
    decreases k,
{
    if k <= 0 {
        Seq::empty()
    } else {
        entries_spec(artists, limit, k - 1) + entry_spec(artists[k - 1], k - 1, limit)
    }
}

/// The whole summary sentence for a valid period phrase: the lead-in
/// with the configured limit and the period phrase, every artist entry,
/// and the fixed closing.
pub open spec fn summary_spec(limit: u16, phrase: Seq<char>, artists: Seq<Artist>) -> Seq<char> {
    "♫ My Top "@ + dec_rep(limit as int) + " played artists in the past"@ + phrase + ":"@
        + entries_spec(artists, limit as int, artists.len() as int) + ". Via #LastFM ♫"@
}

/// Builds the summary sentence for the configuration and the artists a
/// response carried. An unrecognized period is rejected with a
/// validation error naming it; every other input yields exactly the
/// sentence `summary_spec` lays out.
pub fn construct_output(config: &Config, artists: &Vec<Artist>) -> (r: Result<String, Error>)
    ensures
        period_phrase_spec(config.period@) matches Some(phrase) ==> (r matches Ok(s) && s@
            == summary_spec(config.limit, phrase, artists@)),
        period_phrase_spec(config.period@) is None ==> (r matches Err(e) && e matches
            Error::Validation { period } && period@ == config.period@),
{
    let phrase: &str = match period_phrase(&config.period) {
        Some(p) => p,
        None => {
            return Err(Error::Validation { period: config.period.clone() });
        },
    };
    let mut f = String::from_str("♫ My Top ");
    let limit_dec = u16_to_dec(config.limit);
    f.append(limit_dec.as_str());
    f.append(" played artists in the past");
    f.append(phrase);
    f.append(":");
    let ghost lead = f@;
    let lim: usize = config.limit as usize;
    let mut i: usize = 0;
    while i < artists.len()
        invariant
            i <= artists.len(),
            lim == config.limit as usize,
            f@ == lead + entries_spec(artists@, lim as int, i as int),
        decreases artists.len() - i,
    {
        f.append(" ");
        f.append(artists[i].name.as_str());
        f.append(" (");
        f.append(artists[i].playcount.as_str());
        f.append(")");
        if lim >= 3 && i <= lim - 3 {
            f.append(",");
        } else if lim >= 2 && i == lim - 2 {
            f.append(", &");
        } else {
            proof {
                reveal_strlit("");
            }
        }
        proof {
            assert(f@ =~= lead + entries_spec(artists@, lim as int, i as int + 1));
        }
        i = i + 1;
    }
    f.append(". Via #LastFM ♫");
    proof {
        assert(f@ =~= summary_spec(config.limit, phrase@, artists@));
    }
    Ok(f)
}

/// One listing line for an artist: the name, then the play count in
/// parentheses, with no trailing separator.
pub open spec fn line_spec(a: Artist) -> Seq<char> {
    a.name@ + " ("@ + a.playcount@ + ")"@
}

/// The plain listing: exactly one line per artist, in response order,
/// each line exactly as `line_spec` lays it out.
pub fn plain_lines(artists: &Vec<Artist>) -> (r: Vec<String>)
    ensures
        r@.len() == artists@.len(),
        forall|i: int| 0 <= i < artists@.len() ==> #[trigger] r@[i]@ == line_spec(artists@[i]),
{
    let mut out: Vec<String> = Vec::new();
    let mut i: usize = 0;
    while i < artists.len()
        invariant
            i <= artists.len(),
            out@.len() == i,
            forall|j: int| 0 <= j < i ==> #[trigger] out@[j]@ == line_spec(artists@[j]),
        decreases artists.len() - i,
    {
        let mut line = String::new();
        line.append(artists[i].name.as_str());
        line.append(" (");
        line.append(artists[i].playcount.as_str());
        line.append(")");
        proof {
            assert(line@ =~= line_spec(artists@[i as int]));
        }
        out.push(line);
        i = i + 1;
    }
    out
}

} // verus!
