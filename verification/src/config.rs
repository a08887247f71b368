//! The configuration of a client, from what the environment holds.

use crate::errors::{outcome_view, Error, Kind, KindView};
use crate::{YUPDATES_API_TOKEN, YUPDATES_API_URL, YUPDATES_DEFAULT_API_URL};
use vstd::prelude::*;
use vstd::string::*;

verus! {

/// What looking up a variable of the environment gave.
#[derive(PartialEq, Eq, Clone, Debug)]
pub enum EnvLookup {
    /// The variable is set to this value.
    Value(String),
    /// The variable is not set.
    NotPresent,
    /// The variable is set to something that is no valid unicode.
    NotUnicode,
}

/// The mathematical content of an [`EnvLookup`].
pub enum EnvLookupView {
    Value(Seq<char>),
    NotPresent,
    NotUnicode,
}

impl View for EnvLookup {
    type V = EnvLookupView;

    open spec fn view(&self) -> EnvLookupView {
        match self {
            EnvLookup::Value(s) => EnvLookupView::Value(s@),
            EnvLookup::NotPresent => EnvLookupView::NotPresent,
            EnvLookup::NotUnicode => EnvLookupView::NotUnicode,
        }
    }
}

/// The complaint about a variable whose value is no valid unicode.
pub open spec fn not_unicode_message(variable: Seq<char>) -> Seq<char> {
    variable + " is not valid unicode"@
}

/// The complaint about a token that is not set.
pub open spec fn missing_token_message() -> Seq<char> {
    "API token is missing, set "@ + YUPDATES_API_TOKEN@
}

/// The text `s` with a slash at its end, added where `s` has none.
pub open spec fn with_final_slash(s: Seq<char>) -> Seq<char> {
    if s.len() > 0 && s.last() == '/' {
        s
    } else {
        s + seq!['/']
    }
}

/// The base URL that the lookup of [`YUPDATES_API_URL`] stands for: the
/// value with a slash at its end, or the default where the variable is not
/// set.
pub open spec fn base_url_from(lookup: EnvLookupView) -> Result<Seq<char>, KindView> {
    match lookup {
        EnvLookupView::Value(s) => Ok(with_final_slash(s)),
        EnvLookupView::NotPresent => Ok(YUPDATES_DEFAULT_API_URL@),
        EnvLookupView::NotUnicode => Err(
            KindView::Config(not_unicode_message(YUPDATES_API_URL@)),
        ),
    }
}

/// The token that the lookup of [`YUPDATES_API_TOKEN`] stands for: the
/// value as it is. A token cannot be done without.
pub open spec fn api_token_from(lookup: EnvLookupView) -> Result<Seq<char>, KindView> {
    match lookup {
        EnvLookupView::Value(s) => Ok(s),
        EnvLookupView::NotPresent => Err(KindView::Config(missing_token_message())),
        EnvLookupView::NotUnicode => Err(
            KindView::Config(not_unicode_message(YUPDATES_API_TOKEN@)),
        ),
    }
}

/// The base URL of the API, from the lookup of [`YUPDATES_API_URL`] in the
/// environment, or the default.
pub fn env_or_default_url(lookup: EnvLookup) -> (r: Result<String, Error>)
    ensures
        outcome_view(r) == base_url_from(lookup@),
{
    match lookup {
        EnvLookup::Value(s) => {
            let n: usize = s.as_str().unicode_len();
            if n > 0 && s.as_str().get_char(n - 1) == '/' {
                Ok(s)
            } else {
                let mut url = s;
                url.append("/");
                proof {
                    reveal_strlit("/");
                    assert("/"@ =~= seq!['/']);
                }
                Ok(url)
            }
        },
        EnvLookup::NotPresent => Ok(String::from_str(YUPDATES_DEFAULT_API_URL)),
        EnvLookup::NotUnicode => {
            let mut msg = String::from_str(YUPDATES_API_URL);
            msg.append(" is not valid unicode");
            Err(Error { kind: Kind::Config(msg) })
        },
    }
}

/// The API token, from the lookup of [`YUPDATES_API_TOKEN`] in the
/// environment.
pub fn api_token(lookup: EnvLookup) -> (r: Result<String, Error>)
    ensures
        outcome_view(r) == api_token_from(lookup@),
{
    match lookup {
        EnvLookup::Value(s) => Ok(s),
        EnvLookup::NotPresent => {
            let mut msg = String::from_str("API token is missing, set ");
            msg.append(YUPDATES_API_TOKEN);
            Err(Error { kind: Kind::Config(msg) })
        },
        EnvLookup::NotUnicode => {
            let mut msg = String::from_str(YUPDATES_API_TOKEN);
            msg.append(" is not valid unicode");
            Err(Error { kind: Kind::Config(msg) })
        },
    }
}

} // verus!
