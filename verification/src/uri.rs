//! Absolute URIs, validated by the `url` crate.

use crate::errors::{outcome, ErrorView, UrlParseReason, VCardError};
use url::{ParseError, Url};
use vstd::prelude::*;
use vstd::string::*;

verus! {

/// What `url::Url::parse` makes of the text `raw`: the normalized text of the URL it
/// recognizes, or the reason for which it rejects `raw`.
pub uninterp spec fn parsed_url(raw: Seq<char>) -> Result<Seq<char>, UrlParseReason>;

/// `url::Url::parse`, followed by the conversion of the URL into its text, or of the
/// parser's error into the reason of the same name. The result is a function of `raw`
/// alone; nothing more is claimed of it.
#[verifier::external_body]
pub(crate) fn url_parse(raw: &str) -> (r: Result<String, UrlParseReason>)
    ensures
        match r {
            Ok(text) => parsed_url(raw@) == Ok::<Seq<char>, UrlParseReason>(text@),
            Err(reason) => parsed_url(raw@) == Err::<Seq<char>, UrlParseReason>(reason),
        },
{
    match Url::parse(raw) {
        Ok(u) => Ok(String::from(u)),
        Err(ParseError::EmptyHost) => Err(UrlParseReason::EmptyHost),
        Err(ParseError::IdnaError) => Err(UrlParseReason::IdnaError),
        Err(ParseError::InvalidPort) => Err(UrlParseReason::InvalidPort),
        Err(ParseError::InvalidIpv4Address) => Err(UrlParseReason::InvalidIpv4Address),
        Err(ParseError::InvalidIpv6Address) => Err(UrlParseReason::InvalidIpv6Address),
        Err(ParseError::InvalidDomainCharacter) => Err(UrlParseReason::InvalidDomainCharacter),
        Err(ParseError::RelativeUrlWithoutBase) => Err(UrlParseReason::RelativeUrlWithoutBase),
        Err(_) => Err(UrlParseReason::Other),
    }
}

/// Whether `text` is the normalized text of some URL that the parser accepts.
pub open spec fn is_uri_text(text: Seq<char>) -> bool {
    exists|raw: Seq<char>| #[trigger] parsed_url(raw) == Ok::<Seq<char>, UrlParseReason>(text)
}

/// An absolute URI in normalized form.
#[derive(Debug, PartialEq, Eq)]
pub struct Uri {
    text: String,
}

impl View for Uri {
    type V = Seq<char>;

    closed spec fn view(&self) -> Seq<char> {
        self.text@
    }
}

impl Clone for Uri {
    fn clone(&self) -> (r: Uri)
        ensures
            r@ == self@,
    {
        proof {
            use_type_invariant(self);
        }
        Uri { text: self.text.clone() }
    }
}

impl Uri {
    #[verifier::type_invariant]
    spec fn well_formed(&self) -> bool {
        is_uri_text(self.text@)
    }

    /// Turns what the URL parser made of `raw` into a `Uri`, or into the error that names
    /// `raw` and carries the parser's reason.
    pub fn from_parsed(raw: &str, parsed: Result<String, UrlParseReason>) -> (r: Result<
        Uri,
        VCardError,
    >)
        requires
            parsed is Ok ==> parsed_url(raw@) == Ok::<Seq<char>, UrlParseReason>(parsed->Ok_0@),
        ensures
            match parsed {
                Ok(text) => r is Ok && r->Ok_0@ == text@,
                Err(reason) => r is Err && r->Err_0@ == (ErrorView::UrlParse {
                    raw_url: raw@,
                    reason,
                }),
            },
    {
        match parsed {
            Ok(text) => Ok(Uri { text }),
            Err(reason) => Err(
                VCardError::UrlParseError { raw_url: String::from_str(raw), original_error: reason },
            ),
        }
    }

    /// Parses `raw` as an absolute URI.
    pub fn parse(raw: &str) -> (r: Result<Uri, VCardError>)
        ensures
            outcome(r) == uri_of(raw@),
    {
        Uri::from_parsed(raw, url_parse(raw))
    }

    /// The normalized text of the URI.
    pub fn as_str(&self) -> (s: &str)
        ensures
            s@ == self@,
            is_uri_text(self@),
    {
        proof {
            use_type_invariant(self);
        }
        self.text.as_str()
    }
}

/// The URI that `raw` spells, or the error that names `raw` and the parser's reason.
pub open spec fn uri_of(raw: Seq<char>) -> Result<Seq<char>, ErrorView> {
    match parsed_url(raw) {
        Ok(text) => Ok(text),
        Err(reason) => Err(ErrorView::UrlParse { raw_url: raw, reason }),
    }
}

} // verus!
