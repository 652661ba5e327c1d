use vstd::prelude::*;

verus! {

#[verifier::external_type_specification]
#[verifier::external_body]
pub struct ExUrl(url::Url);

#[verifier::external_type_specification]
#[verifier::external_body]
pub struct ExUrlParseError(url::ParseError);

/// What `url::Url::parse` makes of `input`: the serialization of the absolute
/// URL that it parses, or `None` where it returns an error.
pub uninterp spec fn parsed_url(input: Seq<char>) -> Option<Seq<char>>;

/// What `url::Url::as_str` gives back for `url`: the serialization that the
/// URL stores.
pub uninterp spec fn url_serialization(url: url::Url) -> Seq<char>;

/// Calls `url::Url::parse` on `input` and pairs the parsed URL with its
/// serialization (`Url::as_str`, a read of the stored string).
///
/// Trusted: the serialization is `parsed_url(input)` and is the one that the
/// returned URL stores (`url_serialization`), the call fails exactly
/// where `parsed_url(input)` is `None`, and, as the parser's scheme state
/// shows, an input without a `:` has no scheme and no base to resolve
/// against, so it is rejected. Which error comes back is left unsaid.
#[verifier::external_body]
pub(crate) fn parse_absolute_url(input: &str) -> (parsed: Result<(url::Url, String), url::ParseError>)
    ensures
        match parsed {
            Ok((url, href)) => parsed_url(input@) == Some(href@) && url_serialization(url)
                == href@,
            Err(_) => parsed_url(input@) is None,
        },
        !input@.contains(':') ==> parsed is Err,
{
    match url::Url::parse(input) {
        Ok(url) => {
            let href = url.as_str().to_string();
            Ok((url, href))
        },
        Err(error) => Err(error),
    }
}

} // verus!
