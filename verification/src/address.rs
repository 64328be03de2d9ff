//! What the URL parser makes of an address.

use vstd::prelude::*;

verus! {

/// `url::ParseError`: why the parser refused an address. Nothing is read
/// from it.
#[verifier::external_type_specification]
#[verifier::external_body]
pub struct ExParseError(url::ParseError);

/// What the parser finds as the query of `input`: `None` where `input` does
/// not parse as an absolute URL, `Some(None)` where it parses and has no
/// query, else the query, percent-encoded.
pub uninterp spec fn url_query_of(input: Seq<char>) -> Option<Option<Seq<char>>>;

/// The address `input` as the parser writes it once its query is emptied:
/// it keeps the `?`, and a fragment if there was one. It is meant for an
/// address that has a query.
pub uninterp spec fn url_base_of(input: Seq<char>) -> Seq<char>;

/// Calls `url::Url::parse` and, on the parsed address, `query`. The result
/// is a function of the input.
#[verifier::external_body]
pub(crate) fn url_query(input: &str) -> (r: Result<Option<String>, url::ParseError>)
    ensures
        match r {
            Ok(Some(query)) => url_query_of(input@) == Some(Some(query@)),
            Ok(None) => url_query_of(input@) == Some(None::<Seq<char>>),
            Err(_) => url_query_of(input@) is None,
        },
{
    match url::Url::parse(input) {
        Ok(parsed) => Ok(parsed.query().map(String::from)),
        Err(e) => Err(e),
    }
}

/// Calls `url::Url::parse`; on the parsed address `query_pairs_mut` and
/// `clear`, which leave an empty query, then `to_string`. The result is a
/// function of the input, and an address that parsed once parses again. It
/// is asked only of an address that has a query: on one without,
/// `query_pairs_mut` adds a `?` and panics where the address is then too
/// long for the parser's offsets.
#[verifier::external_body]
pub(crate) fn url_base(input: &str) -> (r: Result<String, url::ParseError>)
    requires
        url_query_of(input@) matches Some(Some(_)),
    ensures
        match r {
            Ok(base) => base@ == url_base_of(input@),
            Err(_) => false,
        },
{
    match url::Url::parse(input) {
        Ok(mut parsed) => {
            parsed.query_pairs_mut().clear();
            Ok(parsed.to_string())
        },
        Err(e) => Err(e),
    }
}

} // verus!
