//! Addresses of the robot controller's HTTP interface, parsed and resolved
//! with the `url` crate.
use vstd::prelude::*;

verus! {

broadcast use vstd::string::group_string_axioms;

#[verifier::external_type_specification]
#[verifier::external_body]
pub struct ExUrl(url::Url);

#[verifier::external_type_specification]
#[verifier::external_body]
pub struct ExUrlParseError(url::ParseError);

/// The serialization of the URL that `url::Url::parse` makes of `input`, or
/// `None` where it refuses `input`.
pub uninterp spec fn url_parse(input: Seq<char>) -> Option<Seq<char>>;

/// The serialization of the URL that `url::Url::join` makes of `input`
/// against the URL serialized as `base`, or `None` where it refuses.
pub uninterp spec fn url_join(base: Seq<char>, input: Seq<char>) -> Option<Seq<char>>;

/// The serialization of the URL serialized as `url` once
/// `url::Url::set_query(Some(query))` has replaced its query.
pub uninterp spec fn url_set_query(url: Seq<char>, query: Seq<char>) -> Seq<char>;

/// A parsed URL together with its serialization. Only this module builds
/// one, and always from the URL's own serialization, so the view of an
/// `Address` is the serialization of the URL it holds.
pub struct Address {
    url: url::Url,
    text: String,
}

impl View for Address {
    type V = Seq<char>;

    closed spec fn view(&self) -> Seq<char> {
        self.text@
    }
}

/// The query of `url` is set by this call without overflowing the `u32`
/// offsets that a URL keeps: each character takes at most four bytes, and
/// percent-encoding makes at most twelve of a query character.
pub open spec fn query_fits(url: Seq<char>, query: Seq<char>) -> bool {
    4 * url.len() + 12 * query.len() + 1 <= 0xFFFF_FFFF
}

/// Calls `url::Url::parse` on `input`. Claimed: the call succeeds exactly
/// where `url_parse` is `Some`, and the URL it gives back is serialized as
/// that value (`url_parse` is a name, not a description of the parser).
#[verifier::external_body]
pub(crate) fn parse_url(input: &str) -> (r: Result<Address, url::ParseError>)
    ensures
        r is Ok <==> url_parse(input@) is Some,
        r matches Ok(a) ==> Some(a@) == url_parse(input@),
{
    match url::Url::parse(input) {
        Ok(url) => {
            let text = url.as_str().to_string();
            Ok(Address { url, text })
        },
        Err(e) => Err(e),
    }
}

/// Calls `url::Url::join` on `base`'s URL with `input`. Claimed: the call
/// succeeds exactly where `url_join` is `Some`, and the URL it gives back is
/// serialized as that value.
#[verifier::external_body]
pub(crate) fn join_url(base: &Address, input: &str) -> (r: Result<Address, url::ParseError>)
    ensures
        r is Ok <==> url_join(base@, input@) is Some,
        r matches Ok(a) ==> Some(a@) == url_join(base@, input@),
{
    match base.url.join(input) {
        Ok(url) => {
            let text = url.as_str().to_string();
            Ok(Address { url, text })
        },
        Err(e) => Err(e),
    }
}

/// Calls `url::Url::set_query` with `Some(query)` on `address`'s URL.
/// Claimed: the URL that results is serialized as `url_set_query` says. The
/// call panics where an offset overflows `u32`, which `query_fits` excludes.
#[verifier::external_body]
pub(crate) fn set_url_query(address: Address, query: &str) -> (r: Address)
    requires
        query_fits(address@, query@),
    ensures
        r@ == url_set_query(address@, query@),
{
    let mut url = address.url;
    url.set_query(Some(query));
    let text = url.as_str().to_string();
    Address { url, text }
}

impl Address {
    /// The parsed URL that this address holds; `self@` is its serialization.
    pub closed spec fn held_url(&self) -> url::Url {
        self.url
    }

    /// The URL itself.
    pub fn url(&self) -> (u: &url::Url)
        ensures
            *u == self.held_url(),
    {
        &self.url
    }

    /// The serialization of the URL.
    pub fn as_str(&self) -> (s: &str)
        ensures
            s@ == self@,
    {
        self.text.as_str()
    }
}

} // verus!
