//! Content addressing: the identifier of a feed or an article is an encoding
//! of its URL, so the same URL always has the same identifier.

use vstd::prelude::*;
use base64::engine::general_purpose::URL_SAFE;
use base64::engine::general_purpose::URL_SAFE_NO_PAD;
use base64::Engine;

verus! {

/// The base64 encoding of a text's bytes in the URL-safe alphabet, padded
/// with `=` to a multiple of four symbols.
pub uninterp spec fn url_safe_base64(text: Seq<char>) -> Seq<char>;

/// The base64 encoding of a text's bytes in the URL-safe alphabet, without
/// padding.
pub uninterp spec fn url_safe_base64_unpadded(text: Seq<char>) -> Seq<char>;

/// `Engine::encode` of base64's `URL_SAFE` engine on the text's bytes. The
/// encoding depends on the bytes alone, so it is named. The call allocates
/// its output and has no other way to fail: the length it computes cannot
/// overflow for a text that is in memory.
#[verifier::external_body]
pub(crate) fn encode_url_safe(text: &str) -> (encoded: String)
    ensures
        encoded@ == url_safe_base64(text@),
{
    URL_SAFE.encode(text)
}

/// `Engine::encode` of base64's `URL_SAFE_NO_PAD` engine on the text's bytes.
/// The encoding depends on the bytes alone, so it is named.
#[verifier::external_body]
pub(crate) fn encode_url_safe_unpadded(text: &str) -> (encoded: String)
    ensures
        encoded@ == url_safe_base64_unpadded(text@),
{
    URL_SAFE_NO_PAD.encode(text)
}

/// The identifier of the feed that is read from `feed_url`.
pub open spec fn feed_address(feed_url: Seq<char>) -> Seq<char> {
    url_safe_base64(feed_url)
}

/// The identifier of the article that `link` leads to.
pub open spec fn article_address(link: Seq<char>) -> Seq<char> {
    url_safe_base64_unpadded(link)
}

/// Derives a feed's identifier from its URL. The URL is taken as it is
/// written: two spellings of one address give two identifiers.
pub fn feed_id(feed_url: &str) -> (id: String)
    ensures
        id@ == feed_address(feed_url@),
{
    encode_url_safe(feed_url)
}

/// Derives an article's identifier from its link. The link is taken as it is
/// written: two spellings of one address give two identifiers.
pub fn article_id(link: &str) -> (id: String)
    ensures
        id@ == article_address(link@),
{
    encode_url_safe_unpadded(link)
}

/// An identifier is determined by the URL: the same URL has the same feed
/// identifier and the same article identifier, whenever and wherever they are
/// derived.
pub proof fn same_url_same_id(a: Seq<char>, b: Seq<char>)
    requires
        a == b,
    ensures
        feed_address(a) == feed_address(b),
        article_address(a) == article_address(b),
{
}

} // verus!
