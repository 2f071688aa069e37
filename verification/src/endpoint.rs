//! Relay endpoints: connect URLs and the one rewrite that is applied to them.
//!
//! A [`Url`] is opaque to the verifier. Its model here is its text, split in
//! the three parts that the rewrite tells apart: what stands in front of the
//! path, the path, and what follows it.
use reqwest::Url;
use vstd::prelude::*;
use vstd::utf8::encode_utf8;

verus! {

/// `reqwest::Url`, carried through as an opaque value.
#[verifier::external_type_specification]
#[verifier::external_body]
pub struct ExUrl(reqwest::Url);

/// The text of `url` in front of its path, as `&url[..Position::BeforePath]`
/// gives it: scheme, credentials, host and port with their separators.
pub uninterp spec fn url_before_path(url: Url) -> Seq<char>;

/// The path of `url`, as `Url::path` gives it.
pub uninterp spec fn url_path(url: Url) -> Seq<char>;

/// The text of `url` behind its path, as `&url[Position::AfterPath..]` gives
/// it: query and fragment with their leading `?` and `#`.
pub uninterp spec fn url_after_path(url: Url) -> Seq<char>;

/// Whether `url` has an opaque path, as `Url::cannot_be_a_base` tells.
pub uninterp spec fn url_cannot_be_a_base(url: Url) -> bool;

/// The scheme of `url`, as `Url::scheme` gives it.
pub uninterp spec fn url_scheme(url: Url) -> Seq<char>;

/// The host of `url`, as `Url::host_str` gives it.
pub uninterp spec fn url_host(url: Url) -> Option<Seq<char>>;

/// The port of `url`, as `Url::port` gives it.
pub uninterp spec fn url_port(url: Url) -> Option<u16>;

/// The whole text of `url`.
pub open spec fn url_text(url: Url) -> Seq<char> {
    url_before_path(url) + url_path(url) + url_after_path(url)
}

/// The length of the text of `url` in bytes.
pub open spec fn url_byte_len(url: Url) -> nat {
    encode_utf8(url_text(url)).len()
}

pub open spec fn is_ascii_alphanumeric(c: char) -> bool {
    ||| '0' <= c <= '9'
    ||| 'a' <= c <= 'z'
    ||| 'A' <= c <= 'Z'
}

/// A path that a URL takes over letter for letter: a slash followed by ASCII
/// letters and digits only, so that nothing in it is escaped, no segment is a
/// dot segment and none reads as a drive letter.
pub open spec fn is_plain_path(path: Seq<char>) -> bool {
    &&& path.len() > 0
    &&& path[0] == '/'
    &&& forall|i: int| 1 <= i < path.len() ==> is_ascii_alphanumeric(#[trigger] path[i])
}

/// The path that a URL has once the plain path `path` was set on it. A URL
/// with an opaque path keeps no leading slash: it holds the escape `%2F` in
/// its place.
pub open spec fn path_once_set(cannot_be_a_base: bool, path: Seq<char>) -> Seq<char> {
    if cannot_be_a_base {
        seq!['%', '2', 'F'] + path.skip(1)
    } else {
        path
    }
}

/// `Url::as_str` returns the serialization, which is the three parts of the
/// URL in a row.
pub assume_specification[ Url::as_str ](url: &Url) -> (text: &str)
    ensures
        text@ == url_text(*url),
;

/// `Url::clone` is derived: the copy is the same URL.
pub assume_specification[ <Url as Clone>::clone ](url: &Url) -> (copy: Url)
    ensures
        copy == *url,
;

/// `Url::set_path`, for a plain path and a URL whose new text still fits the
/// 32-bit offsets that a `Url` keeps (beyond them the call panics).
///
/// The call cuts the serialization at the start of the path, writes the new
/// path and puts back the query and fragment: the text in front of the path
/// and behind it stays, and with it scheme, host and port. The new path is
/// the given one, except that a URL with an opaque path gets `%2F` for the
/// leading slash.
pub assume_specification[ Url::set_path ](url: &mut Url, path: &str)
    requires
        is_plain_path(path@),
        url_byte_len(*old(url)) + path@.len() + 2 <= u32::MAX,
    ensures
        url_before_path(*final(url)) == url_before_path(*old(url)),
        url_after_path(*final(url)) == url_after_path(*old(url)),
        url_scheme(*final(url)) == url_scheme(*old(url)),
        url_host(*final(url)) == url_host(*old(url)),
        url_port(*final(url)) == url_port(*old(url)),
        url_path(*final(url)) == path_once_set(url_cannot_be_a_base(*old(url)), path@),
;

/// The path on which a relay accepts its mesh peers.
pub const RELAY_PATH: &'static str = "/derp";

/// The longest text, in bytes, of a URL that can still be given the relay
/// path.
pub const MAX_URL_BYTES: usize = 0xFFFF_FFF8;

/// `url` is short enough to be given the relay path.
pub open spec fn takes_relay_path(url: Url) -> bool {
    url_byte_len(url) <= MAX_URL_BYTES
}

/// `relay` is the mesh endpoint of the node at `node`: the same URL with the
/// relay path for its path.
pub open spec fn is_relay_url_of(relay: Url, node: Url) -> bool {
    &&& url_before_path(relay) == url_before_path(node)
    &&& url_after_path(relay) == url_after_path(node)
    &&& url_scheme(relay) == url_scheme(node)
    &&& url_host(relay) == url_host(node)
    &&& url_port(relay) == url_port(node)
    &&& url_path(relay) == path_once_set(url_cannot_be_a_base(node), RELAY_PATH@)
}

/// `relays` holds the mesh endpoints of `nodes`, one for one and in order.
pub open spec fn are_relay_urls_of(relays: Seq<Url>, nodes: Seq<Url>) -> bool {
    &&& relays.len() == nodes.len()
    &&& forall|i: int| 0 <= i < nodes.len() ==> is_relay_url_of(#[trigger] relays[i], nodes[i])
}

/// The relay path is a plain path of five letters.
pub proof fn lemma_relay_path_is_plain()
    ensures
        RELAY_PATH@ == seq!['/', 'd', 'e', 'r', 'p'],
        is_plain_path(RELAY_PATH@),
{
    reveal_strlit("/derp");
    assert(RELAY_PATH@ =~= seq!['/', 'd', 'e', 'r', 'p']);
}

/// Whether `url` is short enough to be given the relay path.
pub fn fits_relay_path(url: &Url) -> (fits: bool)
    ensures
        fits == takes_relay_path(*url),
{
    url.as_str().as_bytes().len() <= MAX_URL_BYTES
}

/// The mesh endpoint of the node at `node`: a copy of its URL with the path
/// replaced by the relay path.
pub fn relay_url(node: &Url) -> (relay: Url)
    requires
        takes_relay_path(*node),
    ensures
        is_relay_url_of(relay, *node),
{
    let mut url = node.clone();
    proof {
        lemma_relay_path_is_plain();
    }
    url.set_path(RELAY_PATH);
    url
}

/// The mesh endpoint of the node at `node`, or `None` where its URL is too
/// long to be rewritten.
pub fn try_relay_url(node: &Url) -> (relay: Option<Url>)
    ensures
        relay is Some <==> takes_relay_path(*node),
        relay matches Some(url) ==> is_relay_url_of(url, *node),
{
    if fits_relay_path(node) {
        Some(relay_url(node))
    } else {
        None
    }
}

/// A relay endpoint keeps scheme, host and port of the node's URL, and
/// everything else of its text but the path. Its path is the relay path,
/// unless the node's URL has an opaque path.
pub proof fn lemma_relay_url_keeps_origin(relay: Url, node: Url)
    requires
        is_relay_url_of(relay, node),
    ensures
        url_scheme(relay) == url_scheme(node),
        url_host(relay) == url_host(node),
        url_port(relay) == url_port(node),
        !url_cannot_be_a_base(node) ==> url_path(relay) == RELAY_PATH@,
        !url_cannot_be_a_base(node) ==> url_text(relay) == url_before_path(node) + RELAY_PATH@
            + url_after_path(node),
{
}

} // verus!
