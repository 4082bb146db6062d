//! The admission check: a request is served from the priority pool when it
//! carries the HMAC-SHA256 of its body under the server's key, encoded as
//! URL-safe base64 without padding.

use hmac::{Hmac, Mac};
use sha2::Sha256;
use vstd::prelude::*;

verus! {

/// Where a request goes.
#[derive(Clone, Copy, Debug, PartialEq, Eq, Structural)]
pub enum Route {
    /// The token is the tag of the body: the priority pool serves it.
    Priority,
    /// No token was presented: the public pool serves it.
    Public,
    /// A token was presented and is not the tag of the body. The request is
    /// turned away; it is not served from the public pool instead.
    Rejected,
}

/// The HMAC-SHA256 tag of `message` under `key`.
pub uninterp spec fn hmac_sha256(key: Seq<u8>, message: Seq<u8>) -> Seq<u8>;

/// The bytes that `text` encodes in URL-safe base64 without padding, or
/// `None` where it is not such an encoding.
pub uninterp spec fn base64url_decode(text: Seq<char>) -> Option<Seq<u8>>;

/// The route of a request, from the token it presented (absent, not
/// decodable, or decoded) and the tag of its body.
pub open spec fn route_of(presented: Option<Option<Seq<u8>>>, tag: Seq<u8>) -> Route {
    match presented {
        None => Route::Public,
        Some(None) => Route::Rejected,
        Some(Some(token)) => if token == tag {
            Route::Priority
        } else {
            Route::Rejected
        },
    }
}

/// The token of a request as the check sees it.
pub open spec fn presented_of(token: Option<Seq<char>>) -> Option<Option<Seq<u8>>> {
    match token {
        None => None,
        Some(text) => Some(base64url_decode(text)),
    }
}

/// The route of a request with body `body` and token `token`, under `key`.
pub open spec fn admission(key: Seq<u8>, body: Seq<u8>, token: Option<Seq<char>>) -> Route {
    route_of(presented_of(token), hmac_sha256(key, body))
}

/// `Mac::new_from_slice`, `update` and `finalize` of the `hmac` crate, on
/// `Hmac<Sha256>`: the tag of `message` under `key`. The crate's keyed
/// constructor returns a `Result`; for HMAC it accepts a key of any length
/// and never returns the error, so a tag is always there.
#[verifier::external_body]
fn keyed_tag(key: &[u8], message: &[u8]) -> (tag: Option<Vec<u8>>)
    ensures
        tag.is_some(),
        tag.unwrap()@ == hmac_sha256(key@, message@),
{
    match <Hmac<Sha256> as Mac>::new_from_slice(key) {
        Ok(mut mac) => {
            mac.update(message);
            Some(mac.finalize().into_bytes().to_vec())
        },
        Err(_) => None,
    }
}

/// `Engine::decode` of the `base64` crate on its `URL_SAFE_NO_PAD` engine:
/// the decoded bytes, or nothing where the crate reports an error.
#[verifier::external_body]
fn decode_token(token: &str) -> (bytes: Option<Vec<u8>>)
    ensures
        bytes.is_some() == base64url_decode(token@).is_some(),
        bytes.is_some() ==> bytes.unwrap()@ == base64url_decode(token@).unwrap(),
{
    base64::Engine::decode(&base64::engine::general_purpose::URL_SAFE_NO_PAD, token).ok()
}

/// Compares two byte strings. Strings of one length are read to the end
/// whatever they hold, so the time taken does not tell where they differ.
pub fn constant_time_eq(a: &[u8], b: &[u8]) -> (same: bool)
    ensures
        same == (a@ == b@),
{
    if a.len() != b.len() {
        return false;
    }
    let mut diff: u8 = 0;
    let mut i: usize = 0;
    assert(a@.subrange(0, 0) =~= b@.subrange(0, 0));
    while i < a.len()
        invariant
            a@.len() == b@.len(),
            i <= a@.len(),
            diff == 0 <==> a@.subrange(0, i as int) == b@.subrange(0, i as int),
        decreases a@.len() - i,
    {
        let x: u8 = a[i];
        let y: u8 = b[i];
        let ghost before = diff;
        diff = diff | (x ^ y);
        assert(diff == 0 <==> before == 0 && x == y) by (bit_vector)
            requires
                diff == before | (x ^ y),
        ;
        proof {
            let pa = a@.subrange(0, i as int);
            let pb = b@.subrange(0, i as int);
            let na = a@.subrange(0, i + 1);
            let nb = b@.subrange(0, i + 1);
            assert(na =~= pa.push(x));
            assert(nb =~= pb.push(y));
            if na == nb {
                assert(pa =~= na.subrange(0, i as int));
                assert(pb =~= nb.subrange(0, i as int));
                assert(na[i as int] == nb[i as int]);
            }
        }
        i += 1;
    }
    assert(a@.subrange(0, i as int) =~= a@);
    assert(b@.subrange(0, i as int) =~= b@);
    diff == 0
}

/// Routes a request from the token it presented and the tag of its body:
/// to the public pool without a token, to the priority pool with the right
/// one, and nowhere with any other, decodable or not.
pub fn judge(presented: Option<Option<Vec<u8>>>, tag: &[u8]) -> (route: Route)
    ensures
        route == route_of(
            match presented {
                None => None,
                Some(None) => Some(None),
                Some(Some(token)) => Some(Some(token@)),
            },
            tag@,
        ),
{
    match presented {
        None => Route::Public,
        Some(None) => Route::Rejected,
        Some(Some(token)) => {
            if constant_time_eq(token.as_slice(), tag) {
                Route::Priority
            } else {
                Route::Rejected
            }
        },
    }
}

/// Routes a request with body `body` and token `token` under the server's
/// key.
pub fn route_request(key: &[u8], body: &[u8], token: Option<&str>) -> (route: Route)
    ensures
        route == admission(
            key@,
            body@,
            match token {
                None => None,
                Some(text) => Some(text@),
            },
        ),
{
    match token {
        None => Route::Public,
        Some(text) => match keyed_tag(key, body) {
            Some(tag) => judge(Some(decode_token(text)), tag.as_slice()),
            None => Route::Rejected,
        },
    }
}

/// A request as it reaches the dispatcher: the document body and the token
/// that came with it, if one did.
#[derive(Clone, Debug, PartialEq, Eq)]
pub struct RenderRequest {
    pub body: Vec<u8>,
    pub token: Option<String>,
}

impl RenderRequest {
    /// The token as the client wrote it.
    pub open spec fn spec_token(&self) -> Option<Seq<char>> {
        match self.token {
            None => None,
            Some(text) => Some(text@),
        }
    }

    /// Routes this request under the server's key.
    pub fn route(&self, key: &[u8]) -> (route: Route)
        ensures
            route == admission(key@, self.body@, self.spec_token()),
    {
        match &self.token {
            None => route_request(key, self.body.as_slice(), None),
            Some(text) => route_request(key, self.body.as_slice(), Some(text.as_str())),
        }
    }
}

/// A request is served from the priority pool exactly when its token
/// decodes to the tag of its body, and from the public pool exactly when
/// it has no token. Every other request is turned away.
pub proof fn lemma_admission(key: Seq<u8>, body: Seq<u8>, token: Option<Seq<char>>)
    ensures
        admission(key, body, token) == Route::Priority <==> token.is_some() && base64url_decode(
            token.unwrap(),
        ) == Some(hmac_sha256(key, body)),
        admission(key, body, token) == Route::Public <==> token.is_none(),
{
}

/// A token is bound to the body it was made for: one that admits a body
/// is turned away with every body whose tag differs.
pub proof fn lemma_token_is_bound_to_body(
    key: Seq<u8>,
    body: Seq<u8>,
    other: Seq<u8>,
    token: Seq<char>,
)
    ensures
        admission(key, body, Some(token)) == Route::Priority && hmac_sha256(key, other)
            != hmac_sha256(key, body) ==> admission(key, other, Some(token)) == Route::Rejected,
{
}

} // verus!
