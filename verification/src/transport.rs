//! Tunnel transport: a version-control wire protocol carried inside an
//! upgraded HTTP connection.
//!
//! The transport owns two custom URL schemes, one plain and one secure. To
//! open a channel it rewrites the custom scheme to the real one, sends a
//! `POST` bearing an upgrade header and a bearer token, and demands a
//! protocol switch (status 101) back; 401 is the distinguished unauthorized
//! failure, anything else a bad response. The upgraded byte stream then
//! carries the embedding engine's own exchange unchanged.

use vstd::prelude::*;

verus! {

use vstd::string::*;

/// Which of the two custom schemes a URL carried.
#[derive(PartialEq, Eq, Structural, Clone, Copy, Debug)]
pub enum TransportScheme {
    /// `recall+git`: the tunnel runs over plain HTTP.
    Plain,
    /// `recalls+git`: the tunnel runs over HTTPS.
    Secure,
}

/// How opening a tunnel failed.
#[derive(Debug)]
pub enum TransportError {
    /// The handshake got HTTP 401: the bearer token was rejected.
    Unauthorized,
    /// The handshake got a status that is neither a protocol switch nor 401;
    /// carries the request description and the status.
    BadResponse { status: u16, request: String },
    /// The URL carries neither custom scheme.
    InvalidUrl,
}

/// `p` is a prefix of `s`.
pub open spec fn has_char_prefix(s: Seq<char>, p: Seq<char>) -> bool {
    p.len() <= s.len() && s.take(p.len() as int) == p
}

/// Decides `has_char_prefix`.
pub fn starts_with_str(s: &str, p: &str) -> (r: bool)
    ensures
        r == has_char_prefix(s@, p@),
{
    let sl = s.unicode_len();
    let pl = p.unicode_len();
    if pl > sl {
        return false;
    }
    let mut i: usize = 0;
    while i < pl
        invariant
            i <= pl,
            pl == p@.len() <= s@.len(),
            forall|j: int| 0 <= j < i ==> s@[j] == p@[j],
        decreases pl - i,
    {
        if s.get_char(i) != p.get_char(i) {
            assert(s@.take(p@.len() as int)[i as int] != p@[i as int]);
            return false;
        }
        i = i + 1;
    }
    assert(s@.take(p@.len() as int) =~= p@);
    true
}

/// The URL a tunnel URL stands for: its custom scheme rewritten to the real
/// one, the rest unchanged; `None` when it carries neither custom scheme.
pub open spec fn rewritten_url(url: Seq<char>) -> Option<(Seq<char>, TransportScheme)> {
    if has_char_prefix(url, "recall+git://"@) {
        Some(("http://"@ + url.skip("recall+git://"@.len() as int), TransportScheme::Plain))
    } else if has_char_prefix(url, "recalls+git://"@) {
        Some(("https://"@ + url.skip("recalls+git://"@.len() as int), TransportScheme::Secure))
    } else {
        None
    }
}

/// Rewrites a tunnel URL to the URL the handshake is sent to. A URL with
/// neither custom scheme is invalid.
pub fn rewrite_tunnel_url(url: &String) -> (r: Result<(String, TransportScheme), TransportError>)
    ensures
        match rewritten_url(url@) {
            Some(p) => r matches Ok(q) && q.0@ == p.0 && q.1 == p.1,
            None => r == Err::<(String, TransportScheme), TransportError>(
                TransportError::InvalidUrl,
            ),
        },
{
    let plain = "recall+git://";
    let secure = "recalls+git://";
    if starts_with_str(url.as_str(), plain) {
        let n = plain.unicode_len();
        let l = url.as_str().unicode_len();
        let suffix = url.as_str().substring_char(n, l);
        let mut out = String::new();
        out.append("http://");
        out.append(suffix);
        proof {
            assert(url@.subrange(n as int, l as int) =~= url@.skip("recall+git://"@.len() as int));
        }
        Ok((out, TransportScheme::Plain))
    } else if starts_with_str(url.as_str(), secure) {
        let n = secure.unicode_len();
        let l = url.as_str().unicode_len();
        let suffix = url.as_str().substring_char(n, l);
        let mut out = String::new();
        out.append("https://");
        out.append(suffix);
        proof {
            assert(url@.subrange(n as int, l as int) =~= url@.skip("recalls+git://"@.len() as int));
        }
        Ok((out, TransportScheme::Secure))
    } else {
        Err(TransportError::InvalidUrl)
    }
}

/// Sorts the status of the upgrade response: only a protocol switch (101)
/// opens the tunnel; 401 is the distinguished unauthorized failure, never a
/// generic one; anything else is a bad response carrying the request
/// description and the status.
pub fn handshake_outcome(status: u16, request: String) -> (r: Result<(), TransportError>)
    ensures
        r is Ok <==> status == 101,
        status == 401 ==> r == Err::<(), TransportError>(TransportError::Unauthorized),
        status != 101 && status != 401 ==> r == Err::<(), TransportError>(
            TransportError::BadResponse { status, request },
        ),
{
    if status == 101 {
        Ok(())
    } else if status == 401 {
        Err(TransportError::Unauthorized)
    } else {
        Err(TransportError::BadResponse { status, request })
    }
}

/// The protocol tag named in the handshake's upgrade header.
pub fn upgrade_protocol_tag() -> (r: String)
    ensures
        r@ == "recall-git"@,
{
    let mut out = String::new();
    out.append("recall-git");
    out
}

/// The authorization header of the handshake: the word `Bearer` and the
/// caller's access token.
pub fn bearer_header(token: &str) -> (r: String)
    ensures
        r@ == "Bearer "@ + token@,
{
    let mut out = String::new();
    out.append("Bearer ");
    out.append(token);
    out
}

} // verus!
