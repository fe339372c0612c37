//! Where to reach the other servers.
use vstd::prelude::*;
use tonic::transport::Uri;

use crate::config::Peer;

verus! {

#[verifier::external_type_specification]
#[verifier::external_body]
pub struct ExUri(tonic::transport::Uri);

/// Whether `text` parses as a URI (the parser of the `http` crate, which
/// tonic re-exports as `tonic::transport::Uri`).
pub uninterp spec fn uri_is_valid(text: Seq<char>) -> bool;

/// The URI that `text` parses to (the parser of the `http` crate), where it
/// parses.
pub uninterp spec fn parsed_uri(text: Seq<char>) -> Uri;

/// Calls `<tonic::transport::Uri as FromStr>::from_str` on `text`: a URI
/// comes back exactly when `text` parses, and it is the one that `text`
/// parses to, which depends on the text alone.
#[verifier::external_body]
fn parse_uri(text: &str) -> (uri: Option<Uri>)
    ensures
        uri is Some <==> uri_is_valid(text@),
        uri matches Some(u) ==> u == parsed_uri(text@),
{
    text.parse::<Uri>().ok()
}

/// Why no client could be built for a server.
#[derive(Clone, Copy, Debug, PartialEq, Eq, Structural)]
pub enum ClientError {
    /// The server's URI does not parse.
    InvalidUri,
}

/// The URI at which `peer` is reached, or an error if it does not parse.
pub fn peer_uri(peer: &Peer) -> (uri: Result<Uri, ClientError>)
    ensures
        uri is Ok <==> uri_is_valid(peer.uri@),
        uri matches Ok(u) ==> u == parsed_uri(peer.uri@),
        uri matches Err(e) ==> e == ClientError::InvalidUri,
{
    match parse_uri(peer.uri.as_str()) {
        Some(u) => Ok(u),
        None => Err(ClientError::InvalidUri),
    }
}

} // verus!
