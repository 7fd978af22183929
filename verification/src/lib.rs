//! Identity resolution for a scraped leaderboard: links a leaderboard row
//! (display name + avatar image URL) to a durable numeric account id on the
//! identity provider's side.
//!
//! The pipeline is split into small verified pieces:
//! - avatar fingerprinting ([`parse_avatar_url`](fingerprint::parse_avatar_url)),
//! - extraction of candidate users from one page of search-result markup
//!   ([`candidates`]),
//! - the session token rules and the exact search query parameters
//!   ([`session`]),
//! - vanity-handle lookup interpretation ([`vanity`]),
//! - the paginated disambiguation state machine ([`resolver`]),
//! - the storage-facing record types ([`storage`]),
//! - character-level string utilities and decimal numerals ([`text`]).
//!
//! All network transport stays outside the library: callers perform the HTTP
//! exchanges and feed the plain responses back in.

use vstd::prelude::*;

pub mod candidates;
pub mod fingerprint;
pub mod resolver;
pub mod session;
pub mod storage;
pub mod text;
pub mod vanity;

verus! {

/// Error taxonomy of the resolution pipeline. Variants that wrapped a foreign
/// error in the transport layer carry its rendered message instead.
#[derive(Debug, PartialEq, Eq)]
pub enum Error {
    /// A structural element expected in result markup was absent.
    HtmlParseError(String),
    /// A response body could not be decoded.
    JsonError(String),
    /// A numeric field could not be parsed.
    ParseError(String),
    /// The HTTP exchange itself failed.
    RequestError(String),
    /// The search depth budget ran out without a provider verdict either way.
    SearchAborted,
    /// The handshake yielded no session cookie, or a search ran before one.
    SessionIdNotFound,
    /// No lookup API key was provided at construction time.
    SteamApiKeyNotSet,
    /// The provider affirmatively reported no match.
    UserNotFound,
}

} // verus!
