//! Vanity-handle resolution: a human-chosen handle is turned into a numeric
//! account id by the provider's public lookup endpoint. The library builds
//! the exact lookup query and interprets the decoded response; the HTTP call
//! happens outside.

use vstd::prelude::*;
use vstd::string::StringExecFns;
use crate::Error;
use crate::text::{all_digits, dec_value, parse_u64};

verus! {

/// The decoded payload of one lookup response.
#[derive(Debug, PartialEq, Eq)]
pub struct ResolvedId {
    /// The account id as a base-10 numeral; meaningful only on success.
    pub steamid: String,
    /// The provider's success indicator: nonzero means the handle resolved.
    pub success: i32,
}

/// The decoded body of one lookup response, which nests its payload.
#[derive(Debug, PartialEq, Eq)]
pub struct ResolvedIdResponse {
    pub response: ResolvedId,
}

/// The lookup half of the pipeline: owns the provisioned API key.
pub struct VanityResolver {
    pub key: String,
}

impl VanityResolver {
    /// Construction fails fast when no API key was provisioned; nothing is
    /// retried per call.
    pub fn new(key: Option<String>) -> (r: Result<VanityResolver, Error>)
        ensures
            match key {
                Some(k) => r matches Ok(v) && v.key == k,
                None => r == Err::<VanityResolver, Error>(Error::SteamApiKeyNotSet),
            },
    {
        match key {
            Some(k) => Ok(VanityResolver { key: k }),
            None => Err(Error::SteamApiKeyNotSet),
        }
    }

    /// The exact query of one lookup call: the provisioned key and the handle.
    pub fn lookup_params(&self, vanity_url: &str) -> (ps: Vec<(String, String)>)
        ensures
            ps@.len() == 2,
            ps@[0].0@ == "key"@,
            ps@[0].1@ == self.key@,
            ps@[1].0@ == "vanityurl"@,
            ps@[1].1@ == vanity_url@,
    {
        let mut ps: Vec<(String, String)> = Vec::new();
        ps.push((String::from_str("key"), self.key.clone()));
        ps.push((String::from_str("vanityurl"), vanity_url.to_owned()));
        ps
    }

    /// Reads a decoded lookup payload. A zero success indicator is the
    /// provider's own miss verdict. On a nonzero indicator the id numeral is
    /// parsed; a numeral that is not a `u64` in decimal is a parse failure,
    /// which is distinct from a miss.
    pub fn interpret_response(payload: &ResolvedId) -> (out: Result<u64, Error>)
        ensures
            payload.success == 0 ==> out == Err::<u64, Error>(Error::UserNotFound),
            payload.success != 0 && payload.steamid@.len() > 0 && all_digits(payload.steamid@)
                && dec_value(payload.steamid@) <= u64::MAX as int ==> out == Ok::<u64, Error>(
                dec_value(payload.steamid@) as u64,
            ),
            payload.success != 0 && !(payload.steamid@.len() > 0 && all_digits(payload.steamid@)
                && dec_value(payload.steamid@) <= u64::MAX as int) ==> (out matches Err(e)
                && e is ParseError),
    {
        if payload.success == 0 {
            return Err(Error::UserNotFound);
        }
        match parse_u64(payload.steamid.as_str()) {
            Some(v) => Ok(v),
            None => Err(Error::ParseError(String::from_str("invalid account id numeral"))),
        }
    }
}

} // verus!
