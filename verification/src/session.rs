//! The search session: holds the token that a successful handshake against
//! the provider's search landing page yields, and builds the exact query of
//! every authenticated search call. The HTTP exchanges themselves happen
//! outside the library; this module owns the rules about them.

use vstd::prelude::*;
use vstd::string::StringExecFns;
use crate::Error;
use crate::text::{all_digits, dec_value, digit_value, str_eq, u64_to_dec_string};

verus! {

/// The cookies of a response, as name/value views.
pub open spec fn cookie_views(cookies: Seq<(String, String)>) -> Seq<(Seq<char>, Seq<char>)> {
    cookies.map_values(|c: (String, String)| (c.0@, c.1@))
}

/// The value of the first cookie with the given name, if any.
pub open spec fn find_cookie(cookies: Seq<(Seq<char>, Seq<char>)>, name: Seq<char>) -> Option<
    Seq<char>,
>
    decreases cookies.len(),
{
    if cookies.len() == 0 {
        None
    } else if cookies.first().0 == name {
        Some(cookies.first().1)
    } else {
        find_cookie(cookies.drop_first(), name)
    }
}

/// A search session against the identity provider. The token is set exactly
/// once by a successful handshake (a repeated handshake replaces it), and no
/// search query can be built while it is unset.
pub struct SearchSession {
    pub session_token: Option<String>,
}

impl SearchSession {
    /// A fresh session: no token until a handshake succeeds.
    pub fn new() -> (s: SearchSession)
        ensures
            s.session_token is None,
    {
        SearchSession { session_token: None }
    }

    /// Digests the cookies that the handshake response set: stores the value
    /// of the first cookie named `sessionid`, replacing any earlier token.
    /// Without such a cookie the handshake failed and the stored token is
    /// left as it was.
    pub fn apply_handshake(&mut self, cookies: &Vec<(String, String)>) -> (r: Result<(), Error>)
        ensures
            match find_cookie(cookie_views(cookies@), "sessionid"@) {
                Some(v) => r is Ok && (final(self).session_token matches Some(t) && t@ == v),
                None => r == Err::<(), Error>(Error::SessionIdNotFound)
                    && final(self).session_token == old(self).session_token,
            },
    {
        let ghost cv = cookie_views(cookies@);
        let mut i: usize = 0;
        proof {
            assert(cv.subrange(0, cv.len() as int) =~= cv);
        }
        while i < cookies.len()
            invariant
                cv == cookie_views(cookies@),
                i <= cookies@.len(),
                cv.len() == cookies@.len(),
                self.session_token == old(self).session_token,
                find_cookie(cv, "sessionid"@) == find_cookie(
                    cv.subrange(i as int, cv.len() as int),
                    "sessionid"@,
                ),
            decreases cookies@.len() - i,
        {
            let ghost tail = cv.subrange(i as int, cv.len() as int);
            proof {
                assert(tail.first() == cv[i as int]);
                assert(tail.drop_first() =~= cv.subrange(i + 1, cv.len() as int));
            }
            if str_eq(cookies[i].0.as_str(), "sessionid") {
                self.session_token = Some(cookies[i].1.clone());
                return Ok(());
            }
            i = i + 1;
        }
        proof {
            assert(cv.subrange(cv.len() as int, cv.len() as int) =~= Seq::<(
                Seq<char>,
                Seq<char>,
            )>::empty());
        }
        Err(Error::SessionIdNotFound)
    }

    /// Builds the exact query of one search call: the display name under
    /// `text`, `filter=users`, the 1-based wire page number in decimal (the
    /// caller's page count is 0-based), and the stored session token. No
    /// search succeeds while the token is unset.
    pub fn search_params(&self, text: &str, page: u32) -> (r: Result<Vec<(String, String)>, Error>)
        ensures
            match self.session_token {
                Some(token) => r matches Ok(ps) && ps@.len() == 4 && ps@[0].0@ == "text"@
                    && ps@[0].1@ == text@ && ps@[1].0@ == "filter"@ && ps@[1].1@ == "users"@
                    && ps@[2].0@ == "page"@ && all_digits(ps@[2].1@) && ps@[2].1@.len() > 0
                    && dec_value(ps@[2].1@) == page as int + 1 && ps@[2].1@[0] != '0'
                    && ps@[3].0@ == "sessionid"@ && ps@[3].1@ == token@,
                None => r == Err::<Vec<(String, String)>, Error>(Error::SessionIdNotFound),
            },
    {
        let token = match &self.session_token {
            Some(t) => t,
            None => {
                return Err(Error::SessionIdNotFound);
            },
        };
        let page_text = u64_to_dec_string(page as u64 + 1);
        proof {
            if page_text@[0] == '0' {
                assert(page_text@.len() == 1);
                assert(page_text@.drop_last() =~= Seq::<char>::empty());
                assert(page_text@.last() == page_text@[0]);
                assert(dec_value(Seq::<char>::empty()) == 0);
                assert(dec_value(page_text@) == digit_value('0'));
                assert(false);
            }
        }
        let mut ps: Vec<(String, String)> = Vec::new();
        ps.push((String::from_str("text"), text.to_owned()));
        ps.push((String::from_str("filter"), String::from_str("users")));
        ps.push((String::from_str("page"), page_text));
        ps.push((String::from_str("sessionid"), token.clone()));
        Ok(ps)
    }
}

} // verus!
