//! The result of validating a GitHub token.

use crate::text::{concat2, parse_u32, parse_u32_spec, split_spec, split_str};
use vstd::prelude::*;

verus! {

/// Token validation result.
#[derive(Debug, Clone)]
pub struct TokenValidation {
    pub valid: bool,
    pub username: Option<String>,
    pub scopes: Vec<String>,
    pub rate_limit_remaining: u32,
    pub error: Option<String>,
}

/// How a failed API request is reported: `HTTP <status>: <body>`.
pub open spec fn http_error_spec(status: Seq<char>, body: Seq<char>) -> Seq<char> {
    "HTTP "@ + status + ": "@ + body
}

/// How a failed API request is reported: `HTTP <status>: <body>`.
pub fn http_error_text(status: &str, body: &str) -> (e: String)
    ensures
        e@ == http_error_spec(status@, body@),
{
    let mut e = concat2("HTTP ", status);
    e.push_str(": ");
    e.push_str(body);
    proof {
        assert(e@ =~= http_error_spec(status@, body@));
    }
    e
}

impl TokenValidation {
    /// A failed validation with the given error message.
    pub fn invalid(error: String) -> (v: TokenValidation)
        ensures
            !v.valid,
            v.username is None,
            v.scopes@.len() == 0,
            v.rate_limit_remaining == 0,
            v.error == Some(error),
    {
        TokenValidation {
            valid: false,
            username: None,
            scopes: Vec::new(),
            rate_limit_remaining: 0,
            error: Some(error),
        }
    }

    /// A failed validation for an HTTP error: `HTTP <status>: <body>`.
    pub fn http_failure(status: &str, body: &str) -> (v: TokenValidation)
        ensures
            !v.valid,
            v.username is None,
            v.scopes@.len() == 0,
            v.rate_limit_remaining == 0,
            v.error matches Some(e) && e@ == http_error_spec(status@, body@),
    {
        Self::invalid(http_error_text(status, body))
    }

    /// A successful validation from the response: the `x-oauth-scopes` header
    /// split at `", "` (no scopes without the header), the
    /// `x-ratelimit-remaining` header as a number (0 when it is missing or not
    /// a number), and the user's login.
    pub fn from_success(scopes_header: Option<&str>, rate_limit_header: Option<&str>, login: Option<String>) -> (v:
        TokenValidation)
        ensures
            v.valid,
            v.username == login,
            v.error is None,
            v.scopes@.map_values(|s: String| s@) == match scopes_header {
                Some(h) => split_spec(h@, ", "@),
                None => Seq::<Seq<char>>::empty(),
            },
            v.rate_limit_remaining == match rate_limit_header {
                Some(h) => match parse_u32_spec(h@) {
                    Some(n) => n,
                    None => 0,
                },
                None => 0,
            },
    {
        proof {
            reveal_strlit(", ");
        }
        let scopes = match scopes_header {
            Some(h) => split_str(h, ", "),
            None => {
                let empty: Vec<String> = Vec::new();
                proof {
                    assert(empty@.map_values(|s: String| s@) =~= Seq::<Seq<char>>::empty());
                }
                empty
            },
        };
        let rate_limit_remaining = match rate_limit_header {
            Some(h) => match parse_u32(h) {
                Some(n) => n,
                None => 0,
            },
            None => 0,
        };
        TokenValidation { valid: true, username: login, scopes, rate_limit_remaining, error: None }
    }

    /// What an authentication attempt reports: the username (`Unknown` when
    /// the response named none) for a valid token, else the error (`Invalid
    /// token` when none was given).
    pub fn outcome(self) -> (r: Result<String, String>)
        ensures
            self.valid ==> (r matches Ok(u) && u@ == match self.username {
                Some(n) => n@,
                None => "Unknown"@,
            }),
            !self.valid ==> (r matches Err(e) && e@ == match self.error {
                Some(m) => m@,
                None => "Invalid token"@,
            }),
    {
        if self.valid {
            match self.username {
                Some(n) => Ok(n),
                None => Ok("Unknown".to_owned()),
            }
        } else {
            match self.error {
                Some(m) => Err(m),
                None => Err("Invalid token".to_owned()),
            }
        }
    }
}

} // verus!
