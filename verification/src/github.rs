//! The job-dispatch API client's verified half: the credentials and the
//! exact requests the supervisor issues. The shell performs the HTTP calls
//! and hands the responses back as plain values.

use vstd::prelude::*;

use crate::json::{json_string, spec_json_string};

verus! {

/// The response to a registration-token request.
pub struct RegistrationTokenResult {
    pub token: String,
    pub expires_at: String,
}

/// One API request: the URL to post to and the JSON body, if any. The fixed
/// headers (accept, API version, user agent, bearer authorization) are added
/// by the shell.
pub struct ApiRequest {
    pub url: String,
    pub body: Option<String>,
}

/// The organisation and personal access token the supervisor registers
/// runners under.
pub struct GitHub {
    pub org: String,
    pub pat: String,
}

impl GitHub {
    /// A client for the given organisation and token.
    pub fn new(org: &str, pat: &str) -> (g: GitHub)
        ensures
            g.org@ == org@,
            g.pat@ == pat@,
    {
        GitHub { org: String::from_str(org), pat: String::from_str(pat) }
    }

    /// The authorization header value: the bearer token.
    pub fn authorization(&self) -> (r: String)
        ensures
            r@ == "Bearer "@ + self.pat@,
    {
        let mut r = String::from_str("Bearer ");
        r.append(self.pat.as_str());
        r
    }

    /// The request that mints a fresh registration token for this
    /// organisation. Tokens expire, so one is minted per instance start,
    /// never once at supervisor startup.
    pub fn registration_token(&self) -> (r: ApiRequest)
        ensures
            r.url@ == "https://api.github.com/orgs/"@ + self.org@
                + "/actions/runners/registration-token"@,
            r.body is None,
    {
        let mut url = String::from_str("https://api.github.com/orgs/");
        url.append(self.org.as_str());
        url.append("/actions/runners/registration-token");
        ApiRequest { url, body: None }
    }

    /// The request that removes a runner by name, best effort.
    pub fn remove_runner(&self, runner_name: &str) -> (r: ApiRequest)
        ensures
            r.url@ == "https://api.github.com/orgs/"@ + self.org@
                + "/actions/runners/remove-token"@,
            r.body matches Some(b) && b@ == "{\"runner_name\":"@ + spec_json_string(runner_name@)
                + "}"@,
    {
        let mut url = String::from_str("https://api.github.com/orgs/");
        url.append(self.org.as_str());
        url.append("/actions/runners/remove-token");
        let mut body = String::from_str("{\"runner_name\":");
        let name = json_string(runner_name);
        body.append(name.as_str());
        body.append("}");
        ApiRequest { url, body: Some(body) }
    }
}

} // verus!
