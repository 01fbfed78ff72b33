//! Authentication operations: the authenticate exchange, whose decoded
//! identity is cached in the client, and the two accessors that read the
//! cache.

use vstd::prelude::*;
use vstd::string::StringExecFns;

use crate::error::{err_is, JsbError};
use crate::request::{spec_status_success, status_is_success, HttpRequest, RawResponse};
use crate::response::{
    decode_authenticated, normalize_error, spec_authenticated, spec_decode_failure_message,
    spec_is_normalized_error,
};
use crate::structs::{AuthenticatedData, AuthenticatedKey};
use crate::text::{clone_string_vec, str_views};
use crate::JsonBank;

verus! {

impl JsonBank {
    /// Builds the request that authenticates the client: a POST of
    /// `{v1}/authenticate` with no body, carrying the public key; refused
    /// at once when no public key is configured.
    pub fn authenticate_request(&self) -> (r: Result<HttpRequest, JsbError>)
        ensures
            match r {
                Ok(req) => self.spec_has_public_key() && self.read_post_request_ok(
                    &req,
                    seq!["authenticate"@],
                    Seq::empty(),
                ),
                Err(e) => !self.spec_has_public_key() && err_is(
                    &e,
                    "bad_request"@,
                    "Public key is not set"@,
                ),
            },
    {
        let paths = vec!["authenticate"];
        proof {
            assert(str_views(paths@) =~= seq!["authenticate"@]);
        }
        self.read_post_request(paths, None)
    }

    /// Reads the reply of the authenticate exchange: on success the
    /// decoded identity is cached in the client and returned; on any
    /// error the cache is left as it was.
    pub fn authenticate(&mut self, resp: &RawResponse) -> (r: Result<AuthenticatedData, JsbError>)
        ensures
            final(self).spec_host() == old(self).spec_host(),
            final(self).spec_v1_endpoint() == old(self).spec_v1_endpoint(),
            final(self).spec_public_endpoint() == old(self).spec_public_endpoint(),
            final(self).spec_has_public_key() == old(self).spec_has_public_key(),
            final(self).spec_has_private_key() == old(self).spec_has_private_key(),
            final(self).spec_public_key() == old(self).spec_public_key(),
            final(self).spec_private_key() == old(self).spec_private_key(),
            match r {
                Ok(d) => spec_status_success(resp.status) && spec_authenticated(resp.body@)
                    == Some(d@) && final(self).spec_cached_auth() == Some(d@),
                Err(e) => final(self).spec_cached_auth() == old(self).spec_cached_auth() && if spec_status_success(resp.status) {
                    spec_authenticated(resp.body@) is None && err_is(
                        &e,
                        "500"@,
                        spec_decode_failure_message(resp.body@),
                    )
                } else {
                    spec_is_normalized_error(&e, resp)
                },
            },
    {
        if status_is_success(resp.status) {
            match decode_authenticated(resp.body.as_str()) {
                Ok(data) => {
                    let stored = AuthenticatedData {
                        authenticated: data.authenticated,
                        username: data.username.clone(),
                        api_key: AuthenticatedKey {
                            title: data.api_key.title.clone(),
                            projects: clone_string_vec(&data.api_key.projects),
                        },
                    };
                    proof {
                        assert(stored@ == data@);
                    }
                    self.authenticated_data = Some(stored);
                    Ok(data)
                },
                Err(e) => Err(e),
            }
        } else {
            Err(normalize_error(resp))
        }
    }

    /// Get username of authenticated user.
    ///
    /// `authenticate` must have succeeded on this client before; without
    /// a cached identity this fails with `not_authenticated`.
    pub fn get_username(&self) -> (r: Result<String, JsbError>)
        ensures
            match r {
                Ok(u) => match self.spec_cached_auth() {
                    Some(d) => u@ == d.username,
                    None => false,
                },
                Err(e) => self.spec_cached_auth() is None && err_is(
                    &e,
                    "not_authenticated"@,
                    "User is not authenticated"@,
                ),
            },
    {
        match &self.authenticated_data {
            Some(data) => Ok(data.username.clone()),
            None => Err(
                JsbError {
                    code: "not_authenticated".to_owned(),
                    message: "User is not authenticated".to_owned(),
                },
            ),
        }
    }

    /// Whether an identity is cached and its `authenticated` flag is set.
    pub fn is_authenticated(&self) -> (r: bool)
        ensures
            r == match self.spec_cached_auth() {
                Some(d) => d.authenticated,
                None => false,
            },
    {
        match &self.authenticated_data {
            Some(data) => data.authenticated,
            None => false,
        }
    }
}

} // verus!
