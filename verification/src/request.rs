//! The request dispatcher: builds one HTTP request description from a
//! method, a url, an optional flat body and the credential requirements.
//! When a required credential is absent it fails at once, and no request
//! is produced, so nothing reaches the transport.

use vstd::prelude::*;
use vstd::pervasive::unreached;

use crate::error::{err_bad_request, err_is, JsbError};
use crate::json::{encode_json_object, object_text, pair_views};
use crate::text::str_views;
use crate::JsonBank;

verus! {

/// The HTTP method of a request.
#[derive(Debug, Clone, Copy, PartialEq, Eq, Structural)]
pub enum HttpMethod {
    Get,
    Post,
    Delete,
}

/// One outbound HTTP request, fully described: the transport sends it as
/// it stands. For `Get`, `query` carries the parameters and `body` is
/// absent; for `Post`, `body` carries the JSON-encoded object and `query`
/// is empty; for `Delete`, both are empty.
#[derive(Debug, Clone)]
pub struct HttpRequest {
    pub method: HttpMethod,
    pub url: String,
    pub headers: Vec<(String, String)>,
    pub query: Vec<(String, String)>,
    pub body: Option<String>,
}

/// One raw HTTP reply, as the transport hands it back: the numeric
/// status, the status line text (for example `404 Not Found`), and the
/// body text.
#[derive(Debug, Clone)]
pub struct RawResponse {
    pub status: u16,
    pub status_text: String,
    pub body: String,
}

/// Whether a status speaks of success.
pub open spec fn spec_status_success(status: u16) -> bool {
    200 <= status < 300
}

/// Whether a status speaks of success (the 2xx range).
pub fn status_is_success(status: u16) -> (r: bool)
    ensures
        r == spec_status_success(status),
{
    200 <= status && status < 300
}

/// The views of the body pairs handed to the dispatcher: the pairs of the
/// vector, or nothing.
pub open spec fn spec_body_pairs(body: &Option<Vec<(String, String)>>) -> Seq<
    (Seq<char>, Seq<char>),
> {
    match body {
        Some(pairs) => pair_views(pairs@),
        None => Seq::empty(),
    }
}

impl JsonBank {
    /// The headers the dispatcher attaches: the JSON content type, then
    /// the public key, then the private key, each when required.
    pub open spec fn spec_dispatch_headers(&self, require_pub_key: bool, require_prv_key: bool) -> Seq<
        (Seq<char>, Seq<char>),
    > {
        seq![("Content-Type"@, "application/json"@)] + (if require_pub_key {
            seq![("jsb-pub-key"@, self.spec_public_key())]
        } else {
            Seq::empty()
        }) + (if require_prv_key {
            seq![("jsb-prv-key"@, self.spec_private_key())]
        } else {
            Seq::empty()
        })
    }

    /// Builds one request. A required but unconfigured key fails at once
    /// with a `bad_request` error, and no request is produced: nothing is
    /// sent. Otherwise the request carries the method, the url, the
    /// dispatch headers, and the body pairs: as query parameters for
    /// `Get`, as a JSON-encoded body for `Post`, and not at all for
    /// `Delete`.
    pub fn dispatch(
        &self,
        method: HttpMethod,
        url: String,
        body: Option<Vec<(String, String)>>,
        require_pub_key: bool,
        require_prv_key: bool,
    ) -> (r: Result<HttpRequest, JsbError>)
        ensures
            ({
                let pub_missing = require_pub_key && !self.spec_has_public_key();
                let prv_missing = require_prv_key && !self.spec_has_private_key();
                match r {
                    Err(e) => (pub_missing || prv_missing) && err_is(
                        &e,
                        "bad_request"@,
                        if pub_missing {
                            "Public key is not set"@
                        } else {
                            "Private key is not set"@
                        },
                    ),
                    Ok(req) => {
                        &&& !pub_missing
                        &&& !prv_missing
                        &&& req.method == method
                        &&& req.url@ == url@
                        &&& pair_views(req.headers@) == self.spec_dispatch_headers(
                            require_pub_key,
                            require_prv_key,
                        )
                        &&& match method {
                            HttpMethod::Get => {
                                &&& pair_views(req.query@) == spec_body_pairs(&body)
                                &&& req.body is None
                            },
                            HttpMethod::Post => {
                                &&& req.query@.len() == 0
                                &&& match req.body {
                                    Some(b) => b@ == object_text(spec_body_pairs(&body)),
                                    None => false,
                                }
                            },
                            HttpMethod::Delete => {
                                &&& req.query@.len() == 0
                                &&& req.body is None
                            },
                        }
                    },
                }
            }),
    {
        proof {
            reveal_strlit("public");
            reveal_strlit("private");
            assert("public"@.len() == 6);
            assert("private"@.len() == 7);
        }
        let mut headers: Vec<(String, String)> = Vec::new();
        headers.push(("Content-Type".to_owned(), "application/json".to_owned()));

        if require_pub_key {
            if self.has_key("public") {
                headers.push(("jsb-pub-key".to_owned(), self.get_key("public")));
            } else {
                return Err(err_bad_request("Public key is not set"));
            }
        }

        if require_prv_key {
            if self.has_key("private") {
                headers.push(("jsb-prv-key".to_owned(), self.get_key("private")));
            } else {
                return Err(err_bad_request("Private key is not set"));
            }
        }

        proof {
            assert(pair_views(headers@) =~= self.spec_dispatch_headers(
                require_pub_key,
                require_prv_key,
            ));
        }

        let req = match method {
            HttpMethod::Get => {
                let query = match body {
                    Some(pairs) => pairs,
                    None => Vec::new(),
                };
                proof {
                    assert(pair_views(Seq::<(String, String)>::empty()) =~= Seq::<
                        (Seq<char>, Seq<char>),
                    >::empty());
                }
                HttpRequest { method, url, headers, query, body: None }
            },
            HttpMethod::Post => {
                let pairs = match body {
                    Some(pairs) => pairs,
                    None => Vec::new(),
                };
                proof {
                    assert(pair_views(Seq::<(String, String)>::empty()) =~= Seq::<
                        (Seq<char>, Seq<char>),
                    >::empty());
                }
                let encoded = encode_json_object(&pairs);
                HttpRequest { method, url, headers, query: Vec::new(), body: Some(encoded) }
            },
            HttpMethod::Delete => HttpRequest {
                method,
                url,
                headers,
                query: Vec::new(),
                body: None,
            },
        };
        Ok(req)
    }

    /// Holds when `req` is an unauthenticated GET of the public endpoint
    /// at the given path parts, with no parameters and no body.
    pub open spec fn public_get_request_ok(&self, req: &HttpRequest, parts: Seq<Seq<char>>) -> bool {
        &&& req.method == HttpMethod::Get
        &&& req.url@ == self.spec_public_url(parts)
        &&& pair_views(req.headers@) == self.spec_dispatch_headers(false, false)
        &&& req.query@.len() == 0
        &&& req.body is None
    }

    /// Holds when `req` is a GET of the `v1` endpoint at the given path
    /// parts, carrying the public key and the given query parameters.
    pub open spec fn read_get_request_ok(
        &self,
        req: &HttpRequest,
        parts: Seq<Seq<char>>,
        query: Seq<(Seq<char>, Seq<char>)>,
    ) -> bool {
        &&& req.method == HttpMethod::Get
        &&& req.url@ == self.spec_v1_url(parts)
        &&& pair_views(req.headers@) == self.spec_dispatch_headers(true, false)
        &&& pair_views(req.query@) == query
        &&& req.body is None
    }

    /// Holds when `req` is a POST of the `v1` endpoint at the given path
    /// parts, carrying the public key and the JSON encoding of `body_pairs`.
    pub open spec fn read_post_request_ok(
        &self,
        req: &HttpRequest,
        parts: Seq<Seq<char>>,
        body_pairs: Seq<(Seq<char>, Seq<char>)>,
    ) -> bool {
        &&& req.method == HttpMethod::Post
        &&& req.url@ == self.spec_v1_url(parts)
        &&& pair_views(req.headers@) == self.spec_dispatch_headers(true, false)
        &&& req.query@.len() == 0
        &&& match req.body {
            Some(b) => b@ == object_text(body_pairs),
            None => false,
        }
    }

    /// Holds when `req` is a POST of the `v1` endpoint at the given path
    /// parts, carrying the private key and the JSON encoding of `body_pairs`.
    pub open spec fn write_post_request_ok(
        &self,
        req: &HttpRequest,
        parts: Seq<Seq<char>>,
        body_pairs: Seq<(Seq<char>, Seq<char>)>,
    ) -> bool {
        &&& req.method == HttpMethod::Post
        &&& req.url@ == self.spec_v1_url(parts)
        &&& pair_views(req.headers@) == self.spec_dispatch_headers(false, true)
        &&& req.query@.len() == 0
        &&& match req.body {
            Some(b) => b@ == object_text(body_pairs),
            None => false,
        }
    }

    /// Holds when `req` is a DELETE of the `v1` endpoint at the given
    /// path parts, carrying the private key.
    pub open spec fn delete_request_ok(&self, req: &HttpRequest, parts: Seq<Seq<char>>) -> bool {
        &&& req.method == HttpMethod::Delete
        &&& req.url@ == self.spec_v1_url(parts)
        &&& pair_views(req.headers@) == self.spec_dispatch_headers(false, true)
        &&& req.query@.len() == 0
        &&& req.body is None
    }

    // A GET of the public endpoint: no credential can be missing, so a
    // request always comes out.
    pub(crate) fn public_get_request(&self, paths: Vec<&str>) -> (req: HttpRequest)
        ensures
            self.public_get_request_ok(&req, str_views(paths@)),
    {
        let ghost parts = str_views(paths@);
        let url = self.public_url(paths);
        match self.dispatch(HttpMethod::Get, url, None, false, false) {
            Ok(req) => {
                proof {
                    assert(pair_views(req.query@) =~= Seq::<(Seq<char>, Seq<char>)>::empty());
                }
                req
            },
            Err(_) => unreached(),
        }
    }

    // A GET of the `v1` endpoint with the public key and optional query
    // parameters; refused when no public key is configured.
    pub(crate) fn read_get_request(
        &self,
        paths: Vec<&str>,
        query: Option<Vec<(String, String)>>,
    ) -> (r: Result<HttpRequest, JsbError>)
        ensures
            match r {
                Ok(req) => self.spec_has_public_key() && self.read_get_request_ok(
                    &req,
                    str_views(paths@),
                    spec_body_pairs(&query),
                ),
                Err(e) => !self.spec_has_public_key() && err_is(
                    &e,
                    "bad_request"@,
                    "Public key is not set"@,
                ),
            },
    {
        let url = self.v1_url(paths);
        self.dispatch(HttpMethod::Get, url, query, true, false)
    }

    // A POST of the `v1` endpoint with the public key; refused when no
    // public key is configured.
    pub(crate) fn read_post_request(&self, paths: Vec<&str>, body: Option<Vec<(String, String)>>) -> (r:
        Result<HttpRequest, JsbError>)
        ensures
            match r {
                Ok(req) => self.spec_has_public_key() && self.read_post_request_ok(
                    &req,
                    str_views(paths@),
                    spec_body_pairs(&body),
                ),
                Err(e) => !self.spec_has_public_key() && err_is(
                    &e,
                    "bad_request"@,
                    "Public key is not set"@,
                ),
            },
    {
        let url = self.v1_url(paths);
        self.dispatch(HttpMethod::Post, url, body, true, false)
    }

    // A POST of the `v1` endpoint with the private key; refused when no
    // private key is configured.
    pub(crate) fn write_post_request(&self, paths: Vec<&str>, body: Option<Vec<(String, String)>>) -> (r:
        Result<HttpRequest, JsbError>)
        ensures
            match r {
                Ok(req) => self.spec_has_private_key() && self.write_post_request_ok(
                    &req,
                    str_views(paths@),
                    spec_body_pairs(&body),
                ),
                Err(e) => !self.spec_has_private_key() && err_is(
                    &e,
                    "bad_request"@,
                    "Private key is not set"@,
                ),
            },
    {
        let url = self.v1_url(paths);
        self.dispatch(HttpMethod::Post, url, body, false, true)
    }

    // A DELETE of the `v1` endpoint with the private key; refused when no
    // private key is configured.
    pub(crate) fn delete_request(&self, paths: Vec<&str>) -> (r: Result<HttpRequest, JsbError>)
        ensures
            match r {
                Ok(req) => self.spec_has_private_key() && self.delete_request_ok(
                    &req,
                    str_views(paths@),
                ),
                Err(e) => !self.spec_has_private_key() && err_is(
                    &e,
                    "bad_request"@,
                    "Private key is not set"@,
                ),
            },
    {
        let url = self.v1_url(paths);
        self.dispatch(HttpMethod::Delete, url, None, false, true)
    }
}

} // verus!
