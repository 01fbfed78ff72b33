//! A verified client SDK for the JsonBank JSON-document storage service.
//!
//! The library holds the pure logic of the client: endpoint resolution,
//! credential handling, request building, client-side validation, and
//! normalization of raw HTTP responses into typed results or a uniform
//! error shape. The wire transport itself is an outside collaborator:
//! the caller sends each request the library builds, as it stands, and
//! hands the raw reply back to the response methods.

use vstd::prelude::*;
use vstd::string::StringExecFns;

pub mod auth;
pub mod documents;
pub mod folders;
pub mod error;
pub mod functions;
pub mod json;
pub mod request;
pub mod response;
pub mod structs;
pub mod text;

use crate::text::{join_strs, join_view, str_eq, str_views};

verus! {

/// The keyword `jsonbank`
pub const JSONBANK: &'static str = "jsonbank";

/// The keyword `jsonbankio`
pub const JSONBANK_IO: &'static str = "jsonbankio";

/// The default host
pub const DEFAULT_HOST: &'static str = "https://api.jsonbank.io";

/// Holds the public and private keys
pub struct Keys {
    pub public: Option<String>,
    pub private: Option<String>,
}

/// The configuration struct
pub struct Config {
    pub host: String,
    pub keys: Option<Keys>,
}

/// Minimal Config struct needed to initialize.
pub struct InitConfig {
    pub host: Option<String>,
    pub keys: Option<Keys>,
}

// The two base urls derived from the host.
struct Endpoints {
    v1: String,
    public: String,
}

/// JsonBank SDK Instance
pub struct JsonBank {
    /// Instance Config
    pub config: Config,
    // Endpoints, recomputed whenever the host changes
    endpoints: Endpoints,
    // Authenticated data, cached by a successful `authenticate` call
    authenticated_data: Option<crate::structs::AuthenticatedData>,
}

impl JsonBank {
    /// The characters of the configured host.
    pub closed spec fn spec_host(&self) -> Seq<char> {
        self.config.host@
    }

    /// The characters of the `v1` base url.
    pub closed spec fn spec_v1_endpoint(&self) -> Seq<char> {
        self.endpoints.v1@
    }

    /// The characters of the `public` base url.
    pub closed spec fn spec_public_endpoint(&self) -> Seq<char> {
        self.endpoints.public@
    }

    /// The base urls reflect the configured host: `v1` is the host
    /// followed by `/v1`, `public` is the host itself.
    pub open spec fn endpoints_ok(&self) -> bool {
        &&& self.spec_v1_endpoint() == self.spec_host() + "/v1"@
        &&& self.spec_public_endpoint() == self.spec_host()
    }

    /// Whether a public key is configured.
    pub closed spec fn spec_has_public_key(&self) -> bool {
        match self.config.keys {
            Some(k) => k.public is Some,
            None => false,
        }
    }

    /// Whether a private key is configured.
    pub closed spec fn spec_has_private_key(&self) -> bool {
        match self.config.keys {
            Some(k) => k.private is Some,
            None => false,
        }
    }

    /// The configured public key, or the empty string if absent.
    pub closed spec fn spec_public_key(&self) -> Seq<char> {
        match self.config.keys {
            Some(k) => match k.public {
                Some(p) => p@,
                None => Seq::empty(),
            },
            None => Seq::empty(),
        }
    }

    /// The configured private key, or the empty string if absent.
    pub closed spec fn spec_private_key(&self) -> Seq<char> {
        match self.config.keys {
            Some(k) => match k.private {
                Some(p) => p@,
                None => Seq::empty(),
            },
            None => Seq::empty(),
        }
    }

    /// The identity cached by the last successful `authenticate` call,
    /// seen through its view.
    pub closed spec fn spec_cached_auth(&self) -> Option<crate::structs::AuthenticatedDataView> {
        match self.authenticated_data {
            Some(d) => Some(d@),
            None => None,
        }
    }

    /// The characters of a url under the `public` base url.
    pub open spec fn spec_public_url(&self, parts: Seq<Seq<char>>) -> Seq<char> {
        self.spec_public_endpoint() + "/"@ + join_view(parts, "/"@)
    }

    /// The characters of a url under the `v1` base url.
    pub open spec fn spec_v1_url(&self, parts: Seq<Seq<char>>) -> Seq<char> {
        self.spec_v1_endpoint() + "/"@ + join_view(parts, "/"@)
    }

    /// Whether a key of the given kind (`"public"` or `"private"`) is configured.
    pub fn has_key(&self, key: &str) -> (r: bool)
        ensures
            r == if key@ == "public"@ {
                self.spec_has_public_key()
            } else if key@ == "private"@ {
                self.spec_has_private_key()
            } else {
                false
            },
    {
        match &self.config.keys {
            None => false,
            Some(keys) => {
                if str_eq(key, "public") {
                    keys.public.is_some()
                } else if str_eq(key, "private") {
                    keys.private.is_some()
                } else {
                    false
                }
            },
        }
    }

    /// Returns the key of the given kind, or an empty string if it is
    /// absent or the kind is unknown.
    pub fn get_key(&self, key: &str) -> (r: String)
        ensures
            r@ == if key@ == "public"@ {
                self.spec_public_key()
            } else if key@ == "private"@ {
                self.spec_private_key()
            } else {
                Seq::<char>::empty()
            },
    {
        match &self.config.keys {
            None => String::new(),
            Some(keys) => {
                if str_eq(key, "public") {
                    match &keys.public {
                        Some(p) => p.clone(),
                        None => String::new(),
                    }
                } else if str_eq(key, "private") {
                    match &keys.private {
                        Some(p) => p.clone(),
                        None => String::new(),
                    }
                } else {
                    String::new()
                }
            },
        }
    }

    // Derives the two base urls from the host.
    fn make_endpoints(host: &String) -> (e: Endpoints)
        ensures
            e.v1@ == host@ + "/v1"@,
            e.public@ == host@,
    {
        let mut v1 = host.clone();
        v1.append("/v1");
        Endpoints { v1, public: host.clone() }
    }

    /// Initialize JsonBank SDK Instance with the given minimal config.
    /// A missing host falls back to the default host; endpoints are
    /// derived from the chosen host at once.
    pub fn new(conf: InitConfig) -> (jsb: JsonBank)
        ensures
            jsb.spec_host() == match conf.host {
                Some(h) => h@,
                None => DEFAULT_HOST@,
            },
            jsb.endpoints_ok(),
            jsb.spec_has_public_key() == match conf.keys {
                Some(k) => k.public is Some,
                None => false,
            },
            jsb.spec_has_private_key() == match conf.keys {
                Some(k) => k.private is Some,
                None => false,
            },
            jsb.spec_public_key() == match conf.keys {
                Some(k) => match k.public {
                    Some(p) => p@,
                    None => Seq::<char>::empty(),
                },
                None => Seq::<char>::empty(),
            },
            jsb.spec_private_key() == match conf.keys {
                Some(k) => match k.private {
                    Some(p) => p@,
                    None => Seq::<char>::empty(),
                },
                None => Seq::<char>::empty(),
            },
            jsb.spec_cached_auth() is None,
    {
        let host = match conf.host {
            Some(h) => h,
            None => DEFAULT_HOST.to_owned(),
        };
        let endpoints = Self::make_endpoints(&host);
        let config = Config { host, keys: conf.keys };
        JsonBank { config, endpoints, authenticated_data: None }
    }

    /// Initialize JsonBank SDK Instance without config: the default host
    /// and no keys.
    pub fn new_without_config() -> (jsb: JsonBank)
        ensures
            jsb.spec_host() == DEFAULT_HOST@,
            jsb.endpoints_ok(),
            !jsb.spec_has_public_key(),
            !jsb.spec_has_private_key(),
            jsb.spec_cached_auth() is None,
    {
        Self::new(InitConfig { host: None, keys: None })
    }

    /// Sets the host. The endpoints are recomputed in the same call, so
    /// no stale base url is ever observable.
    pub fn set_host(&mut self, host: &str)
        ensures
            final(self).spec_host() == host@,
            final(self).endpoints_ok(),
            final(self).spec_has_public_key() == old(self).spec_has_public_key(),
            final(self).spec_has_private_key() == old(self).spec_has_private_key(),
            final(self).spec_public_key() == old(self).spec_public_key(),
            final(self).spec_private_key() == old(self).spec_private_key(),
            final(self).spec_cached_auth() == old(self).spec_cached_auth(),
    {
        self.config.host = host.to_owned();
        self.endpoints = Self::make_endpoints(&self.config.host);
    }

    /// Builds a url under the `public` base url from path segments.
    pub fn public_url(&self, paths: Vec<&str>) -> (r: String)
        ensures
            r@ == self.spec_public_endpoint() + "/"@ + join_view(str_views(paths@), "/"@),
    {
        let mut out = self.endpoints.public.clone();
        out.append("/");
        let joined = join_strs(&paths, "/");
        out.append(joined.as_str());
        out
    }

    /// Builds a url under the `v1` base url from path segments.
    pub fn v1_url(&self, paths: Vec<&str>) -> (r: String)
        ensures
            r@ == self.spec_v1_endpoint() + "/"@ + join_view(str_views(paths@), "/"@),
    {
        let mut out = self.endpoints.v1.clone();
        out.append("/");
        let joined = join_strs(&paths, "/");
        out.append(joined.as_str());
        out
    }
}

} // verus!
