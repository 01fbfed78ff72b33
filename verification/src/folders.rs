//! Folder operations, in the same request/response split as the document
//! operations, with the same create-if-not-exists recovery around the
//! `name.exists` error.

use vstd::prelude::*;

use crate::error::{err_bad_request, err_is, JsbError};
use crate::functions::{make_folder_path, opt_view, spec_full_path};
use crate::json::pair_views;
use crate::request::{spec_status_success, status_is_success, HttpRequest, RawResponse};
use crate::response::{
    decode_folder, folder_response_ok, normalize_error, spec_decode_failure_message, spec_error_code,
    spec_folder, spec_is_normalized_error,
};
use crate::structs::{CreateFolderBody, Folder};
use crate::text::{str_views, string_eq_str};
use crate::JsonBank;

verus! {

/// The next step of the folder create-if-not-exists flow after the
/// create reply.
#[derive(Debug)]
pub enum CreateFolderStep {
    /// The flow is finished with this outcome; the flag says whether the
    /// folder already existed.
    Done(Result<(Folder, bool), JsbError>),
    /// The create reply said the name exists: send this fetch of the
    /// existing folder and finish with its reply.
    FetchExisting(HttpRequest),
}

impl JsonBank {
    /// Holds when `r` is the outcome of building a create-folder request
    /// from the given input views.
    pub open spec fn create_folder_request_outcome(
        &self,
        name: Seq<char>,
        project: Seq<char>,
        r: &Result<HttpRequest, JsbError>,
    ) -> bool {
        match r {
            Err(e) => if project.len() == 0 {
                err_is(e, "bad_request"@, "Project required"@)
            } else if name.len() == 0 {
                err_is(e, "bad_request"@, "Name required"@)
            } else {
                !self.spec_has_private_key() && err_is(
                    e,
                    "bad_request"@,
                    "Private key is not set"@,
                )
            },
            Ok(req) => {
                &&& project.len() > 0
                &&& name.len() > 0
                &&& self.spec_has_private_key()
                &&& self.write_post_request_ok(
                    req,
                    seq!["project"@, project, "folder"@],
                    seq![("name"@, name), ("project"@, project)],
                )
            },
        }
    }

    /// Builds the request that creates a folder: validates that the
    /// project and the name are given, then builds a POST of
    /// `{v1}/project/{project}/folder` carrying the private key and the
    /// body `{"name", "project"}`.
    pub fn create_folder_request(&self, data: CreateFolderBody) -> (r: Result<
        HttpRequest,
        JsbError,
    >)
        ensures
            self.create_folder_request_outcome(data.name@, data.project@, &r),
    {
        if data.project.as_str().is_empty() {
            return Err(err_bad_request("Project required"));
        }
        if data.name.as_str().is_empty() {
            return Err(err_bad_request("Name required"));
        }
        let ghost expected_pairs = seq![("name"@, data.name@), ("project"@, data.project@)];
        let project = data.project.clone();
        let mut pairs: Vec<(String, String)> = Vec::new();
        pairs.push(("name".to_owned(), data.name));
        pairs.push(("project".to_owned(), data.project));
        proof {
            assert(pair_views(pairs@) =~= expected_pairs);
        }
        let paths = vec!["project", project.as_str(), "folder"];
        proof {
            assert(str_views(paths@) =~= seq!["project"@, project@, "folder"@]);
        }
        self.write_post_request(paths, Some(pairs))
    }

    /// Reads the reply of a folder creation: the decoded folder on
    /// success.
    pub fn create_folder(&self, resp: &RawResponse) -> (r: Result<Folder, JsbError>)
        ensures
            folder_response_ok(resp, &r),
    {
        if status_is_success(resp.status) {
            decode_folder(resp.body.as_str())
        } else {
            Err(normalize_error(resp))
        }
    }

    // Builds the folder fetch request, with the stats query parameter
    // when asked for.
    fn folder_request(&self, id_or_path: &str, include_stats: bool) -> (r: Result<
        HttpRequest,
        JsbError,
    >)
        ensures
            match r {
                Ok(req) => self.spec_has_public_key() && self.read_get_request_ok(
                    &req,
                    seq!["folder"@, id_or_path@],
                    if include_stats {
                        seq![("stats"@, "true"@)]
                    } else {
                        Seq::empty()
                    },
                ),
                Err(e) => !self.spec_has_public_key() && err_is(
                    &e,
                    "bad_request"@,
                    "Public key is not set"@,
                ),
            },
    {
        let query: Option<Vec<(String, String)>> = if include_stats {
            let mut q: Vec<(String, String)> = Vec::new();
            q.push(("stats".to_owned(), "true".to_owned()));
            proof {
                assert(pair_views(q@) =~= seq![("stats"@, "true"@)]);
            }
            Some(q)
        } else {
            None
        };
        let paths = vec!["folder", id_or_path];
        proof {
            assert(str_views(paths@) =~= seq!["folder"@, id_or_path@]);
        }
        self.read_get_request(paths, query)
    }

    /// Builds the request that fetches a folder, without statistics: a
    /// GET of `{v1}/folder/{id_or_path}` carrying the public key, with no
    /// query parameters.
    pub fn get_folder_request(&self, id_or_path: &str) -> (r: Result<HttpRequest, JsbError>)
        ensures
            match r {
                Ok(req) => self.spec_has_public_key() && self.read_get_request_ok(
                    &req,
                    seq!["folder"@, id_or_path@],
                    Seq::empty(),
                ),
                Err(e) => !self.spec_has_public_key() && err_is(
                    &e,
                    "bad_request"@,
                    "Public key is not set"@,
                ),
            },
    {
        self.folder_request(id_or_path, false)
    }

    /// Builds the request that fetches a folder with its statistics: the
    /// same GET, with `stats=true` among the query parameters.
    pub fn get_folder_with_stats_request(&self, id_or_path: &str) -> (r: Result<
        HttpRequest,
        JsbError,
    >)
        ensures
            match r {
                Ok(req) => self.spec_has_public_key() && self.read_get_request_ok(
                    &req,
                    seq!["folder"@, id_or_path@],
                    seq![("stats"@, "true"@)],
                ),
                Err(e) => !self.spec_has_public_key() && err_is(
                    &e,
                    "bad_request"@,
                    "Public key is not set"@,
                ),
            },
    {
        self.folder_request(id_or_path, true)
    }

    /// Reads the reply of a folder fetch.
    pub fn get_folder(&self, resp: &RawResponse) -> (r: Result<Folder, JsbError>)
        ensures
            folder_response_ok(resp, &r),
    {
        if status_is_success(resp.status) {
            decode_folder(resp.body.as_str())
        } else {
            Err(normalize_error(resp))
        }
    }

    /// Reads the reply of a folder fetch with statistics; the decoded
    /// folder carries the stats the server reported.
    pub fn get_folder_with_stats(&self, resp: &RawResponse) -> (r: Result<Folder, JsbError>)
        ensures
            folder_response_ok(resp, &r),
    {
        if status_is_success(resp.status) {
            decode_folder(resp.body.as_str())
        } else {
            Err(normalize_error(resp))
        }
    }

    /// Decides the folder create-if-not-exists flow from the create
    /// reply: a decoded folder is done as freshly created; a
    /// `name.exists` error turns into the fetch of the existing folder at
    /// the deterministic `project/folder?/name` path; every other error
    /// is done as it stands.
    pub fn create_folder_if_not_exists(&self, data: &CreateFolderBody, resp: &RawResponse) -> (r:
        CreateFolderStep)
        ensures
            match r {
                CreateFolderStep::Done(Ok((f, existed))) => spec_status_success(resp.status)
                    && spec_folder(resp.body@) == Some(f@) && existed == false,
                CreateFolderStep::Done(Err(e)) => if spec_status_success(resp.status) {
                    spec_folder(resp.body@) is None && err_is(
                        &e,
                        "500"@,
                        spec_decode_failure_message(resp.body@),
                    )
                } else if spec_error_code(resp.body@, resp.status_text@) == "name.exists"@ {
                    !self.spec_has_public_key() && err_is(
                        &e,
                        "bad_request"@,
                        "Public key is not set"@,
                    )
                } else {
                    spec_is_normalized_error(&e, resp)
                },
                CreateFolderStep::FetchExisting(req) => {
                    &&& !spec_status_success(resp.status)
                    &&& spec_error_code(resp.body@, resp.status_text@) == "name.exists"@
                    &&& self.spec_has_public_key()
                    &&& self.read_get_request_ok(
                        &req,
                        seq![
                            "folder"@,
                            spec_full_path(data.project@, opt_view(&data.folder), data.name@),
                        ],
                        Seq::empty(),
                    )
                },
            },
    {
        proof {
            reveal_strlit("500");
            reveal_strlit("name.exists");
            assert("500"@.len() == 3);
            assert("name.exists"@.len() == 11);
        }
        match self.create_folder(resp) {
            Ok(f) => CreateFolderStep::Done(Ok((f, false))),
            Err(e) => {
                if string_eq_str(&e.code, "name.exists") {
                    let folder_path = make_folder_path(data);
                    match self.get_folder_request(folder_path.as_str()) {
                        Ok(req) => CreateFolderStep::FetchExisting(req),
                        Err(e2) => CreateFolderStep::Done(Err(e2)),
                    }
                } else {
                    CreateFolderStep::Done(Err(e))
                }
            },
        }
    }

    /// Finishes the folder create-if-not-exists flow from the fallback
    /// fetch's reply: the fetched folder becomes the result, flagged as
    /// already existing.
    pub fn create_folder_if_not_exists_finish(&self, resp: &RawResponse) -> (r: Result<
        (Folder, bool),
        JsbError,
    >)
        ensures
            match r {
                Ok((f, existed)) => spec_status_success(resp.status) && spec_folder(resp.body@)
                    == Some(f@) && existed == true,
                Err(e) => if spec_status_success(resp.status) {
                    spec_folder(resp.body@) is None && err_is(
                        &e,
                        "500"@,
                        spec_decode_failure_message(resp.body@),
                    )
                } else {
                    spec_is_normalized_error(&e, resp)
                },
            },
    {
        match self.get_folder(resp) {
            Ok(f) => Ok((f, true)),
            Err(e) => Err(e),
        }
    }
}

} // verus!
