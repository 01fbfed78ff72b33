//! Document operations: each one stands as a pair of methods. The
//! `*_request` method validates its input against the client state and
//! builds the one HTTP request to send; the method under the operation's
//! own name reads the raw reply back into the operation's typed result,
//! or into the uniform error.

use vstd::prelude::*;
use vstd::string::StringExecFns;

use crate::error::{err_bad_request, err_invalid_json, err_is, JsbError};
use crate::functions::{base_name, make_document_path, opt_view, spec_base_name, spec_full_path};
use crate::json::{is_json_text, is_valid_json, pair_views};
use crate::request::{spec_status_success, status_is_success, HttpRequest, RawResponse};
use crate::response::{
    decode_deleted_flag, decode_document_meta, decode_new_document, meta_response_ok,
    new_document_response_ok, normalize_error, process_response_as_string, spec_decode_failure_message,
    spec_deleted_flag, spec_document_meta, spec_error_code, spec_is_normalized_error,
    spec_new_document, text_response_ok,
};
use crate::structs::{
    CreateDocumentBody, DeletedDocument, DocumentMeta, NewDocument, NewDocumentView,
    UploadDocumentBody,
};
use crate::text::{str_views, string_eq_str};
use crate::JsonBank;

verus! {

/// The outcome of the file-system collaborator's "read the text of the
/// file at a path" call, handed in by the caller of the upload flow.
#[derive(Debug, Clone)]
pub enum FileReadResult {
    /// No file stands at the path.
    NotFound,
    /// A file stands there but its text could not be read; the message
    /// says why.
    Unreadable(String),
    /// The text of the file.
    Text(String),
}

/// The next step of the create-if-not-exists flow after the create reply.
#[derive(Debug)]
pub enum CreateDocumentStep {
    /// The flow is finished with this outcome.
    Done(Result<NewDocument, JsbError>),
    /// The create reply said the name exists: send this fetch of the
    /// existing document's metadata and finish with its reply.
    FetchExisting(HttpRequest),
}

/// The name an uploaded document takes: the given one, or the base name
/// of the file when none is given.
pub open spec fn upload_name_view(doc: &UploadDocumentBody) -> Seq<char> {
    match doc.name {
        Some(n) => n@,
        None => spec_base_name(doc.file_path@),
    }
}

impl JsonBank {
    /// Holds when `r` is the outcome of building a create-document
    /// request from the given input views: each validation error in
    /// order, the missing-key error, or the one request to send.
    pub open spec fn create_document_request_outcome(
        &self,
        name: Seq<char>,
        project: Seq<char>,
        content: Seq<char>,
        folder: Option<Seq<char>>,
        r: &Result<HttpRequest, JsbError>,
    ) -> bool {
        let pairs = seq![("name"@, name), ("project"@, project), ("content"@, content)] + (
        match folder {
            Some(f) => seq![("folder"@, f)],
            None => Seq::empty(),
        });
        match r {
            Err(e) => if project.len() == 0 {
                err_is(e, "bad_request"@, "Project required"@)
            } else if name.len() == 0 {
                err_is(e, "bad_request"@, "Name required"@)
            } else if content.len() == 0 {
                err_is(e, "bad_request"@, "Content required"@)
            } else if !is_json_text(content) {
                err_is(e, "invalid_json_content"@, "Content is not a valid JSON string"@)
            } else {
                !self.spec_has_private_key() && err_is(
                    e,
                    "bad_request"@,
                    "Private key is not set"@,
                )
            },
            Ok(req) => {
                &&& project.len() > 0
                &&& name.len() > 0
                &&& content.len() > 0
                &&& is_json_text(content)
                &&& self.spec_has_private_key()
                &&& self.write_post_request_ok(req, seq!["project"@, project, "document"@], pairs)
            },
        }
    }

    /// Builds the request that fetches public document metadata:
    /// an unauthenticated GET of `{public}/meta/f/{id_or_path}`.
    pub fn get_document_meta_request(&self, id_or_path: &str) -> (req: HttpRequest)
        ensures
            self.public_get_request_ok(&req, seq!["meta/f"@, id_or_path@]),
    {
        let paths = vec!["meta/f", id_or_path];
        proof {
            assert(str_views(paths@) =~= seq!["meta/f"@, id_or_path@]);
        }
        self.public_get_request(paths)
    }

    /// Reads the reply of a metadata fetch: the decoded metadata on
    /// success, the decode error or the normalized error otherwise.
    pub fn get_document_meta(&self, resp: &RawResponse) -> (r: Result<DocumentMeta, JsbError>)
        ensures
            meta_response_ok(resp, &r),
    {
        if status_is_success(resp.status) {
            decode_document_meta(resp.body.as_str())
        } else {
            Err(normalize_error(resp))
        }
    }

    /// Builds the request that fetches public content as text:
    /// an unauthenticated GET of `{public}/f/{id_or_path}`.
    pub fn get_content_request(&self, id_or_path: &str) -> (req: HttpRequest)
        ensures
            self.public_get_request_ok(&req, seq!["f"@, id_or_path@]),
    {
        let paths = vec!["f", id_or_path];
        proof {
            assert(str_views(paths@) =~= seq!["f"@, id_or_path@]);
        }
        self.public_get_request(paths)
    }

    /// Reads the reply of a public content fetch as text: the body itself
    /// on success, the normalized error otherwise.
    pub fn get_content_as_string(&self, resp: &RawResponse) -> (r: Result<String, JsbError>)
        ensures
            text_response_ok(resp, &r),
    {
        process_response_as_string(resp)
    }

    /// Builds the request that proxies a public JSON file from GitHub:
    /// an unauthenticated GET of `{public}/gh/{path}`.
    pub fn get_github_content_request(&self, path: &str) -> (req: HttpRequest)
        ensures
            self.public_get_request_ok(&req, seq!["gh"@, path@]),
    {
        let paths = vec!["gh", path];
        proof {
            assert(str_views(paths@) =~= seq!["gh"@, path@]);
        }
        self.public_get_request(paths)
    }

    /// Reads the reply of a GitHub proxy fetch as text.
    pub fn get_github_content_as_string(&self, resp: &RawResponse) -> (r: Result<String, JsbError>)
        ensures
            text_response_ok(resp, &r),
    {
        process_response_as_string(resp)
    }

    /// Builds the request that fetches metadata of an own document:
    /// a GET of `{v1}/meta/file/{id_or_path}` carrying the public key;
    /// refused at once when no public key is configured.
    pub fn get_own_document_meta_request(&self, id_or_path: &str) -> (r: Result<
        HttpRequest,
        JsbError,
    >)
        ensures
            match r {
                Ok(req) => self.spec_has_public_key() && self.read_get_request_ok(
                    &req,
                    seq!["meta/file"@, id_or_path@],
                    Seq::empty(),
                ),
                Err(e) => !self.spec_has_public_key() && err_is(
                    &e,
                    "bad_request"@,
                    "Public key is not set"@,
                ),
            },
    {
        let paths = vec!["meta/file", id_or_path];
        proof {
            assert(str_views(paths@) =~= seq!["meta/file"@, id_or_path@]);
        }
        self.read_get_request(paths, None)
    }

    /// Reads the reply of an own-metadata fetch.
    pub fn get_own_document_meta(&self, resp: &RawResponse) -> (r: Result<DocumentMeta, JsbError>)
        ensures
            meta_response_ok(resp, &r),
    {
        if status_is_success(resp.status) {
            decode_document_meta(resp.body.as_str())
        } else {
            Err(normalize_error(resp))
        }
    }

    /// Builds the request that fetches own content as text: a GET of
    /// `{v1}/file/{id_or_path}` carrying the public key.
    pub fn get_own_content_request(&self, id_or_path: &str) -> (r: Result<HttpRequest, JsbError>)
        ensures
            match r {
                Ok(req) => self.spec_has_public_key() && self.read_get_request_ok(
                    &req,
                    seq!["file"@, id_or_path@],
                    Seq::empty(),
                ),
                Err(e) => !self.spec_has_public_key() && err_is(
                    &e,
                    "bad_request"@,
                    "Public key is not set"@,
                ),
            },
    {
        let paths = vec!["file", id_or_path];
        proof {
            assert(str_views(paths@) =~= seq!["file"@, id_or_path@]);
        }
        self.read_get_request(paths, None)
    }

    /// Reads the reply of an own content fetch as text.
    pub fn get_own_content_as_string(&self, resp: &RawResponse) -> (r: Result<String, JsbError>)
        ensures
            text_response_ok(resp, &r),
    {
        process_response_as_string(resp)
    }

    /// Reads the reply of an own-metadata fetch as an existence check:
    /// any decoded metadata means the document exists; a `notFound` error
    /// means it does not; every other error propagates unchanged.
    pub fn has_own_document(&self, resp: &RawResponse) -> (r: Result<bool, JsbError>)
        ensures
            match r {
                Ok(b) => if b {
                    spec_status_success(resp.status) && spec_document_meta(resp.body@) is Some
                } else {
                    !spec_status_success(resp.status) && spec_error_code(
                        resp.body@,
                        resp.status_text@,
                    ) == "notFound"@
                },
                Err(e) => if spec_status_success(resp.status) {
                    spec_document_meta(resp.body@) is None && err_is(
                        &e,
                        "500"@,
                        spec_decode_failure_message(resp.body@),
                    )
                } else {
                    spec_error_code(resp.body@, resp.status_text@) != "notFound"@
                        && spec_is_normalized_error(&e, resp)
                },
            },
    {
        proof {
            reveal_strlit("500");
            reveal_strlit("notFound");
            assert("500"@.len() == 3);
            assert("notFound"@.len() == 8);
        }
        match self.get_own_document_meta(resp) {
            Ok(_) => Ok(true),
            Err(e) => {
                if string_eq_str(&e.code, "notFound") {
                    Ok(false)
                } else {
                    Err(e)
                }
            },
        }
    }

    /// Builds the request that creates a document: validates, in order,
    /// that the project, the name and the content are given and that the
    /// content is valid JSON text, then builds a POST of
    /// `{v1}/project/{project}/document` carrying the private key and the
    /// JSON body. Every validation failure, and a missing private key,
    /// returns its error before anything could be sent.
    pub fn create_document_request(&self, content: CreateDocumentBody) -> (r: Result<
        HttpRequest,
        JsbError,
    >)
        ensures
            self.create_document_request_outcome(
                content.name@,
                content.project@,
                content.content@,
                opt_view(&content.folder),
                &r,
            ),
    {
        if content.project.as_str().is_empty() {
            return Err(err_bad_request("Project required"));
        }
        if content.name.as_str().is_empty() {
            return Err(err_bad_request("Name required"));
        }
        if content.content.as_str().is_empty() {
            return Err(err_bad_request("Content required"));
        }
        if !is_valid_json(content.content.as_str()) {
            return Err(err_invalid_json());
        }
        let ghost expected_pairs = seq![
            ("name"@, content.name@),
            ("project"@, content.project@),
            ("content"@, content.content@),
        ] + (match opt_view(&content.folder) {
            Some(f) => seq![("folder"@, f)],
            None => Seq::empty(),
        });
        let project = content.project.clone();
        let mut pairs: Vec<(String, String)> = Vec::new();
        pairs.push(("name".to_owned(), content.name));
        pairs.push(("project".to_owned(), content.project));
        pairs.push(("content".to_owned(), content.content));
        if let Some(f) = content.folder {
            pairs.push(("folder".to_owned(), f));
        }
        proof {
            assert(pair_views(pairs@) =~= expected_pairs);
        }
        let paths = vec!["project", project.as_str(), "document"];
        proof {
            assert(str_views(paths@) =~= seq!["project"@, project@, "document"@]);
        }
        self.write_post_request(paths, Some(pairs))
    }

    /// Reads the reply of a document creation: the fresh document on
    /// success, with `exists` false.
    pub fn create_document(&self, resp: &RawResponse) -> (r: Result<NewDocument, JsbError>)
        ensures
            new_document_response_ok(resp, &r),
    {
        if status_is_success(resp.status) {
            decode_new_document(resp.body.as_str())
        } else {
            Err(normalize_error(resp))
        }
    }

    /// Decides the create-if-not-exists flow from the create reply: a
    /// decoded document is done (`exists` false); a `name.exists` error
    /// turns into the fetch of the existing document's metadata at the
    /// deterministic `project/folder?/name` path; every other error is
    /// done as it stands.
    pub fn create_document_if_not_exists(
        &self,
        content: &CreateDocumentBody,
        resp: &RawResponse,
    ) -> (r: CreateDocumentStep)
        ensures
            match r {
                CreateDocumentStep::Done(Ok(d)) => spec_status_success(resp.status)
                    && spec_new_document(resp.body@) == Some(d@),
                CreateDocumentStep::Done(Err(e)) => if spec_status_success(resp.status) {
                    spec_new_document(resp.body@) is None && err_is(
                        &e,
                        "500"@,
                        spec_decode_failure_message(resp.body@),
                    )
                } else if spec_error_code(resp.body@, resp.status_text@) == "name.exists"@ {
                    !self.spec_has_public_key() && err_is(
                        &e,
                        "bad_request"@,
                        "Public key is not set"@,
                    )
                } else {
                    spec_is_normalized_error(&e, resp)
                },
                CreateDocumentStep::FetchExisting(req) => {
                    &&& !spec_status_success(resp.status)
                    &&& spec_error_code(resp.body@, resp.status_text@) == "name.exists"@
                    &&& self.spec_has_public_key()
                    &&& self.read_get_request_ok(
                        &req,
                        seq![
                            "meta/file"@,
                            spec_full_path(
                                content.project@,
                                opt_view(&content.folder),
                                content.name@,
                            ),
                        ],
                        Seq::empty(),
                    )
                },
            },
    {
        proof {
            reveal_strlit("500");
            reveal_strlit("name.exists");
            assert("500"@.len() == 3);
            assert("name.exists"@.len() == 11);
        }
        match self.create_document(resp) {
            Ok(d) => CreateDocumentStep::Done(Ok(d)),
            Err(e) => {
                if string_eq_str(&e.code, "name.exists") {
                    let doc_path = make_document_path(content);
                    match self.get_own_document_meta_request(doc_path.as_str()) {
                        Ok(req) => CreateDocumentStep::FetchExisting(req),
                        Err(e2) => CreateDocumentStep::Done(Err(e2)),
                    }
                } else {
                    CreateDocumentStep::Done(Err(e))
                }
            },
        }
    }

    /// Finishes the create-if-not-exists flow from the fallback fetch's
    /// reply: the fetched metadata becomes the result, under the
    /// original input's name, with `exists` true.
    pub fn create_document_if_not_exists_finish(&self, name: &str, resp: &RawResponse) -> (r:
        Result<NewDocument, JsbError>)
        ensures
            match r {
                Ok(d) => spec_status_success(resp.status) && match spec_document_meta(resp.body@) {
                    Some(m) => d@ == (NewDocumentView {
                        id: m.id,
                        name: name@,
                        path: m.path,
                        project: m.project,
                        created_at: m.created_at,
                        exists: true,
                    }),
                    None => false,
                },
                Err(e) => if spec_status_success(resp.status) {
                    spec_document_meta(resp.body@) is None && err_is(
                        &e,
                        "500"@,
                        spec_decode_failure_message(resp.body@),
                    )
                } else {
                    spec_is_normalized_error(&e, resp)
                },
            },
    {
        match self.get_own_document_meta(resp) {
            Ok(m) => Ok(
                NewDocument {
                    id: m.id,
                    name: name.to_owned(),
                    path: m.path,
                    project: m.project,
                    created_at: m.created_at,
                    exists: true,
                },
            ),
            Err(e) => Err(e),
        }
    }

    /// Builds the request that updates an own document: validates that
    /// the content is valid JSON text, then builds a POST of
    /// `{v1}/file/{id_or_path}` carrying the private key and the body
    /// `{"content": ...}`.
    pub fn update_own_document_request(&self, id_or_path: &str, content: String) -> (r: Result<
        HttpRequest,
        JsbError,
    >)
        ensures
            match r {
                Err(e) => if !is_json_text(content@) {
                    err_is(&e, "invalid_json_content"@, "Content is not a valid JSON string"@)
                } else {
                    !self.spec_has_private_key() && err_is(
                        &e,
                        "bad_request"@,
                        "Private key is not set"@,
                    )
                },
                Ok(req) => is_json_text(content@) && self.spec_has_private_key()
                    && self.write_post_request_ok(
                    &req,
                    seq!["file"@, id_or_path@],
                    seq![("content"@, content@)],
                ),
            },
    {
        if !is_valid_json(content.as_str()) {
            return Err(err_invalid_json());
        }
        let ghost content_v = content@;
        let mut pairs: Vec<(String, String)> = Vec::new();
        pairs.push(("content".to_owned(), content));
        proof {
            assert(pair_views(pairs@) =~= seq![("content"@, content_v)]);
        }
        let paths = vec!["file", id_or_path];
        proof {
            assert(str_views(paths@) =~= seq!["file"@, id_or_path@]);
        }
        self.write_post_request(paths, Some(pairs))
    }

    /// Reads the reply of a document update: the `changed` flag on
    /// success, false when the server does not report one.
    pub fn update_own_document(&self, resp: &RawResponse) -> (r: Result<
        crate::structs::UpdatedDocument,
        JsbError,
    >)
        ensures
            match r {
                Ok(u) => spec_status_success(resp.status) && crate::response::spec_changed_flag(
                    resp.body@,
                ) == Some(u.changed),
                Err(e) => if spec_status_success(resp.status) {
                    crate::response::spec_changed_flag(resp.body@) is None && err_is(
                        &e,
                        "500"@,
                        spec_decode_failure_message(resp.body@),
                    )
                } else {
                    spec_is_normalized_error(&e, resp)
                },
            },
    {
        if status_is_success(resp.status) {
            match crate::response::decode_changed_flag(resp.body.as_str()) {
                Ok(changed) => Ok(crate::structs::UpdatedDocument { changed }),
                Err(e) => Err(e),
            }
        } else {
            Err(normalize_error(resp))
        }
    }

    /// Holds when `r` is the outcome of building an upload request: the
    /// project must be given; the file must have been found and read; its
    /// text must be valid JSON; what remains is a document creation under
    /// the given name, or the file's base name when none is given.
    pub open spec fn upload_request_outcome(
        &self,
        doc: &UploadDocumentBody,
        file: &FileReadResult,
        r: &Result<HttpRequest, JsbError>,
    ) -> bool {
        if doc.project@.len() == 0 {
            match r {
                Err(e) => err_is(e, "bad_request"@, "Project required"@),
                Ok(_) => false,
            }
        } else {
            match file {
                FileReadResult::NotFound => match r {
                    Err(e) => err_is(e, "file_not_found"@, "File does not exist"@),
                    Ok(_) => false,
                },
                FileReadResult::Unreadable(m) => match r {
                    Err(e) => err_is(e, "invalid_file"@, m@),
                    Ok(_) => false,
                },
                FileReadResult::Text(c) => if !is_json_text(c@) {
                    match r {
                        Err(e) => err_is(
                            e,
                            "invalid_json_content"@,
                            "Content is not a valid JSON string"@,
                        ),
                        Ok(_) => false,
                    }
                } else {
                    self.create_document_request_outcome(
                        upload_name_view(doc),
                        doc.project@,
                        c@,
                        opt_view(&doc.folder),
                        r,
                    )
                },
            }
        }
    }

    /// Builds the request that uploads a document from a file: the
    /// file-system collaborator's outcome for the file at `doc.file_path`
    /// is handed in, and what it carries is validated and turned into a
    /// document creation.
    pub fn upload_document_request(&self, doc: UploadDocumentBody, file: &FileReadResult) -> (r:
        Result<HttpRequest, JsbError>)
        ensures
            self.upload_request_outcome(&doc, file, &r),
    {
        if doc.project.as_str().is_empty() {
            return Err(err_bad_request("Project required"));
        }
        match file {
            FileReadResult::NotFound => Err(
                JsbError {
                    code: "file_not_found".to_owned(),
                    message: "File does not exist".to_owned(),
                },
            ),
            FileReadResult::Unreadable(m) => Err(
                JsbError { code: "invalid_file".to_owned(), message: m.clone() },
            ),
            FileReadResult::Text(c) => {
                if !is_valid_json(c.as_str()) {
                    return Err(err_invalid_json());
                }
                let name = match doc.name {
                    Some(n) => n,
                    None => base_name(doc.file_path.as_str()),
                };
                self.create_document_request(
                    CreateDocumentBody {
                        name,
                        project: doc.project,
                        content: c.clone(),
                        folder: doc.folder,
                    },
                )
            },
        }
    }

    /// Builds the request that deletes a document: a DELETE of
    /// `{v1}/file/{id_or_path}` carrying the private key.
    pub fn delete_document_request(&self, id_or_path: &str) -> (r: Result<HttpRequest, JsbError>)
        ensures
            match r {
                Ok(req) => self.spec_has_private_key() && self.delete_request_ok(
                    &req,
                    seq!["file"@, id_or_path@],
                ),
                Err(e) => !self.spec_has_private_key() && err_is(
                    &e,
                    "bad_request"@,
                    "Private key is not set"@,
                ),
            },
    {
        let paths = vec!["file", id_or_path];
        proof {
            assert(str_views(paths@) =~= seq!["file"@, id_or_path@]);
        }
        self.delete_request(paths)
    }

    /// Reads the reply of a document deletion: the `deleted` flag on
    /// success; a `notFound` error counts as "already absent" and yields
    /// `deleted` false rather than an error; every other error propagates.
    pub fn delete_document(&self, resp: &RawResponse) -> (r: Result<DeletedDocument, JsbError>)
        ensures
            match r {
                Ok(d) => if spec_status_success(resp.status) {
                    spec_deleted_flag(resp.body@) == Some(d.deleted)
                } else {
                    spec_error_code(resp.body@, resp.status_text@) == "notFound"@ && d.deleted
                        == false
                },
                Err(e) => if spec_status_success(resp.status) {
                    spec_deleted_flag(resp.body@) is None && err_is(
                        &e,
                        "500"@,
                        spec_decode_failure_message(resp.body@),
                    )
                } else {
                    spec_error_code(resp.body@, resp.status_text@) != "notFound"@
                        && spec_is_normalized_error(&e, resp)
                },
            },
    {
        if status_is_success(resp.status) {
            match decode_deleted_flag(resp.body.as_str()) {
                Ok(deleted) => Ok(DeletedDocument { deleted }),
                Err(e) => Err(e),
            }
        } else {
            let e = normalize_error(resp);
            if string_eq_str(&e.code, "notFound") {
                Ok(DeletedDocument { deleted: false })
            } else {
                Err(e)
            }
        }
    }
}

} // verus!
