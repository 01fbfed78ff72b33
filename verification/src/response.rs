//! The response normalizer: reads one raw HTTP reply either as a decoded
//! success value or as the uniform error shape, inferring the error from
//! the conventional `{"error": {"code", "message"}}` envelope when the
//! server follows it.

use vstd::prelude::*;

use crate::error::{err_is, JsbError};
use crate::json::{
    json_bool_field, json_get_bool, json_get_i64_2, json_get_str, json_get_str2,
    json_get_str_list2, json_get_u64_2, json_i64_field2, json_object_err, json_object_parse_err,
    json_str_field, json_str_field2, json_str_list_field2, json_u64_field2,
};
use crate::request::{spec_status_success, status_is_success, RawResponse};
use crate::structs::{
    AuthenticatedData, AuthenticatedDataView, AuthenticatedKey, AuthenticatedKeyView, ContentSize,
    ContentSizeView, DocumentMeta, DocumentMetaView, Folder, FolderStats, FolderView, NewDocument,
    NewDocumentView,
};

verus! {

/// The error code a failure reply normalizes to: the code of the error
/// envelope when the body is a JSON object carrying one, otherwise the
/// reply's status text.
pub open spec fn spec_error_code(body: Seq<char>, status_text: Seq<char>) -> Seq<char> {
    match json_object_err(body) {
        Some(_) => status_text,
        None => match (json_str_field2(body, "error"@, "code"@), json_str_field2(
            body,
            "error"@,
            "message"@,
        )) {
            (Some(c), Some(_)) => c,
            _ => status_text,
        },
    }
}

/// The message a failure reply normalizes to: the envelope's message when
/// one is carried, the parser's message when the body is no JSON object,
/// and `Unknown error` otherwise.
pub open spec fn spec_error_message(body: Seq<char>, status_text: Seq<char>) -> Seq<char> {
    match json_object_err(body) {
        Some(m) => m,
        None => match (json_str_field2(body, "error"@, "code"@), json_str_field2(
            body,
            "error"@,
            "message"@,
        )) {
            (Some(_), Some(m)) => m,
            _ => "Unknown error"@,
        },
    }
}

/// Holds when `e` is exactly the error that `resp`, a failure reply,
/// normalizes to.
pub open spec fn spec_is_normalized_error(e: &JsbError, resp: &RawResponse) -> bool {
    err_is(e, spec_error_code(resp.body@, resp.status_text@), spec_error_message(
        resp.body@,
        resp.status_text@,
    ))
}

/// The message of the error returned when a success reply's body cannot
/// be decoded: the parser's message when the body is no JSON object, and
/// a fixed one when a required field is missing or ill-typed.
pub open spec fn spec_decode_failure_message(body: Seq<char>) -> Seq<char> {
    match json_object_err(body) {
        Some(m) => m,
        None => "Invalid response body"@,
    }
}

/// The document metadata a body decodes to: present when the body is a
/// JSON object whose `id`, `project`, `path`, `updatedAt` and `createdAt`
/// fields are strings. The content size is kept when both its fields are
/// present and well-typed.
pub open spec fn spec_document_meta(body: Seq<char>) -> Option<DocumentMetaView> {
    if json_object_err(body) is Some {
        None
    } else {
        match (json_str_field(body, "id"@), json_str_field(body, "project"@), json_str_field(
            body,
            "path"@,
        ), json_str_field(body, "updatedAt"@), json_str_field(body, "createdAt"@)) {
            (Some(id), Some(project), Some(path), Some(updated_at), Some(created_at)) => Some(
                DocumentMetaView {
                    id,
                    project,
                    path,
                    content_size: match (json_u64_field2(body, "contentSize"@, "number"@),
                    json_str_field2(body, "contentSize"@, "string"@)) {
                        (Some(number), Some(string)) => Some(ContentSizeView { number, string }),
                        _ => None,
                    },
                    updated_at,
                    created_at,
                },
            ),
            _ => None,
        }
    }
}

/// The fresh document a body decodes to: present when the body is a JSON
/// object whose `id`, `name`, `path`, `project` and `createdAt` fields
/// are strings. A decoded document was just created, so `exists` is false.
pub open spec fn spec_new_document(body: Seq<char>) -> Option<NewDocumentView> {
    if json_object_err(body) is Some {
        None
    } else {
        match (json_str_field(body, "id"@), json_str_field(body, "name"@), json_str_field(
            body,
            "path"@,
        ), json_str_field(body, "project"@), json_str_field(body, "createdAt"@)) {
            (Some(id), Some(name), Some(path), Some(project), Some(created_at)) => Some(
                NewDocumentView { id, name, path, project, created_at, exists: false },
            ),
            _ => None,
        }
    }
}

/// The folder a body decodes to: present when the body is a JSON object
/// whose `id`, `name`, `path`, `project`, `createdAt` and `updatedAt`
/// fields are strings. The stats are kept when both counts are present
/// and fit the stats type.
pub open spec fn spec_folder(body: Seq<char>) -> Option<FolderView> {
    if json_object_err(body) is Some {
        None
    } else {
        match (json_str_field(body, "id"@), json_str_field(body, "name"@), json_str_field(
            body,
            "path"@,
        ), json_str_field(body, "project"@), json_str_field(body, "createdAt"@), json_str_field(
            body,
            "updatedAt"@,
        )) {
            (Some(id), Some(name), Some(path), Some(project), Some(created_at), Some(
                updated_at,
            )) => Some(
                FolderView {
                    id,
                    name,
                    path,
                    project,
                    created_at,
                    updated_at,
                    stats: match (json_i64_field2(body, "stats"@, "documents"@), json_i64_field2(
                        body,
                        "stats"@,
                        "folders"@,
                    )) {
                        (Some(documents), Some(folders)) => if i32::MIN <= documents <= i32::MAX
                            && i32::MIN <= folders <= i32::MAX {
                            Some(FolderStats { documents: documents as i32, folders: folders as i32 })
                        } else {
                            None
                        },
                        _ => None,
                    },
                },
            ),
            _ => None,
        }
    }
}

/// The `changed` flag a body decodes to: present when the body is a JSON
/// object; false when the field is absent or not a boolean.
pub open spec fn spec_changed_flag(body: Seq<char>) -> Option<bool> {
    if json_object_err(body) is Some {
        None
    } else {
        match json_bool_field(body, "changed"@) {
            Some(b) => Some(b),
            None => Some(false),
        }
    }
}

/// The `deleted` flag a body decodes to: present when the body is a JSON
/// object; false when the field is absent or not a boolean.
pub open spec fn spec_deleted_flag(body: Seq<char>) -> Option<bool> {
    if json_object_err(body) is Some {
        None
    } else {
        match json_bool_field(body, "deleted"@) {
            Some(b) => Some(b),
            None => Some(false),
        }
    }
}

/// The authentication data a body decodes to: present when the body is a
/// JSON object whose `authenticated` field is a boolean, whose `username`
/// field is a string, and whose `apiKey` field carries a string `title`
/// and a list of string `projects`.
pub open spec fn spec_authenticated(body: Seq<char>) -> Option<AuthenticatedDataView> {
    if json_object_err(body) is Some {
        None
    } else {
        match (json_bool_field(body, "authenticated"@), json_str_field(body, "username"@),
        json_str_field2(body, "apiKey"@, "title"@), json_str_list_field2(
            body,
            "apiKey"@,
            "projects"@,
        )) {
            (Some(authenticated), Some(username), Some(title), Some(projects)) => Some(
                AuthenticatedDataView {
                    authenticated,
                    username,
                    api_key: AuthenticatedKeyView { title, projects },
                },
            ),
            _ => None,
        }
    }
}

/// Holds when `r` reads `resp` as a raw text reply: the body itself on
/// success, the normalized error otherwise.
pub open spec fn text_response_ok(resp: &RawResponse, r: &Result<String, JsbError>) -> bool {
    match r {
        Ok(s) => spec_status_success(resp.status) && s@ == resp.body@,
        Err(e) => !spec_status_success(resp.status) && spec_is_normalized_error(e, resp),
    }
}

/// Holds when `r` reads `resp` as a document-metadata reply: the decoded
/// metadata on success, the decode error when a success body does not
/// decode, the normalized error otherwise.
pub open spec fn meta_response_ok(resp: &RawResponse, r: &Result<DocumentMeta, JsbError>) -> bool {
    match r {
        Ok(m) => spec_status_success(resp.status) && spec_document_meta(resp.body@) == Some(m@),
        Err(e) => if spec_status_success(resp.status) {
            spec_document_meta(resp.body@) is None && err_is(
                e,
                "500"@,
                spec_decode_failure_message(resp.body@),
            )
        } else {
            spec_is_normalized_error(e, resp)
        },
    }
}

/// Holds when `r` reads `resp` as a fresh-document reply.
pub open spec fn new_document_response_ok(
    resp: &RawResponse,
    r: &Result<NewDocument, JsbError>,
) -> bool {
    match r {
        Ok(d) => spec_status_success(resp.status) && spec_new_document(resp.body@) == Some(d@),
        Err(e) => if spec_status_success(resp.status) {
            spec_new_document(resp.body@) is None && err_is(
                e,
                "500"@,
                spec_decode_failure_message(resp.body@),
            )
        } else {
            spec_is_normalized_error(e, resp)
        },
    }
}

/// Holds when `r` reads `resp` as a folder reply.
pub open spec fn folder_response_ok(resp: &RawResponse, r: &Result<Folder, JsbError>) -> bool {
    match r {
        Ok(f) => spec_status_success(resp.status) && spec_folder(resp.body@) == Some(f@),
        Err(e) => if spec_status_success(resp.status) {
            spec_folder(resp.body@) is None && err_is(
                e,
                "500"@,
                spec_decode_failure_message(resp.body@),
            )
        } else {
            spec_is_normalized_error(e, resp)
        },
    }
}

/// Reads a raw reply as text: the body on success, the normalized error
/// otherwise.
pub fn process_response_as_string(resp: &RawResponse) -> (r: Result<String, JsbError>)
    ensures
        text_response_ok(resp, &r),
{
    if status_is_success(resp.status) {
        Ok(resp.body.clone())
    } else {
        Err(normalize_error(resp))
    }
}

// The fixed error for a success reply whose body misses a required field.
fn err_invalid_response_body() -> (e: JsbError)
    ensures
        err_is(&e, "500"@, "Invalid response body"@),
{
    JsbError { code: "500".to_owned(), message: "Invalid response body".to_owned() }
}

/// Normalizes a failure reply into the uniform error shape, extracting
/// the server's error code and message verbatim when the body carries the
/// conventional envelope.
pub fn normalize_error(resp: &RawResponse) -> (e: JsbError)
    ensures
        spec_is_normalized_error(&e, resp),
{
    match json_object_parse_err(resp.body.as_str()) {
        Some(message) => JsbError { code: resp.status_text.clone(), message },
        None => {
            let code = json_get_str2(resp.body.as_str(), "error", "code");
            let message = json_get_str2(resp.body.as_str(), "error", "message");
            match (code, message) {
                (Some(code), Some(message)) => JsbError { code, message },
                _ => JsbError {
                    code: resp.status_text.clone(),
                    message: "Unknown error".to_owned(),
                },
            }
        },
    }
}

/// Decodes a success body into document metadata, or reports why it does
/// not decode.
pub fn decode_document_meta(body: &str) -> (r: Result<DocumentMeta, JsbError>)
    ensures
        match r {
            Ok(m) => spec_document_meta(body@) == Some(m@),
            Err(e) => spec_document_meta(body@) is None && err_is(
                &e,
                "500"@,
                spec_decode_failure_message(body@),
            ),
        },
{
    if let Some(message) = json_object_parse_err(body) {
        return Err(JsbError { code: "500".to_owned(), message });
    }
    let id = json_get_str(body, "id");
    let project = json_get_str(body, "project");
    let path = json_get_str(body, "path");
    let updated_at = json_get_str(body, "updatedAt");
    let created_at = json_get_str(body, "createdAt");
    match (id, project, path, updated_at, created_at) {
        (Some(id), Some(project), Some(path), Some(updated_at), Some(created_at)) => {
            let number = json_get_u64_2(body, "contentSize", "number");
            let string = json_get_str2(body, "contentSize", "string");
            let content_size = match (number, string) {
                (Some(number), Some(string)) => Some(ContentSize { number, string }),
                _ => None,
            };
            Ok(DocumentMeta { id, project, path, content_size, updated_at, created_at })
        },
        _ => Err(err_invalid_response_body()),
    }
}

/// Decodes a success body into a fresh document (`exists` false), or
/// reports why it does not decode.
pub fn decode_new_document(body: &str) -> (r: Result<NewDocument, JsbError>)
    ensures
        match r {
            Ok(d) => spec_new_document(body@) == Some(d@),
            Err(e) => spec_new_document(body@) is None && err_is(
                &e,
                "500"@,
                spec_decode_failure_message(body@),
            ),
        },
{
    if let Some(message) = json_object_parse_err(body) {
        return Err(JsbError { code: "500".to_owned(), message });
    }
    let id = json_get_str(body, "id");
    let name = json_get_str(body, "name");
    let path = json_get_str(body, "path");
    let project = json_get_str(body, "project");
    let created_at = json_get_str(body, "createdAt");
    match (id, name, path, project, created_at) {
        (Some(id), Some(name), Some(path), Some(project), Some(created_at)) => Ok(
            NewDocument { id, name, path, project, created_at, exists: false },
        ),
        _ => Err(err_invalid_response_body()),
    }
}

/// Decodes a success body into a folder, or reports why it does not decode.
pub fn decode_folder(body: &str) -> (r: Result<Folder, JsbError>)
    ensures
        match r {
            Ok(f) => spec_folder(body@) == Some(f@),
            Err(e) => spec_folder(body@) is None && err_is(
                &e,
                "500"@,
                spec_decode_failure_message(body@),
            ),
        },
{
    if let Some(message) = json_object_parse_err(body) {
        return Err(JsbError { code: "500".to_owned(), message });
    }
    let id = json_get_str(body, "id");
    let name = json_get_str(body, "name");
    let path = json_get_str(body, "path");
    let project = json_get_str(body, "project");
    let created_at = json_get_str(body, "createdAt");
    let updated_at = json_get_str(body, "updatedAt");
    match (id, name, path, project, created_at, updated_at) {
        (Some(id), Some(name), Some(path), Some(project), Some(created_at), Some(updated_at)) => {
            let documents = json_get_i64_2(body, "stats", "documents");
            let folders = json_get_i64_2(body, "stats", "folders");
            let stats = match (documents, folders) {
                (Some(documents), Some(folders)) => {
                    if i32::MIN as i64 <= documents && documents <= i32::MAX as i64
                        && i32::MIN as i64 <= folders && folders <= i32::MAX as i64 {
                        Some(
                            FolderStats {
                                documents: documents as i32,
                                folders: folders as i32,
                            },
                        )
                    } else {
                        None
                    }
                },
                _ => None,
            };
            Ok(Folder { id, name, path, project, created_at, updated_at, stats })
        },
        _ => Err(err_invalid_response_body()),
    }
}

/// Decodes a success body into the `changed` flag, or reports why it does
/// not decode.
pub fn decode_changed_flag(body: &str) -> (r: Result<bool, JsbError>)
    ensures
        match r {
            Ok(b) => spec_changed_flag(body@) == Some(b),
            Err(e) => spec_changed_flag(body@) is None && err_is(
                &e,
                "500"@,
                spec_decode_failure_message(body@),
            ),
        },
{
    if let Some(message) = json_object_parse_err(body) {
        return Err(JsbError { code: "500".to_owned(), message });
    }
    match json_get_bool(body, "changed") {
        Some(b) => Ok(b),
        None => Ok(false),
    }
}

/// Decodes a success body into the `deleted` flag, or reports why it does
/// not decode.
pub fn decode_deleted_flag(body: &str) -> (r: Result<bool, JsbError>)
    ensures
        match r {
            Ok(b) => spec_deleted_flag(body@) == Some(b),
            Err(e) => spec_deleted_flag(body@) is None && err_is(
                &e,
                "500"@,
                spec_decode_failure_message(body@),
            ),
        },
{
    if let Some(message) = json_object_parse_err(body) {
        return Err(JsbError { code: "500".to_owned(), message });
    }
    match json_get_bool(body, "deleted") {
        Some(b) => Ok(b),
        None => Ok(false),
    }
}

/// Decodes a success body into authentication data, or reports why it
/// does not decode.
pub fn decode_authenticated(body: &str) -> (r: Result<AuthenticatedData, JsbError>)
    ensures
        match r {
            Ok(d) => spec_authenticated(body@) == Some(d@),
            Err(e) => spec_authenticated(body@) is None && err_is(
                &e,
                "500"@,
                spec_decode_failure_message(body@),
            ),
        },
{
    if let Some(message) = json_object_parse_err(body) {
        return Err(JsbError { code: "500".to_owned(), message });
    }
    let authenticated = json_get_bool(body, "authenticated");
    let username = json_get_str(body, "username");
    let title = json_get_str2(body, "apiKey", "title");
    let projects = json_get_str_list2(body, "apiKey", "projects");
    match (authenticated, username, title, projects) {
        (Some(authenticated), Some(username), Some(title), Some(projects)) => {
            proof {
                assert(projects.deep_view() =~= projects@.map_values(|p: String| p@));
            }
            Ok(
                AuthenticatedData {
                    authenticated,
                    username,
                    api_key: AuthenticatedKey { title, projects },
                },
            )
        },
        _ => Err(err_invalid_response_body()),
    }
}

} // verus!
