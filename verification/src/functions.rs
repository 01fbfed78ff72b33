//! Pure path construction: the deterministic `project/folder?/name` path
//! shared by the document and folder creation flows, and the base name of
//! a file path, used to default an uploaded document's name.

use vstd::prelude::*;
use vstd::string::{StrSliceExecFns, StringExecFns};

use crate::structs::{CreateDocumentBody, CreateFolderBody};

verus! {

/// The view of an optional string.
pub open spec fn opt_view(o: &Option<String>) -> Option<Seq<char>> {
    match o {
        Some(s) => Some(s@),
        None => None,
    }
}

/// The full path of a resource: the project, then the folder (when there
/// is one), then the name, separated by slashes.
pub open spec fn spec_full_path(project: Seq<char>, folder: Option<Seq<char>>, name: Seq<char>) -> Seq<char> {
    project + "/"@ + (match folder {
        Some(f) => f + "/"@,
        None => Seq::empty(),
    }) + name
}

// Builds `project/folder?/name`.
fn build_full_path(project: &String, folder: &Option<String>, name: &String) -> (r: String)
    ensures
        r@ == spec_full_path(project@, opt_view(folder), name@),
{
    let mut out = project.clone();
    out.append("/");
    if let Some(f) = folder {
        out.append(f.as_str());
        out.append("/");
    }
    out.append(name.as_str());
    proof {
        assert(out@ =~= spec_full_path(project@, opt_view(folder), name@));
    }
    out
}

/// Generate a document full path.
/// If the document has a folder, the folder stands between the project
/// and the document name.
pub fn make_document_path(document: &CreateDocumentBody) -> (r: String)
    ensures
        r@ == spec_full_path(document.project@, opt_view(&document.folder), document.name@),
{
    build_full_path(&document.project, &document.folder, &document.name)
}

/// Generate a folder full path.
/// If the folder has a parent folder, the parent stands between the
/// project and the folder name.
pub fn make_folder_path(folder: &CreateFolderBody) -> (r: String)
    ensures
        r@ == spec_full_path(folder.project@, opt_view(&folder.folder), folder.name@),
{
    build_full_path(&folder.project, &folder.folder, &folder.name)
}

/// The characters of `path` after its last slash; the whole of `path`
/// when it holds no slash.
pub open spec fn spec_base_name(path: Seq<char>) -> Seq<char>
    decreases path.len(),
{
    if path.len() == 0 {
        Seq::empty()
    } else if path.last() == '/' {
        Seq::empty()
    } else {
        spec_base_name(path.drop_last()) + seq![path.last()]
    }
}

// When no character of `path` is a slash, the base name is the whole path.
proof fn lemma_base_name_no_slash(path: Seq<char>)
    requires
        forall|j: int| 0 <= j < path.len() ==> path[j] != '/',
    ensures
        spec_base_name(path) == path,
    decreases path.len(),
{
    if path.len() == 0 {
        assert(spec_base_name(path) =~= path);
    } else {
        lemma_base_name_no_slash(path.drop_last());
        assert(spec_base_name(path) =~= path);
    }
}

// When the last slash of `path` stands at `k`, the base name is the part
// after it.
proof fn lemma_base_name_after_slash(path: Seq<char>, k: int)
    requires
        0 <= k < path.len(),
        path[k] == '/',
        forall|j: int| k < j < path.len() ==> path[j] != '/',
    ensures
        spec_base_name(path) == path.subrange(k + 1, path.len() as int),
    decreases path.len(),
{
    if k == path.len() - 1 {
        assert(spec_base_name(path) =~= path.subrange(k + 1, path.len() as int));
    } else {
        lemma_base_name_after_slash(path.drop_last(), k);
        assert(path.drop_last().subrange(k + 1, path.len() - 1) =~= path.subrange(
            k + 1,
            path.len() - 1,
        ));
        assert(spec_base_name(path) =~= path.subrange(k + 1, path.len() as int));
    }
}

/// Returns the base name of a file path: what stands after the last
/// slash, or the whole path when it holds none.
pub fn base_name(path: &str) -> (r: String)
    ensures
        r@ == spec_base_name(path@),
{
    let len = path.unicode_len();
    let mut last_slash: Option<usize> = None;
    let mut j: usize = 0;
    while j < len
        invariant
            j <= len,
            len == path@.len(),
            match last_slash {
                Some(k) => k < j && path@[k as int] == '/' && (forall|m: int|
                    k < m < j ==> path@[m] != '/'),
                None => forall|m: int| 0 <= m < j ==> path@[m] != '/',
            },
        decreases len - j,
    {
        if path.get_char(j) == '/' {
            last_slash = Some(j);
        }
        j = j + 1;
    }
    match last_slash {
        Some(k) => {
            let tail = path.substring_char(k + 1, len);
            proof {
                lemma_base_name_after_slash(path@, k as int);
            }
            tail.to_owned()
        },
        None => {
            proof {
                lemma_base_name_no_slash(path@);
            }
            path.to_owned()
        },
    }
}

} // verus!
