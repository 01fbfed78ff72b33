use vstd::prelude::*;

verus! {

/// About the current authenticated api key.
#[derive(Debug, Clone)]
pub struct AuthenticatedKey {
    /// The title of the api key.
    pub title: String,
    /// List of projects the api key has access to.
    pub projects: Vec<String>,
}

/// The characters of an authenticated key, field by field.
pub struct AuthenticatedKeyView {
    pub title: Seq<char>,
    pub projects: Seq<Seq<char>>,
}

impl View for AuthenticatedKey {
    type V = AuthenticatedKeyView;

    open spec fn view(&self) -> AuthenticatedKeyView {
        AuthenticatedKeyView {
            title: self.title@,
            projects: self.projects@.map_values(|p: String| p@),
        }
    }
}

/// Holds the authentication data.
#[derive(Debug, Clone)]
pub struct AuthenticatedData {
    /// If the user is authenticated.
    pub authenticated: bool,
    /// The username of the authenticated user.
    pub username: String,
    /// About the current authenticated api key.
    pub api_key: AuthenticatedKey,
}

/// The characters of the authentication data, field by field.
pub struct AuthenticatedDataView {
    pub authenticated: bool,
    pub username: Seq<char>,
    pub api_key: AuthenticatedKeyView,
}

impl View for AuthenticatedData {
    type V = AuthenticatedDataView;

    open spec fn view(&self) -> AuthenticatedDataView {
        AuthenticatedDataView {
            authenticated: self.authenticated,
            username: self.username@,
            api_key: self.api_key@,
        }
    }
}

/// String and number information about the content size.
#[derive(Debug, Clone)]
pub struct ContentSize {
    pub number: u64,
    pub string: String,
}

/// The number and characters of a content size.
pub struct ContentSizeView {
    pub number: u64,
    pub string: Seq<char>,
}

impl View for ContentSize {
    type V = ContentSizeView;

    open spec fn view(&self) -> ContentSizeView {
        ContentSizeView { number: self.number, string: self.string@ }
    }
}

/// Metadata about a document.
#[derive(Debug, Clone)]
pub struct DocumentMeta {
    /// The id of the document.
    pub id: String,
    /// The project the document belongs to.
    pub project: String,
    /// The path of the document.
    pub path: String,
    /// The size of the document, when the server reports one.
    pub content_size: Option<ContentSize>,
    /// The last time the document was updated.
    pub updated_at: String,
    /// The time the document was created.
    pub created_at: String,
}

/// The characters of a document's metadata, field by field.
pub struct DocumentMetaView {
    pub id: Seq<char>,
    pub project: Seq<char>,
    pub path: Seq<char>,
    pub content_size: Option<ContentSizeView>,
    pub updated_at: Seq<char>,
    pub created_at: Seq<char>,
}

impl View for DocumentMeta {
    type V = DocumentMetaView;

    open spec fn view(&self) -> DocumentMetaView {
        DocumentMetaView {
            id: self.id@,
            project: self.project@,
            path: self.path@,
            content_size: match self.content_size {
                Some(cs) => Some(cs@),
                None => None,
            },
            updated_at: self.updated_at@,
            created_at: self.created_at@,
        }
    }
}

/// The input body for creating a document.
#[derive(Debug, Clone)]
pub struct CreateDocumentBody {
    /// The name of the document.
    pub name: String,
    /// The project the document belongs to.
    pub project: String,
    /// The content of the document; it must be valid JSON text.
    pub content: String,
    /// The folder the document belongs to. if not provided, the document
    /// will be created in the root of the project.
    pub folder: Option<String>,
}

/// The input body for creating a folder.
#[derive(Debug, Clone)]
pub struct CreateFolderBody {
    /// The name of the folder.
    pub name: String,
    /// The project the folder belongs to.
    pub project: String,
    /// The parent folder. if not provided, the folder will be created in
    /// the root of the project.
    pub folder: Option<String>,
}

/// The input body for uploading a document.
#[derive(Debug, Clone)]
pub struct UploadDocumentBody {
    /// path of the file to upload
    pub file_path: String,
    /// The project the document belongs to.
    pub project: String,
    /// The name of the document. if not provided, the base name of the
    /// file will be used.
    pub name: Option<String>,
    /// The folder the document belongs to. if not provided, the document
    /// will be created in the root of the project.
    pub folder: Option<String>,
}

/// A freshly created (or fetched, in the create-if-not-exists flow) document.
#[derive(Debug, Clone)]
pub struct NewDocument {
    /// The id of the document.
    pub id: String,
    /// The name of the document.
    pub name: String,
    /// The path of the document.
    pub path: String,
    /// The project the document belongs to.
    pub project: String,
    /// The time the document was created.
    pub created_at: String,
    /// If document was created or already exists.
    /// This field is never reported by the server: it is computed by the
    /// create-if-not-exists flow to tell "just created" from "fetched".
    pub exists: bool,
}

/// The characters of a fresh document, field by field.
pub struct NewDocumentView {
    pub id: Seq<char>,
    pub name: Seq<char>,
    pub path: Seq<char>,
    pub project: Seq<char>,
    pub created_at: Seq<char>,
    pub exists: bool,
}

impl View for NewDocument {
    type V = NewDocumentView;

    open spec fn view(&self) -> NewDocumentView {
        NewDocumentView {
            id: self.id@,
            name: self.name@,
            path: self.path@,
            project: self.project@,
            created_at: self.created_at@,
            exists: self.exists,
        }
    }
}

/// Contains the number of documents and folders in a folder
#[derive(Debug, Clone)]
pub struct FolderStats {
    pub documents: i32,
    pub folders: i32,
}

/// About a folder.
#[derive(Debug, Clone)]
pub struct Folder {
    /// The id of the folder.
    pub id: String,
    /// The name of the folder.
    pub name: String,
    /// The path of the folder.
    pub path: String,
    /// The project the folder belongs to.
    pub project: String,
    /// The time the folder was created.
    pub created_at: String,
    /// The last time the folder was updated.
    pub updated_at: String,
    /// stats are only reported when they are requested, as
    /// `get_folder_with_stats` does.
    pub stats: Option<FolderStats>,
}

/// The characters of a folder, field by field.
pub struct FolderView {
    pub id: Seq<char>,
    pub name: Seq<char>,
    pub path: Seq<char>,
    pub project: Seq<char>,
    pub created_at: Seq<char>,
    pub updated_at: Seq<char>,
    pub stats: Option<FolderStats>,
}

impl View for Folder {
    type V = FolderView;

    open spec fn view(&self) -> FolderView {
        FolderView {
            id: self.id@,
            name: self.name@,
            path: self.path@,
            project: self.project@,
            created_at: self.created_at@,
            updated_at: self.updated_at@,
            stats: self.stats,
        }
    }
}

/// Response from the api when a document is deleted.
#[derive(Debug, Clone)]
pub struct DeletedDocument {
    /// If `true`, the document was deleted else it was not deleted
    pub deleted: bool,
}

/// Response from the api when a document is updated.
#[derive(Debug, Clone)]
pub struct UpdatedDocument {
    /// If `true`, the document was updated else it was not updated
    /// if a document is not updated, it means the content is the same.
    pub changed: bool,
}

} // verus!
