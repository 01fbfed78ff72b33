// Tests of the folder operations and the authentication flow against
// stub replies.

use jsonbank::folders::CreateFolderStep;
use jsonbank::request::{HttpMethod, RawResponse};
use jsonbank::structs::CreateFolderBody;
use jsonbank::{InitConfig, JsonBank, Keys};

fn client_with_keys() -> JsonBank {
    JsonBank::new(InitConfig {
        host: Some("https://api.example.test".to_string()),
        keys: Some(Keys {
            public: Some("pub-key-value".to_string()),
            private: Some("prv-key-value".to_string()),
        }),
    })
}

fn resp(status: u16, status_text: &str, body: &str) -> RawResponse {
    RawResponse {
        status,
        status_text: status_text.to_string(),
        body: body.to_string(),
    }
}

fn folder_body() -> &'static str {
    "{\"id\":\"10\",\"name\":\"folder\",\"path\":\"folder\",\"project\":\"p\",\"createdAt\":\"t\",\"updatedAt\":\"u\"}"
}

fn folder_body_with_stats() -> &'static str {
    "{\"id\":\"10\",\"name\":\"folder\",\"path\":\"folder\",\"project\":\"p\",\"createdAt\":\"t\",\"updatedAt\":\"u\",\"stats\":{\"documents\":3,\"folders\":1}}"
}

#[test]
fn create_folder() {
    let jsb = client_with_keys();

    let e = jsb
        .create_folder_request(CreateFolderBody {
            name: "folder".to_string(),
            project: "".to_string(),
            folder: None,
        })
        .err()
        .expect("missing project");
    assert_eq!(e.code, "bad_request");
    assert_eq!(e.message, "Project required");

    let e = jsb
        .create_folder_request(CreateFolderBody {
            name: "".to_string(),
            project: "p".to_string(),
            folder: None,
        })
        .err()
        .expect("missing name");
    assert_eq!(e.code, "bad_request");
    assert_eq!(e.message, "Name required");

    let req = jsb
        .create_folder_request(CreateFolderBody {
            name: "folder".to_string(),
            project: "p".to_string(),
            folder: None,
        })
        .expect("valid input");
    assert_eq!(req.method, HttpMethod::Post);
    assert_eq!(req.url, "https://api.example.test/v1/project/p/folder");
    assert_eq!(
        req.body.as_deref(),
        Some("{\"name\":\"folder\",\"project\":\"p\"}")
    );

    let folder = jsb
        .create_folder(&resp(200, "200 OK", folder_body()))
        .expect("decodes");
    assert_eq!(folder.name, "folder");
    assert_eq!(folder.project, "p");
    assert!(folder.stats.is_none());
}

#[test]
fn get_folder() {
    let jsb = client_with_keys();

    let req = jsb.get_folder_request("p/folder").expect("public key configured");
    assert_eq!(req.method, HttpMethod::Get);
    assert_eq!(req.url, "https://api.example.test/v1/folder/p/folder");
    // without a stats request, no query parameter is sent
    assert!(req.query.is_empty());

    let folder = jsb
        .get_folder(&resp(200, "200 OK", folder_body()))
        .expect("decodes");
    assert_eq!(folder.id, "10");
    assert_eq!(folder.name, "folder");
    assert_eq!(folder.project, "p");
    // the reply carried no stats, so none are populated
    assert!(folder.stats.is_none());
}

#[test]
fn get_folder_with_stats() {
    let jsb = client_with_keys();

    let req = jsb
        .get_folder_with_stats_request("p/folder")
        .expect("public key configured");
    assert_eq!(req.url, "https://api.example.test/v1/folder/p/folder");
    // the stats request always carries stats=true in the query
    assert_eq!(req.query, vec![("stats".to_string(), "true".to_string())]);

    let folder = jsb
        .get_folder_with_stats(&resp(200, "200 OK", folder_body_with_stats()))
        .expect("decodes");
    assert_eq!(folder.name, "folder");
    assert_eq!(folder.project, "p");
    let stats = folder.stats.expect("the stats were reported");
    assert_eq!(stats.documents, 3);
    assert_eq!(stats.folders, 1);
}

#[test]
fn create_folder_if_not_exists() {
    let jsb = client_with_keys();
    let input = CreateFolderBody {
        name: "folder".to_string(),
        project: "p".to_string(),
        folder: None,
    };

    // fresh creation
    match jsb.create_folder_if_not_exists(&input, &resp(200, "200 OK", folder_body())) {
        CreateFolderStep::Done(Ok((folder, existed))) => {
            assert_eq!(folder.name, "folder");
            assert_eq!(folder.project, "p");
            assert_eq!(existed, false);
        }
        other => panic!("unexpected step: {:?}", other),
    }

    // the name exists: the flow fetches the folder at its path
    let conflict = resp(
        409,
        "409 Conflict",
        "{\"error\":{\"code\":\"name.exists\",\"message\":\"Name already exists\"}}",
    );
    let fetch = match jsb.create_folder_if_not_exists(&input, &conflict) {
        CreateFolderStep::FetchExisting(req) => req,
        other => panic!("unexpected step: {:?}", other),
    };
    assert_eq!(fetch.url, "https://api.example.test/v1/folder/p/folder");
    assert!(fetch.query.is_empty());

    let (folder, existed) = jsb
        .create_folder_if_not_exists_finish(&resp(200, "200 OK", folder_body()))
        .expect("the fetch decodes");
    assert_eq!(folder.name, "folder");
    assert_eq!(folder.project, "p");
    assert_eq!(existed, true);
}

#[test]
fn create_folder_if_not_exists_propagates_other_errors() {
    let jsb = client_with_keys();
    let input = CreateFolderBody {
        name: "folder".to_string(),
        project: "p".to_string(),
        folder: None,
    };
    let reply = resp(
        403,
        "403 Forbidden",
        "{\"error\":{\"code\":\"forbidden\",\"message\":\"no\"}}",
    );
    match jsb.create_folder_if_not_exists(&input, &reply) {
        CreateFolderStep::Done(Err(e)) => {
            assert_eq!(e.code, "forbidden");
        }
        other => panic!("unexpected step: {:?}", other),
    }
}

#[test]
fn make_folder_path_builds_the_deterministic_path() {
    let flat = jsonbank::functions::make_folder_path(&CreateFolderBody {
        name: "folder".to_string(),
        project: "p".to_string(),
        folder: None,
    });
    assert_eq!(flat, "p/folder");

    let nested = jsonbank::functions::make_folder_path(&CreateFolderBody {
        name: "folder".to_string(),
        project: "p".to_string(),
        folder: Some("parent".to_string()),
    });
    assert_eq!(nested, "p/parent/folder");
}

#[test]
fn authenticate() {
    let mut jsb = client_with_keys();

    // before any successful authenticate call
    assert_eq!(jsb.is_authenticated(), false);
    let e = jsb.get_username().err().expect("not authenticated yet");
    assert_eq!(e.code, "not_authenticated");
    assert_eq!(e.message, "User is not authenticated");

    let req = jsb.authenticate_request().expect("public key configured");
    assert_eq!(req.method, HttpMethod::Post);
    assert_eq!(req.url, "https://api.example.test/v1/authenticate");
    assert_eq!(req.body.as_deref(), Some("{}"));
    assert_eq!(
        req.headers,
        vec![
            ("Content-Type".to_string(), "application/json".to_string()),
            ("jsb-pub-key".to_string(), "pub-key-value".to_string()),
        ]
    );

    let reply = resp(
        200,
        "200 OK",
        "{\"authenticated\":true,\"username\":\"jsonbank\",\"apiKey\":{\"title\":\"main\",\"projects\":[\"p\",\"q\"]}}",
    );
    let auth = jsb.authenticate(&reply).expect("decodes");
    assert_eq!(auth.authenticated, true);
    assert_eq!(auth.username, "jsonbank");
    assert_eq!(auth.api_key.title, "main");
    assert_eq!(auth.api_key.projects, vec!["p".to_string(), "q".to_string()]);

    // the identity is cached
    assert_eq!(jsb.is_authenticated(), true);
    assert_eq!(jsb.get_username().expect("cached"), "jsonbank");
}

#[test]
fn authenticate_failure_leaves_the_cache_alone() {
    let mut jsb = client_with_keys();
    let reply = resp(
        401,
        "401 Unauthorized",
        "{\"error\":{\"code\":\"unauthorized\",\"message\":\"bad key\"}}",
    );
    let e = jsb.authenticate(&reply).err().expect("an error reply");
    assert_eq!(e.code, "unauthorized");
    assert_eq!(e.message, "bad key");
    assert_eq!(jsb.is_authenticated(), false);
    assert!(jsb.get_username().is_err());
}

#[test]
fn authenticate_requires_the_public_key() {
    let jsb = JsonBank::new_without_config();
    let e = jsb.authenticate_request().err().expect("no public key");
    assert_eq!(e.code, "bad_request");
    assert_eq!(e.message, "Public key is not set");
}

#[test]
fn authenticate_rejects_a_malformed_identity() {
    let mut jsb = client_with_keys();
    let reply = resp(200, "200 OK", "{\"authenticated\":true}");
    let e = jsb.authenticate(&reply).err().expect("fields are missing");
    assert_eq!(e.code, "500");
    assert_eq!(e.message, "Invalid response body");
    assert_eq!(jsb.is_authenticated(), false);
}

#[test]
fn folder_stats_outside_range_are_dropped() {
    let jsb = client_with_keys();
    let body = "{\"id\":\"10\",\"name\":\"folder\",\"path\":\"folder\",\"project\":\"p\",\"createdAt\":\"t\",\"updatedAt\":\"u\",\"stats\":{\"documents\":4294967296,\"folders\":1}}";
    let folder = jsb.get_folder_with_stats(&resp(200, "200 OK", body)).expect("decodes");
    assert!(folder.stats.is_none());
}
