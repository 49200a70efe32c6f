use drive_gateway::records::RemoteFile;
use drive_gateway::reply::ReplyBody;
use drive_gateway::upload::{
    upload_failure, upload_read_failure, upload_success, UploadAssembly, UploadPlan,
};

fn params(pairs: &[(&str, &str)]) -> Vec<(String, String)> {
    pairs.iter().map(|(k, v)| (k.to_string(), v.to_string())).collect()
}

fn body_text(body: ReplyBody) -> String {
    match body {
        ReplyBody::Text(t) => t,
        ReplyBody::Raw(_) => panic!("expected a textual body"),
    }
}

/// A stand-in for the remote store: every create call files the content
/// away and answers with a fresh identifier, as the remote API does.
struct MockStore {
    created: Vec<(String, String, Vec<u8>)>,
}

impl MockStore {
    fn new() -> MockStore {
        MockStore { created: Vec::new() }
    }

    fn create(&mut self, plan: &UploadPlan) -> RemoteFile {
        let id = format!("generated-{}", self.created.len() + 1);
        self.created.push((id.clone(), plan.name.clone(), plan.content.clone()));
        RemoteFile {
            id: Some(id),
            name: Some(plan.name.clone()),
            mime_type: Some(plan.mime_type.clone()),
            created_time: None,
            kind: Some("drive#file".to_string()),
            size: None,
        }
    }
}

#[test]
fn empty_body_is_bad_request() {
    let a = UploadAssembly::new();
    let p = params(&[("folder_id", "abc")]);
    match a.finish(&p) {
        Ok(_) => panic!("an empty body must be rejected"),
        Err(reply) => {
            assert_eq!(reply.status, 400);
            assert_eq!(body_text(reply.body), "El archivo está vacío.");
        }
    }
}

#[test]
fn upload_without_folder_is_bad_request() {
    let mut a = UploadAssembly::new();
    a.push_chunk(b"content");
    let p = params(&[("other", "1")]);
    match a.finish(&p) {
        Ok(_) => panic!("a request without folder_id must be rejected"),
        Err(reply) => {
            assert_eq!(reply.status, 400);
            assert_eq!(body_text(reply.body), "El parámetro 'folder_id' es requerido.");
        }
    }
}

#[test]
fn empty_body_is_reported_before_the_missing_folder() {
    let a = UploadAssembly::new();
    let p = params(&[]);
    match a.finish(&p) {
        Ok(_) => panic!("an empty body must be rejected"),
        Err(reply) => {
            assert_eq!(reply.status, 400);
            assert_eq!(body_text(reply.body), "El archivo está vacío.");
        }
    }
}

#[test]
fn default_filename_is_used_without_a_declared_one() {
    let mut a = UploadAssembly::new();
    a.begin_part(None);
    a.push_chunk(b"x");
    let p = params(&[("folder_id", "abc")]);
    match a.finish(&p) {
        Ok(plan) => assert_eq!(plan.name, "uploaded.pdf"),
        Err(_) => panic!("a nonempty body with folder_id must build a plan"),
    }
}

#[test]
fn declared_filename_is_kept() {
    let mut a = UploadAssembly::new();
    a.begin_part(Some("test.pdf".to_string()));
    a.push_chunk(b"Test content");
    let p = params(&[("folder_id", "abc")]);
    match a.finish(&p) {
        Ok(plan) => {
            assert_eq!(plan.name, "test.pdf");
            assert_eq!(plan.mime_type, "application/pdf");
            assert_eq!(plan.parents, vec!["abc".to_string()]);
            assert_eq!(plan.content, b"Test content".to_vec());
        }
        Err(_) => panic!("a nonempty body with folder_id must build a plan"),
    }
}

#[test]
fn chunks_concatenate_in_order() {
    let mut a = UploadAssembly::new();
    a.begin_part(None);
    a.push_chunk(b"Test ");
    a.push_chunk(b"con");
    a.push_chunk(b"tent");
    assert_eq!(a.content, b"Test content".to_vec());
}

#[test]
fn later_declared_filename_replaces_the_earlier() {
    let mut a = UploadAssembly::new();
    a.begin_part(Some("one.pdf".to_string()));
    a.push_chunk(b"x");
    a.begin_part(Some("two.pdf".to_string()));
    assert_eq!(a.name, "two.pdf");
    a.begin_part(None);
    assert_eq!(a.name, "two.pdf");
}

#[test]
fn created_file_answers_with_its_name() {
    let mut a = UploadAssembly::new();
    a.begin_part(Some("test.pdf".to_string()));
    a.push_chunk(b"Test content");
    let p = params(&[("folder_id", "abc")]);
    let plan = match a.finish(&p) {
        Ok(plan) => plan,
        Err(_) => panic!("a nonempty body with folder_id must build a plan"),
    };
    let mut store = MockStore::new();
    let created = store.create(&plan);
    let reply = upload_success(&created);
    assert_eq!(reply.status, 200);
    assert_eq!(reply.content_type, "application/json");
    assert_eq!(
        body_text(reply.body),
        "{\"kind\":\"drive#file\",\"id\":\"generated-1\",\"name\":\"test.pdf\",\
         \"mimeType\":\"application/pdf\"}"
    );
}

#[test]
fn identical_uploads_create_two_distinct_objects() {
    let p = params(&[("folder_id", "abc")]);
    let mut store = MockStore::new();
    let mut ids = Vec::new();
    for _ in 0..2 {
        let mut a = UploadAssembly::new();
        a.begin_part(Some("test.pdf".to_string()));
        a.push_chunk(b"Test content");
        let plan = match a.finish(&p) {
            Ok(plan) => plan,
            Err(_) => panic!("a nonempty body with folder_id must build a plan"),
        };
        ids.push(store.create(&plan).id.expect("a created file has an id"));
    }
    assert_eq!(store.created.len(), 2);
    assert_ne!(ids[0], ids[1]);
}

#[test]
fn absent_fields_stay_out_of_the_created_object() {
    let created = RemoteFile {
        id: Some("f9".to_string()),
        name: Some("a.pdf".to_string()),
        mime_type: None,
        created_time: None,
        kind: None,
        size: None,
    };
    let reply = upload_success(&created);
    assert_eq!(body_text(reply.body), "{\"id\":\"f9\",\"name\":\"a.pdf\"}");
}

#[test]
fn upload_failure_is_generic() {
    let reply = upload_failure();
    assert_eq!(reply.status, 500);
    assert_eq!(body_text(reply.body), "Error al subir archivo");
}

#[test]
fn upload_read_failure_is_generic() {
    let reply = upload_read_failure();
    assert_eq!(reply.status, 500);
    assert_eq!(body_text(reply.body), "Error al leer el archivo");
}
