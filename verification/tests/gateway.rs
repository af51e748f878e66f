use gcs_gateway::api::classify_delete_outcome;
use gcs_gateway::api::classify_insert_response;
use gcs_gateway::api::staged_file_name;
use gcs_gateway::api::ObjectDescriptor;
use gcs_gateway::api::RemoteOutcome;
use gcs_gateway::api::UploadFlow;
use gcs_gateway::api::UploadPhase;
use gcs_gateway::api_error::ApiError;
use gcs_gateway::body::DeleteObject;
use gcs_gateway::config::Config;
use gcs_gateway::config::Env;
use gcs_gateway::decimal::u64_to_decimal;

fn descriptor() -> ObjectDescriptor {
    ObjectDescriptor {
        name: String::from("report.txt"),
        bucket: String::from("archive"),
        generation: String::from("1690000000000001"),
    }
}

fn start_staged_flow(name: &str) -> UploadFlow {
    let mut flow = UploadFlow::new();
    let proceed = flow.on_headers(
        Some(String::from(name)),
        Some(String::from("archive")),
        Some(String::from("text/plain")),
    );
    assert!(proceed);
    assert_eq!(flow.phase, UploadPhase::Staging);
    flow
}

#[test]
fn missing_name_header_is_client_error_without_side_effects() {
    let mut flow = UploadFlow::new();
    let proceed = flow.on_headers(
        None,
        Some(String::from("archive")),
        Some(String::from("text/plain")),
    );
    assert!(!proceed);
    assert_eq!(flow.phase, UploadPhase::Done);
    assert!(!flow.staged_ever);
    assert!(!flow.remote_attempted);
    assert!(flow.staged.is_none());
    match &flow.response {
        Some(Err(ApiError::MissingHeader(h))) => assert_eq!(*h, "Name"),
        other => panic!("unexpected response: {:?}", other.is_some()),
    }
    let e = match flow.into_response() {
        Err(e) => e,
        Ok(_) => panic!("expected an error"),
    };
    assert_eq!(e.status_code(), 400);
}

#[test]
fn missing_bucket_header_is_client_error() {
    let mut flow = UploadFlow::new();
    let proceed = flow.on_headers(
        Some(String::from("a.txt")),
        None,
        Some(String::from("text/plain")),
    );
    assert!(!proceed);
    assert!(!flow.staged_ever);
    assert!(matches!(
        flow.into_response(),
        Err(ApiError::MissingHeader("Bucket"))
    ));
}

#[test]
fn missing_mime_header_is_client_error() {
    let mut flow = UploadFlow::new();
    let proceed = flow.on_headers(Some(String::from("a.txt")), Some(String::from("b")), None);
    assert!(!proceed);
    assert!(!flow.staged_ever);
    assert!(matches!(
        flow.into_response(),
        Err(ApiError::MissingHeader("Mime-Type"))
    ));
}

#[test]
fn empty_header_value_counts_as_missing() {
    let mut flow = UploadFlow::new();
    let proceed = flow.on_headers(
        Some(String::new()),
        Some(String::from("b")),
        Some(String::from("text/plain")),
    );
    assert!(!proceed);
    assert!(matches!(
        flow.into_response(),
        Err(ApiError::MissingHeader("Name"))
    ));
}

#[test]
fn malformed_mime_type_fails_before_staging() {
    let mut flow = UploadFlow::new();
    let proceed = flow.on_headers(
        Some(String::from("a.txt")),
        Some(String::from("b")),
        Some(String::from("not a mime")),
    );
    assert!(!proceed);
    assert!(!flow.staged_ever);
    assert!(!flow.remote_attempted);
    let e = flow.into_response().unwrap_err();
    assert!(matches!(e, ApiError::MimeTypeParsingError));
    assert_eq!(e.status_code(), 400);
}

#[test]
fn traversal_name_stages_under_sanitized_base_name() {
    let staged = staged_file_name("../../etc/passwd").unwrap();
    assert_eq!(staged, "passwd");
}

#[test]
fn sanitizer_strips_illegal_characters() {
    let staged = staged_file_name("dir/a?b").unwrap();
    assert_eq!(staged, "ab");
}

#[test]
fn pure_traversal_name_yields_missing_filename() {
    match staged_file_name("..") {
        Err(ApiError::MissingFilename(n)) => assert_eq!(n, ".."),
        _ => panic!("expected MissingFilename"),
    }
    assert!(matches!(
        staged_file_name("a/b/.."),
        Err(ApiError::MissingFilename(_))
    ));
    assert!(matches!(
        staged_file_name(""),
        Err(ApiError::MissingFilename(_))
    ));
    assert!(matches!(
        staged_file_name("///"),
        Err(ApiError::MissingFilename(_))
    ));
}

#[test]
fn trailing_slash_and_dot_segments_are_dropped() {
    assert_eq!(staged_file_name("a/b/").unwrap(), "b");
    assert_eq!(staged_file_name("a/b/.").unwrap(), "b");
    assert_eq!(staged_file_name("./c.txt").unwrap(), "c.txt");
}

#[test]
fn upload_succeeds_and_cleans_up() {
    let mut flow = start_staged_flow("report.txt");
    let path = flow.staged.as_ref().unwrap().path.clone();
    assert_eq!(path, "report.txt");
    flow.on_chunk(b"hello ");
    flow.on_chunk(b"world");
    assert_eq!(flow.staged.as_ref().unwrap().bytes_written, 11);
    flow.on_stream_end();
    flow.on_credentials(true);
    assert_eq!(flow.phase, UploadPhase::CallingRemote);
    assert!(flow.remote_attempted);
    assert_eq!(flow.staged.as_ref().unwrap().bytes_written, 11);
    let outcome = classify_insert_response(200, descriptor(), String::new());
    assert!(matches!(outcome, RemoteOutcome::Success(_)));
    flow.on_remote(outcome);
    assert_eq!(flow.phase, UploadPhase::CleaningUp);
    flow.on_cleanup(true);
    assert_eq!(flow.phase, UploadPhase::Done);
    assert!(flow.cleanup_requested);
    let d = flow.into_response().unwrap();
    assert_eq!(d.name, "report.txt");
    assert_eq!(d.bucket, "archive");
    assert_eq!(d.generation, "1690000000000001");
}

#[test]
fn zero_chunk_upload_stages_an_empty_file() {
    let mut flow = start_staged_flow("empty.bin");
    flow.on_stream_end();
    assert_eq!(flow.staged.as_ref().unwrap().bytes_written, 0);
    flow.on_credentials(true);
    flow.on_remote(classify_insert_response(200, descriptor(), String::new()));
    flow.on_cleanup(true);
    assert!(flow.cleanup_requested);
    assert!(flow.into_response().is_ok());
}

#[test]
fn rejected_upload_is_server_error_and_cleans_up() {
    let mut flow = start_staged_flow("report.txt");
    flow.on_chunk(b"data");
    flow.on_stream_end();
    flow.on_credentials(true);
    let outcome = classify_insert_response(404, descriptor(), String::from("bucket not found"));
    assert!(matches!(outcome, RemoteOutcome::Rejected(404, _)));
    flow.on_remote(outcome);
    flow.on_cleanup(true);
    assert!(flow.cleanup_requested);
    let e = flow.into_response().unwrap_err();
    match &e {
        ApiError::NotSuccessResponse(status, body) => {
            assert_eq!(*status, 404);
            assert_eq!(body, "bucket not found");
        }
        _ => panic!("expected NotSuccessResponse"),
    }
    assert_eq!(e.status_code(), 500);
}

#[test]
fn transport_failure_is_server_error_and_cleans_up() {
    let mut flow = start_staged_flow("report.txt");
    flow.on_chunk(b"data");
    flow.on_stream_end();
    flow.on_credentials(true);
    flow.on_remote(RemoteOutcome::TransportFailure(String::from(
        "connection reset",
    )));
    flow.on_cleanup(false);
    assert!(flow.cleanup_requested);
    let e = flow.into_response().unwrap_err();
    assert!(matches!(e, ApiError::UploadObjectError(_)));
    assert_eq!(e.status_code(), 500);
}

#[test]
fn credential_failure_after_staging_still_cleans_up() {
    let mut flow = start_staged_flow("report.txt");
    flow.on_chunk(b"data");
    flow.on_stream_end();
    flow.on_credentials(false);
    assert_eq!(flow.phase, UploadPhase::CleaningUp);
    assert!(!flow.remote_attempted);
    flow.on_cleanup(true);
    assert!(flow.cleanup_requested);
    let e = flow.into_response().unwrap_err();
    assert!(matches!(e, ApiError::ServiceAccountNotFound));
    assert_eq!(e.status_code(), 500);
}

#[test]
fn write_failure_while_staging_cleans_up_partial_file() {
    let mut flow = start_staged_flow("report.txt");
    flow.on_chunk(b"par");
    flow.on_stage_error(String::from("disk full"));
    assert_eq!(flow.phase, UploadPhase::CleaningUp);
    flow.on_cleanup(true);
    assert!(flow.cleanup_requested);
    let e = flow.into_response().unwrap_err();
    assert!(matches!(e, ApiError::IoError(_)));
    assert_eq!(e.status_code(), 500);
}

#[test]
fn distinct_names_stage_to_distinct_paths() {
    let f1 = start_staged_flow("alpha.txt");
    let f2 = start_staged_flow("beta.txt");
    let p1 = &f1.staged.as_ref().unwrap().path;
    let p2 = &f2.staged.as_ref().unwrap().path;
    assert_ne!(p1, p2);
}

#[test]
fn same_name_uploads_share_one_path_and_are_serialized() {
    // Documented policy: the staged path is a pure function of the name, so
    // two uploads with the same name use one path; the host serializes them,
    // running the second only after the first flow reached Done.
    let mut first = start_staged_flow("same.txt");
    first.on_chunk(b"one");
    first.on_stream_end();
    first.on_credentials(true);
    first.on_remote(classify_insert_response(200, descriptor(), String::new()));
    first.on_cleanup(true);
    assert_eq!(first.phase, UploadPhase::Done);
    let p1 = first.staged.as_ref().unwrap().path.clone();

    let mut second = start_staged_flow("same.txt");
    let p2 = second.staged.as_ref().unwrap().path.clone();
    assert_eq!(p1, p2);
    second.on_chunk(b"two");
    second.on_stream_end();
    second.on_credentials(true);
    second.on_remote(classify_insert_response(200, descriptor(), String::new()));
    second.on_cleanup(true);
    assert!(second.cleanup_requested);
    assert!(second.into_response().is_ok());
}

#[test]
fn delete_of_missing_object_is_server_error() {
    let body = DeleteObject {
        object: String::from("nope.txt"),
        bucket: String::from("archive"),
    };
    assert_eq!(body.object, "nope.txt");
    let r = classify_delete_outcome(RemoteOutcome::Rejected(
        404,
        String::from("no such object"),
    ));
    let e = r.unwrap_err();
    assert!(matches!(e, ApiError::NotSuccessResponse(404, _)));
    assert_eq!(e.status_code(), 500);
}

#[test]
fn delete_outcomes_classify_exactly() {
    assert!(classify_delete_outcome(RemoteOutcome::Success(descriptor())).is_ok());
    let e = classify_delete_outcome(RemoteOutcome::TransportFailure(String::from("timeout")))
        .unwrap_err();
    assert!(matches!(e, ApiError::DeleteObjectFailed));
    assert_eq!(e.status_code(), 500);
}

#[test]
fn service_account_parses_from_canonical_secret() {
    let document = r#"{
        "type": "service_account",
        "project_id": "demo",
        "private_key_id": "not-a-real-key-id",
        "private_key": "not-a-real-key",
        "client_email": "uploader@demo.iam.gserviceaccount.com",
        "client_id": "1234567890",
        "token_uri": "https://oauth2.googleapis.com/token"
    }"#;
    let secret = base64::Engine::encode(&base64::engine::general_purpose::URL_SAFE_NO_PAD, document);
    let config = Config {
        host: String::from("127.0.0.1"),
        port: 8080,
        service_account: secret,
    };
    let key = config.sa_to_json().unwrap();
    assert_eq!(key.client_email, "uploader@demo.iam.gserviceaccount.com");
}

#[test]
fn undecodable_secret_is_service_account_not_found() {
    let config = Config {
        host: String::from("127.0.0.1"),
        port: 8080,
        service_account: String::from("!!! not base64 !!!"),
    };
    let e = config.sa_to_json().unwrap_err();
    assert!(matches!(e, ApiError::ServiceAccountNotFound));
    assert_eq!(e.status_code(), 500);
}

#[test]
fn unparsable_secret_is_service_account_not_found() {
    let secret = base64::Engine::encode(&base64::engine::general_purpose::URL_SAFE_NO_PAD, "{}");
    let config = Config {
        host: String::from("127.0.0.1"),
        port: 8080,
        service_account: secret,
    };
    assert!(matches!(
        config.sa_to_json(),
        Err(ApiError::ServiceAccountNotFound)
    ));
}

#[test]
fn env_to_address_joins_host_and_port() {
    let env = Env {
        host: String::from("0.0.0.0"),
        port: 8080,
    };
    assert_eq!(env.to_address(), "0.0.0.0:8080");
    let env = Env {
        host: String::from("localhost"),
        port: 0,
    };
    assert_eq!(env.to_address(), "localhost:0");
}

#[test]
fn decimal_rendering_is_exact() {
    assert_eq!(u64_to_decimal(0), "0");
    assert_eq!(u64_to_decimal(7), "7");
    assert_eq!(u64_to_decimal(1234567890), "1234567890");
    assert_eq!(u64_to_decimal(u64::MAX), "18446744073709551615");
}

#[test]
fn error_responses_carry_status_and_message() {
    let r = ApiError::MissingHeader("Name").error_response();
    assert_eq!(r.status, 400);
    assert_eq!(r.body, "Missing header key [Name] from request");

    let r = ApiError::NotSuccessResponse(502, String::from("bad gateway")).error_response();
    assert_eq!(r.status, 500);
    assert_eq!(r.body, "Remote response is not in 200..300, status 502");

    let r = ApiError::MissingFilename(String::from("..")).error_response();
    assert_eq!(r.status, 400);
    assert_eq!(r.body, "Failed to find filename by [..]");

    assert_eq!(ApiError::BlockingError.status_code(), 503);
    assert_eq!(ApiError::MultipartError.status_code(), 406);
    assert_eq!(ApiError::MimeTypeParsingError.status_code(), 400);
    assert_eq!(
        ApiError::IoError(String::from("x")).error_response().body,
        "IO error: x"
    );
    assert_eq!(
        ApiError::UploadFailed.status_code(),
        500
    );
}

#[test]
fn success_statuses_are_exactly_2xx() {
    let d = || descriptor();
    assert!(matches!(
        classify_insert_response(200, d(), String::new()),
        RemoteOutcome::Success(_)
    ));
    assert!(matches!(
        classify_insert_response(299, d(), String::new()),
        RemoteOutcome::Success(_)
    ));
    assert!(matches!(
        classify_insert_response(199, d(), String::new()),
        RemoteOutcome::Rejected(199, _)
    ));
    assert!(matches!(
        classify_insert_response(300, d(), String::new()),
        RemoteOutcome::Rejected(300, _)
    ));
}
