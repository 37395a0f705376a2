use s3redirects::orchestrator::{handle_file_errors, run, Outcome, RunError};
use s3redirects::parser::{DecodeCause, ParseError};
use s3redirects::s3::creds::Config;
use s3redirects::s3::fetcher::{Body, FileError, ObjectRequest, ObjectResponse, StoreError};
use s3redirects::writer::{WriteError, Writer};

fn text(value: &str) -> String {
    value.to_string()
}

fn config() -> Config {
    Config {
        access_key_id: Some(text("key")),
        secret_access_key: Some(text("secret")),
        bucket: Some(text("redirects")),
        region: Some(text("eu-west-1")),
    }
}

fn answer(body: &str, e_tag: Option<&str>) -> Result<ObjectResponse, StoreError> {
    Ok(ObjectResponse { body: Body::Read(body.as_bytes().to_vec()), e_tag: e_tag.map(text) })
}

#[test]
fn a_writer_keeps_its_path() {
    assert_eq!(Writer::new("/etc/nginx/redirects.conf").outfile(), "/etc/nginx/redirects.conf");
    assert_eq!(Writer::new("").outfile(), "");
}

#[test]
fn a_write_hands_path_and_bytes_over_once() {
    let mut calls = Vec::new();
    let res = Writer::new("out.conf").write("location ~* ^/a$ {\n", |path, bytes| {
        calls.push((path.to_string(), bytes.to_vec()));
        Ok(())
    });
    assert_eq!(res, Ok(()));
    assert_eq!(calls, vec![(text("out.conf"), b"location ~* ^/a$ {\n".to_vec())]);
}

#[test]
fn a_write_hands_an_empty_document_over_too() {
    let mut calls = Vec::new();
    let res = Writer::new("out.conf").write("", |path, bytes| {
        calls.push((path.to_string(), bytes.to_vec()));
        Ok(())
    });
    assert_eq!(res, Ok(()));
    assert_eq!(calls, vec![(text("out.conf"), Vec::new())]);
}

#[test]
fn a_failed_write_wraps_its_cause() {
    let res = Writer::new("/no/such/dir/out.conf")
        .write("x", |_path, _bytes| Err(text("No such file or directory (os error 2)")));
    assert_eq!(
        res,
        Err(WriteError::IoFailure(text("No such file or directory (os error 2)")))
    );
}

#[test]
fn a_run_writes_the_document_and_returns_the_new_tag() {
    let mut requests = Vec::new();
    let mut files = Vec::new();
    let res = run(
        "redirect_rules/latest.csv",
        "redirects.conf",
        Some("\"v1\""),
        &config(),
        |request: ObjectRequest| {
            requests.push(request);
            answer("match_pattern,redirect_pattern\n^/a$,/b\n^/c$,/d", Some("\"v2\""))
        },
        |path: &str, bytes: &[u8]| {
            files.push((path.to_string(), String::from_utf8(bytes.to_vec()).unwrap()));
            Ok(())
        },
    );
    assert_eq!(res.unwrap(), Some(text("\"v2\"")));
    assert_eq!(
        requests,
        vec![ObjectRequest {
            bucket: text("redirects"),
            key: text("redirect_rules/latest.csv"),
            if_none_match: Some(text("\"v1\"")),
        }]
    );
    assert_eq!(
        files,
        vec![(
            text("redirects.conf"),
            text("location ~* ^/a$ {\n    return 301 /b;\n}\n\nlocation ~* ^/c$ {\n    return 301 /d;\n}\n"),
        )]
    );
}

#[test]
fn a_run_without_a_tag_from_the_store_returns_none() {
    let res = run(
        "k",
        "out",
        None,
        &config(),
        |_request: ObjectRequest| answer("match_pattern,redirect_pattern\n^/a$,/b\n", None),
        |_path: &str, _bytes: &[u8]| Ok(()),
    );
    assert_eq!(res.unwrap(), None);
}

#[test]
fn a_header_alone_is_written_as_an_empty_document() {
    let mut files = Vec::new();
    let res = run(
        "k",
        "out",
        None,
        &config(),
        |_request: ObjectRequest| answer("match_pattern,redirect_pattern\n", Some("t")),
        |path: &str, bytes: &[u8]| {
            files.push((path.to_string(), bytes.to_vec()));
            Ok(())
        },
    );
    assert_eq!(res.unwrap(), Some(text("t")));
    assert_eq!(files, vec![(text("out"), Vec::new())]);
}

#[test]
fn an_unchanged_object_ends_the_run_with_status_three_and_nothing_written() {
    let mut written = false;
    let res = run(
        "k",
        "out",
        Some("\"v1\""),
        &config(),
        |_request: ObjectRequest| Err(StoreError::Unknown(text(""))),
        |_path: &str, _bytes: &[u8]| {
            written = true;
            Ok(())
        },
    );
    match res {
        Err(RunError::Fetch(err)) => {
            assert_eq!(err, FileError::NotModified);
            assert_eq!(handle_file_errors(err), Outcome::Exit(3));
        }
        other => panic!("unexpected {:?}", other),
    }
    assert!(!written);
}

#[test]
fn a_missing_key_ends_the_run_as_not_found() {
    let mut written = false;
    let res = run(
        "absent.csv",
        "out",
        None,
        &config(),
        |_request: ObjectRequest| Err(StoreError::NoSuchKey(text("The specified key does not exist."))),
        |_path: &str, _bytes: &[u8]| {
            written = true;
            Ok(())
        },
    );
    assert!(matches!(res, Err(RunError::Fetch(FileError::NotFound))));
    assert!(!written);
}

#[test]
fn a_run_without_a_bucket_sends_and_writes_nothing() {
    let mut sent = false;
    let mut written = false;
    let mut unset = config();
    unset.bucket = None;
    let res = run(
        "k",
        "out",
        None,
        &unset,
        |_request: ObjectRequest| {
            sent = true;
            answer("x", None)
        },
        |_path: &str, _bytes: &[u8]| {
            written = true;
            Ok(())
        },
    );
    match res {
        Err(RunError::Fetch(err)) => {
            assert_eq!(
                err,
                FileError::Unauthorized(text("Need to set env var `REDIRECTS_S3_BUCKET`"))
            );
            assert_eq!(
                handle_file_errors(err),
                Outcome::Abort(text("Auth failed: Need to set env var `REDIRECTS_S3_BUCKET`"))
            );
        }
        other => panic!("unexpected {:?}", other),
    }
    assert!(!sent);
    assert!(!written);
}

#[test]
fn a_list_that_does_not_parse_is_never_written() {
    let mut written = false;
    let res = run(
        "k",
        "out",
        None,
        &config(),
        |_request: ObjectRequest| answer("match_pattern,redirect_pattern\n^/a$,/b\n^/c$;/d\n", Some("t")),
        |_path: &str, _bytes: &[u8]| {
            written = true;
            Ok(())
        },
    );
    assert!(matches!(
        res,
        Err(RunError::Parse(ParseError::DecodeFailure { row: 1, cause: DecodeCause::Malformed(_) }))
    ));
    assert!(!written);
}

#[test]
fn a_failed_write_ends_the_run_without_a_tag() {
    let res = run(
        "k",
        "/no/such/dir/out.conf",
        None,
        &config(),
        |_request: ObjectRequest| answer("match_pattern,redirect_pattern\n^/a$,/b\n", Some("\"v2\"")),
        |_path: &str, _bytes: &[u8]| Err(text("No such file or directory (os error 2)")),
    );
    match res {
        Err(RunError::Write(err)) => assert_eq!(
            err,
            WriteError::IoFailure(text("No such file or directory (os error 2)"))
        ),
        other => panic!("unexpected {:?}", other),
    }
}
