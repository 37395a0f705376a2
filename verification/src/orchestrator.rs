//! One run, from the fetch of the rule list to the written configuration
//! document, and how a run that fetched nothing ends.

use crate::parser::{columns_of, csv_header, csv_rows, parse_rows, ParseError, ParseErrorView, Parser};
use crate::redirect_rule::{build_conf, document};
use crate::s3::creds::{bucket_of, Config};
use crate::s3::fetcher::{
    fetch, request_for, settle, FileError, FileErrorView, ObjectRequest, ObjectResponse,
    StoreError,
};
use crate::writer::{WriteError, WriteErrorView, Writer};
use vstd::prelude::*;
use vstd::string::StringExecFns;
use vstd::utf8::encode_utf8;

verus! {

/// The status that the process leaves with where the remote object is the
/// one that the caller already holds.
pub const NOT_MODIFIED_STATUS: i32 = 3;

/// What the process does in place of going on.
#[derive(Debug, PartialEq, Eq)]
pub enum Outcome {
    /// It leaves quietly, with this status.
    Exit(i32),
    /// It aborts, with this diagnostic.
    Abort(String),
}

/// The stage at which a run failed, with the failure of that stage.
#[derive(Debug)]
pub enum RunError {
    /// The rule list could not be fetched.
    Fetch(FileError),
    /// The rule list could not be parsed.
    Parse(ParseError),
    /// The configuration document could not be written.
    Write(WriteError),
}

/// The end of a run that fetched nothing, mathematically.
pub enum OutcomeView {
    Exit(int),
    Abort(Seq<char>),
}

/// The failure of a run, mathematically.
pub enum RunErrorView {
    Fetch(FileErrorView),
    Parse(ParseErrorView),
    Write(WriteErrorView),
}

impl View for Outcome {
    type V = OutcomeView;

    open spec fn view(&self) -> OutcomeView {
        match self {
            Outcome::Exit(status) => OutcomeView::Exit(*status as int),
            Outcome::Abort(diagnostic) => OutcomeView::Abort(diagnostic@),
        }
    }
}

impl View for RunError {
    type V = RunErrorView;

    open spec fn view(&self) -> RunErrorView {
        match self {
            RunError::Fetch(err) => RunErrorView::Fetch(err@),
            RunError::Parse(err) => RunErrorView::Parse(err@),
            RunError::Write(err) => RunErrorView::Write(err@),
        }
    }
}

/// How a run ends on each fetch failure. An unchanged remote object is no
/// fault: the run ends with a status of its own. Every other failure is
/// fatal, and the diagnostic names its kind and cause.
pub open spec fn outcome_of(err: FileErrorView) -> OutcomeView {
    match err {
        FileErrorView::NotFound => OutcomeView::Abort("File not found"@),
        FileErrorView::NotModified => OutcomeView::Exit(NOT_MODIFIED_STATUS as int),
        FileErrorView::Unauthorized(cause) => OutcomeView::Abort("Auth failed: "@ + cause),
        FileErrorView::Unknown(cause) => OutcomeView::Abort(
            "Unknown fetch error occurred: "@ + cause,
        ),
    }
}

/// The configuration document that the bytes of a rule list stand for, or
/// the failure of parsing them.
pub open spec fn document_of(bytes: Seq<u8>) -> Result<Seq<char>, ParseErrorView> {
    match parse_rows(columns_of(csv_header(bytes)), csv_rows(bytes)) {
        Ok(rules) => Ok(document(rules)),
        Err(failure) => Err(failure),
    }
}

/// How a run ends once the document has been handed to the file system,
/// with `outcome`: with the entity tag of the fetched list, to be reported,
/// or with the failure of the write.
pub open spec fn concluded(etag: Option<Seq<char>>, outcome: Result<(), String>) -> Result<
    Option<Seq<char>>,
    RunErrorView,
> {
    match outcome {
        Ok(()) => Ok(etag),
        Err(cause) => Err(RunErrorView::Write(WriteErrorView::IoFailure(cause@))),
    }
}

/// The views of a run's result.
pub open spec fn run_result(res: Result<Option<String>, RunError>) -> Result<
    Option<Seq<char>>,
    RunErrorView,
> {
    match res {
        Ok(etag) => Ok(etag.deep_view()),
        Err(err) => Err(err@),
    }
}

/// Decides how the run ends after the fetch failed with `err`.
pub fn handle_file_errors(err: FileError) -> (outcome: Outcome)
    ensures
        outcome@ == outcome_of(err@),
{
    match err {
        FileError::NotFound => Outcome::Abort(String::from_str("File not found")),
        FileError::NotModified => Outcome::Exit(NOT_MODIFIED_STATUS),
        FileError::Unauthorized(cause) => {
            let mut diagnostic = String::from_str("Auth failed: ");
            diagnostic.append(cause.as_str());
            Outcome::Abort(diagnostic)
        },
        FileError::Unknown(cause) => {
            let mut diagnostic = String::from_str("Unknown fetch error occurred: ");
            diagnostic.append(cause.as_str());
            Outcome::Abort(diagnostic)
        },
    }
}

/// Runs once: fetches the rule list `infile` by `send`, parses it, renders
/// the rules and writes the document to `outfile` by `put`. The stages
/// follow one another and none is tried twice; the first failure ends the
/// run, so that a list that does not parse is never written. On success
/// the run returns the entity tag of the fetched list, if the store sent
/// one, for the caller to report.
pub fn run<S, P>(
    infile: &str,
    outfile: &str,
    etag: Option<&str>,
    config: &Config,
    send: S,
    put: P,
) -> (res: Result<Option<String>, RunError>) where
    S: FnOnce(ObjectRequest) -> Result<ObjectResponse, StoreError>,
    P: FnOnce(&str, &[u8]) -> Result<(), String>,

    requires
        forall|request: ObjectRequest|
            bucket_of(*config) == Ok::<_, Seq<char>>(request@.bucket) ==> call_requires(
                send,
                (request,),
            ),
        forall|path: &str, bytes: &[u8]| path@ == outfile@ ==> call_requires(put, (path, bytes)),
    ensures
        match bucket_of(*config) {
            Err(text) => run_result(res) == Err::<Option<Seq<char>>, _>(
                RunErrorView::Fetch(FileErrorView::Unauthorized(text)),
            ),
            Ok(name) => exists|request: ObjectRequest, outcome: Result<ObjectResponse, StoreError>|
                request@ == request_for(name, infile@, etag) && call_ensures(
                    send,
                    (request,),
                    outcome,
                ) && match settle(etag is Some, outcome) {
                    Err(failure) => run_result(res) == Err::<Option<Seq<char>>, _>(
                        RunErrorView::Fetch(failure),
                    ),
                    Ok(file) => match document_of(file.bytes) {
                        Err(failure) => run_result(res) == Err::<Option<Seq<char>>, _>(
                            RunErrorView::Parse(failure),
                        ),
                        Ok(conf) => exists|path: &str, bytes: &[u8], written: Result<(), String>|
                            path@ == outfile@ && bytes@ == encode_utf8(conf) && call_ensures(
                                put,
                                (path, bytes),
                                written,
                            ) && run_result(res) == concluded(file.etag, written),
                    },
                },
        },
{
    let file = match fetch(infile, etag, config, send) {
        Ok(file) => file,
        Err(err) => return Err(RunError::Fetch(err)),
    };
    let updated_etag = file.etag();
    let parser = Parser::new(file.into_reader());

    let rules = match parser.into_rules() {
        Ok(rules) => rules,
        Err(err) => return Err(RunError::Parse(err)),
    };
    let conf = build_conf(rules.as_slice());

    let writer = Writer::new(outfile);
    match writer.write(conf.as_str(), put) {
        Ok(_) => Ok(updated_etag),
        Err(err) => Err(RunError::Write(err)),
    }
}

} // verus!
