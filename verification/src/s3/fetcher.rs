//! The conditional fetch: what is asked of the object store, and how each
//! of its answers is classified.

use crate::s3::creds::{bucket, bucket_of, Config};
use vstd::prelude::*;
use vstd::string::StringExecFns;

verus! {

/// What is asked of the object store: one object of one bucket, with the
/// entity tag of the copy that the caller already holds, if any.
#[derive(Debug, PartialEq, Eq)]
pub struct ObjectRequest {
    pub bucket: String,
    pub key: String,
    pub if_none_match: Option<String>,
}

/// The payload of an answer, as far as the transport could read it.
#[derive(Debug, PartialEq, Eq)]
pub enum Body {
    /// The answer carried no payload.
    Absent,
    /// The payload, read to its end.
    Read(Vec<u8>),
    /// Reading the payload failed, with this cause.
    Failed(String),
}

/// An answer of the object store to an `ObjectRequest`.
#[derive(Debug, PartialEq, Eq)]
pub struct ObjectResponse {
    pub body: Body,
    pub e_tag: Option<String>,
}

/// A failure of the object store or of the transport, by kind, each with
/// the text of its cause.
#[derive(Debug, PartialEq, Eq)]
pub enum StoreError {
    /// The key does not exist.
    NoSuchKey(String),
    /// The request could not be dispatched.
    HttpDispatch(String),
    /// The store rejected the credentials, or none could be had.
    Credentials(String),
    /// The store found the request invalid.
    Validation(String),
    /// A failure that the transport could not classify.
    Unknown(String),
}

/// The fetched object: its payload, which holds at least one byte, and the
/// entity tag that the store sent with it, if any.
#[derive(Debug)]
pub struct File {
    etag: Option<String>,
    bytes: Vec<u8>,
}

/// Why a fetch gave no file.
#[derive(Debug, PartialEq, Eq)]
pub enum FileError {
    /// The key does not exist.
    NotFound,
    /// The remote object is the one that the caller already holds.
    NotModified,
    /// A setting is missing, or the store rejected the credentials.
    Unauthorized(String),
    /// Any other failure, with the text of its cause.
    Unknown(String),
}

/// A request, mathematically.
pub struct RequestView {
    pub bucket: Seq<char>,
    pub key: Seq<char>,
    pub if_none_match: Option<Seq<char>>,
}

/// A fetched object, mathematically.
pub struct FileView {
    pub etag: Option<Seq<char>>,
    pub bytes: Seq<u8>,
}

/// A fetch failure, mathematically.
pub enum FileErrorView {
    NotFound,
    NotModified,
    Unauthorized(Seq<char>),
    Unknown(Seq<char>),
}

impl View for ObjectRequest {
    type V = RequestView;

    open spec fn view(&self) -> RequestView {
        RequestView {
            bucket: self.bucket@,
            key: self.key@,
            if_none_match: self.if_none_match.deep_view(),
        }
    }
}

impl View for File {
    type V = FileView;

    closed spec fn view(&self) -> FileView {
        FileView { etag: self.etag.deep_view(), bytes: self.bytes@ }
    }
}

impl View for FileError {
    type V = FileErrorView;

    open spec fn view(&self) -> FileErrorView {
        match self {
            FileError::NotFound => FileErrorView::NotFound,
            FileError::NotModified => FileErrorView::NotModified,
            FileError::Unauthorized(cause) => FileErrorView::Unauthorized(cause@),
            FileError::Unknown(cause) => FileErrorView::Unknown(cause@),
        }
    }
}

/// The text that stands for the cause where the store sent no payload.
pub open spec fn file_empty_text() -> Seq<char> {
    "File empty"@
}

/// The kind of fetch failure that a failure of the store counts as. A
/// failure that the transport could not classify counts as "not modified"
/// exactly when the request was conditional.
pub open spec fn classify(err: StoreError, conditional: bool) -> FileErrorView {
    match err {
        StoreError::NoSuchKey(_) => FileErrorView::NotFound,
        StoreError::HttpDispatch(cause) => FileErrorView::Unknown(cause@),
        StoreError::Credentials(cause) => FileErrorView::Unauthorized(cause@),
        StoreError::Validation(cause) => FileErrorView::Unknown(cause@),
        StoreError::Unknown(cause) => if conditional {
            FileErrorView::NotModified
        } else {
            FileErrorView::Unknown(cause@)
        },
    }
}

/// The payload that a body yields: its bytes where it was read and holds
/// at least one, else a failure of unknown kind.
pub open spec fn payload(body: Body) -> Result<Seq<u8>, FileErrorView> {
    match body {
        Body::Absent => Err(FileErrorView::Unknown(file_empty_text())),
        Body::Read(bytes) => if bytes@.len() == 0 {
            Err(FileErrorView::Unknown(file_empty_text()))
        } else {
            Ok(bytes@)
        },
        Body::Failed(cause) => Err(FileErrorView::Unknown(cause@)),
    }
}

/// What a fetch returns for each outcome of its one request.
pub open spec fn settle(conditional: bool, outcome: Result<ObjectResponse, StoreError>) -> Result<
    FileView,
    FileErrorView,
> {
    match outcome {
        Err(err) => Err(classify(err, conditional)),
        Ok(response) => match payload(response.body) {
            Err(failure) => Err(failure),
            Ok(bytes) => Ok(FileView { etag: response.e_tag.deep_view(), bytes }),
        },
    }
}

/// The request that a fetch of `key` makes in `bucket`.
pub open spec fn request_for(bucket: Seq<char>, key: Seq<char>, etag: Option<&str>) -> RequestView {
    RequestView {
        bucket,
        key,
        if_none_match: match etag {
            Some(tag) => Some(tag@),
            None => None,
        },
    }
}

/// The views of a fetch's result.
pub open spec fn fetched(res: Result<File, FileError>) -> Result<FileView, FileErrorView> {
    match res {
        Ok(file) => Ok(file@),
        Err(err) => Err(err@),
    }
}

/// Classifies a failure of the store.
pub fn normalize_s3_error(err: StoreError, etag: Option<&str>) -> (res: FileError)
    ensures
        res@ == classify(err, etag is Some),
{
    match err {
        StoreError::NoSuchKey(_) => FileError::NotFound,
        StoreError::HttpDispatch(cause) => FileError::Unknown(cause),
        StoreError::Credentials(cause) => FileError::Unauthorized(cause),
        StoreError::Validation(cause) => FileError::Unknown(cause),
        StoreError::Unknown(cause) => {
            match etag {
                Some(_) => FileError::NotModified,
                None => FileError::Unknown(cause),
            }
        },
    }
}

/// Builds the request for `infile`, conditional on `etag` where one is
/// given. Without a bucket in `config` there is nothing to ask: the fetch
/// is unauthorized.
pub fn build_s3_request(infile: &str, etag: Option<&str>, config: &Config) -> (res: Result<
    ObjectRequest,
    FileError,
>)
    ensures
        match bucket_of(*config) {
            Ok(name) => res matches Ok(request) && request@ == request_for(name, infile@, etag),
            Err(text) => res matches Err(err) && err@ == FileErrorView::Unauthorized(text),
        },
{
    match bucket(config) {
        Ok(bucket) => Ok(
            ObjectRequest {
                bucket,
                if_none_match: match etag {
                    Some(tag) => Some(String::from_str(tag)),
                    None => None,
                },
                key: String::from_str(infile),
            },
        ),
        Err(err) => Err(FileError::Unauthorized(err.message)),
    }
}

/// The bytes of a body. A body that is absent, or that holds no byte, is
/// a failure and never an empty file.
pub fn read_s3_body(body: Body) -> (res: Result<Vec<u8>, FileError>)
    ensures
        match payload(body) {
            Ok(bytes) => res matches Ok(read) && read@ == bytes,
            Err(failure) => res matches Err(err) && err@ == failure,
        },
{
    match body {
        Body::Absent => Err(FileError::Unknown(String::from_str("File empty"))),
        Body::Read(bytes) => {
            if bytes.len() == 0 {
                Err(FileError::Unknown(String::from_str("File empty")))
            } else {
                Ok(bytes)
            }
        },
        Body::Failed(cause) => Err(FileError::Unknown(cause)),
    }
}

impl File {
    /// A fetched object is never empty.
    #[verifier::type_invariant]
    spec fn well_formed(self) -> bool {
        self.bytes@.len() > 0
    }

    /// What the fetch returns once its request has been answered with
    /// `outcome`; `etag` is the tag that the request was conditional on.
    pub fn from_outcome(etag: Option<&str>, outcome: Result<ObjectResponse, StoreError>) -> (res:
        Result<File, FileError>)
        ensures
            fetched(res) == settle(etag is Some, outcome),
    {
        let response = match outcome {
            Ok(response) => response,
            Err(err) => return Err(normalize_s3_error(err, etag)),
        };

        let bytes = match read_s3_body(response.body) {
            Ok(bytes) => bytes,
            Err(err) => return Err(err),
        };

        Ok(File { bytes, etag: response.e_tag })
    }

    /// Consumes the file and hands out its payload, to be read once.
    pub fn into_reader(self) -> (bytes: Vec<u8>)
        ensures
            bytes@ == self@.bytes,
            bytes@.len() > 0,
    {
        proof {
            use_type_invariant(&self);
        }
        self.bytes
    }

    /// The entity tag that the store sent with the file, if any.
    pub fn etag(&self) -> (tag: Option<String>)
        ensures
            tag.deep_view() == self@.etag,
    {
        match &self.etag {
            Some(tag) => Some(tag.clone()),
            None => None,
        }
    }
}

/// Fetches the object `infile` from the bucket that `config` names, by one
/// request handed to `send`. With an `etag` the request is conditional on
/// it. Without a bucket in `config` the fetch is unauthorized and nothing is
/// sent.
pub fn fetch<F>(infile: &str, etag: Option<&str>, config: &Config, send: F) -> (res: Result<
    File,
    FileError,
>) where F: FnOnce(ObjectRequest) -> Result<ObjectResponse, StoreError>
    requires
        forall|request: ObjectRequest|
            bucket_of(*config) == Ok::<_, Seq<char>>(request@.bucket) ==> call_requires(
                send,
                (request,),
            ),
    ensures
        match bucket_of(*config) {
            Err(text) => fetched(res) == Err::<FileView, _>(FileErrorView::Unauthorized(text)),
            Ok(name) => exists|request: ObjectRequest, outcome: Result<ObjectResponse, StoreError>|
                request@ == request_for(name, infile@, etag) && call_ensures(
                    send,
                    (request,),
                    outcome,
                ) && fetched(res) == settle(etag is Some, outcome),
        },
{
    let request = match build_s3_request(infile, etag, config) {
        Ok(request) => request,
        Err(err) => return Err(err),
    };

    let outcome = send(request);

    File::from_outcome(etag, outcome)
}

} // verus!
