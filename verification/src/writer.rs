//! Writes the configuration document to its file.

use vstd::prelude::*;
use vstd::string::StringExecFns;
use vstd::string::StringSliceAdditionalSpecFns;

verus! {

/// The destination of the configuration document: the path of a file that
/// is created, or emptied, and then filled with the document.
pub struct Writer {
    outfile: String,
}

/// Why the document could not be written.
#[derive(Debug, PartialEq, Eq)]
pub enum WriteError {
    /// Creating or filling the file failed, with this cause.
    IoFailure(String),
}

/// A write failure, mathematically.
pub enum WriteErrorView {
    IoFailure(Seq<char>),
}

impl View for Writer {
    type V = Seq<char>;

    closed spec fn view(&self) -> Seq<char> {
        self.outfile@
    }
}

impl View for WriteError {
    type V = WriteErrorView;

    open spec fn view(&self) -> WriteErrorView {
        match self {
            WriteError::IoFailure(cause) => WriteErrorView::IoFailure(cause@),
        }
    }
}

/// What a write returns for each outcome of filling the file.
pub open spec fn written(outcome: Result<(), String>) -> Result<(), WriteErrorView> {
    match outcome {
        Ok(()) => Ok(()),
        Err(cause) => Err(WriteErrorView::IoFailure(cause@)),
    }
}

/// The views of a write's result.
pub open spec fn write_result(res: Result<(), WriteError>) -> Result<(), WriteErrorView> {
    match res {
        Ok(()) => Ok(()),
        Err(err) => Err(err@),
    }
}

impl Writer {
    /// A writer to the file at `outfile`.
    pub fn new(outfile: &str) -> (writer: Self)
        ensures
            writer@ == outfile@,
    {
        Self { outfile: String::from_str(outfile) }
    }

    /// The path of the file to write.
    pub fn outfile(&self) -> (path: &str)
        ensures
            path@ == self@,
    {
        self.outfile.as_str()
    }

    /// Writes `contents` to the file, whole and in one pass: `put` is handed
    /// the path and the bytes of `contents`, and is to create the file, or
    /// empty it, and fill it. A failure of `put` is the failure of the
    /// write, with its cause; nothing is tried again.
    pub fn write<P>(&self, contents: &str, put: P) -> (res: Result<(), WriteError>) where
        P: FnOnce(&str, &[u8]) -> Result<(), String>,

        requires
            forall|path: &str, bytes: &[u8]|
                path@ == self@ && bytes@ == contents.spec_bytes() ==> call_requires(
                    put,
                    (path, bytes),
                ),
        ensures
            exists|path: &str, bytes: &[u8], outcome: Result<(), String>|
                path@ == self@ && bytes@ == contents.spec_bytes() && call_ensures(
                    put,
                    (path, bytes),
                    outcome,
                ) && write_result(res) == written(outcome),
    {
        match put(self.outfile.as_str(), contents.as_bytes()) {
            Ok(_) => Ok(()),
            Err(cause) => Err(WriteError::IoFailure(cause)),
        }
    }
}

} // verus!
