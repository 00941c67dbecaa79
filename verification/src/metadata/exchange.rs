//! What passes between a fetch and the driver that performs its outside work.
//!
//! A fetch never touches the outside world. It names the next thing to be
//! done as a [`Request`]; the driver does it and hands back a [`Reply`].

use vstd::prelude::*;

use crate::metadata::openlibrary::{Author, AuthorView, Edition, EditionView, Work, WorkView};
use crate::metadata::text::texts;
use crate::metadata::{BookDetails, NullableBookDetails};

verus! {

/// The kinds of JSON document that the bibliographic service serves.
#[derive(Debug, Clone, Copy, PartialEq, Eq, Structural)]
pub enum Resource {
    Edition,
    Work,
    Author,
}

/// Where and why a JSON document did not have the expected shape.
#[derive(Debug, PartialEq, Eq)]
pub struct JsonFailure {
    /// Path of the field at which decoding failed.
    pub path: String,
    pub message: String,
}

pub struct JsonFailureView {
    pub path: Seq<char>,
    pub message: Seq<char>,
}

impl View for JsonFailure {
    type V = JsonFailureView;

    open spec fn view(&self) -> JsonFailureView {
        JsonFailureView { path: self.path@, message: self.message@ }
    }
}

/// Outside work that a fetch asks for.
#[derive(Debug, PartialEq, Eq)]
pub enum Request {
    /// Create an empty temporary file whose name ends in `.jpg`, for the
    /// cover. It lives until the fetch is over, however the fetch ends.
    CreateCoverFile,
    /// Run `program` with `arguments` followed by the path of the temporary
    /// file, and wait for it to exit.
    RunFetcher { program: String, arguments: Vec<String> },
    /// Read the temporary file to its end.
    ReadCover,
    /// Build an HTTP client that introduces itself as `user_agent`.
    Connect { user_agent: String },
    /// Send a GET request and report the status of the response.
    Get { url: String },
    /// Read the body of the response just received and decode it.
    Read(Resource),
    /// Send a GET request and read the body of the response, whatever its
    /// status.
    GetBytes { url: String },
}

pub enum RequestView {
    CreateCoverFile,
    RunFetcher { program: Seq<char>, arguments: Seq<Seq<char>> },
    ReadCover,
    Connect { user_agent: Seq<char> },
    Get { url: Seq<char> },
    Read(Resource),
    GetBytes { url: Seq<char> },
}

impl View for Request {
    type V = RequestView;

    open spec fn view(&self) -> RequestView {
        match *self {
            Request::CreateCoverFile => RequestView::CreateCoverFile,
            Request::RunFetcher { program, arguments } => RequestView::RunFetcher {
                program: program@,
                arguments: texts(arguments@),
            },
            Request::ReadCover => RequestView::ReadCover,
            Request::Connect { user_agent } => RequestView::Connect { user_agent: user_agent@ },
            Request::Get { url } => RequestView::Get { url: url@ },
            Request::Read(resource) => RequestView::Read(resource),
            Request::GetBytes { url } => RequestView::GetBytes { url: url@ },
        }
    }
}

/// What came of a request.
#[derive(Debug, PartialEq, Eq)]
pub enum Reply {
    /// The work could not be done: the text of the operating system's or the
    /// transport's error.
    Failed(String),
    /// The temporary file exists, or the client is built.
    Ready,
    /// The program ran and exited.
    Exited { success: bool, stdout: Vec<u8>, stderr: Vec<u8> },
    /// The bytes that were read.
    Bytes(Vec<u8>),
    /// The status code of a response.
    Status(u16),
    Edition(Edition),
    Work(Work),
    Author(Author),
    /// The body was read, but is no JSON document of the expected shape.
    Malformed(JsonFailure),
}

pub enum ReplyView {
    Failed(Seq<char>),
    Ready,
    Exited { success: bool, stdout: Seq<u8>, stderr: Seq<u8> },
    Bytes(Seq<u8>),
    Status(u16),
    Edition(EditionView),
    Work(WorkView),
    Author(AuthorView),
    Malformed(JsonFailureView),
}

impl View for Reply {
    type V = ReplyView;

    open spec fn view(&self) -> ReplyView {
        match *self {
            Reply::Failed(reason) => ReplyView::Failed(reason@),
            Reply::Ready => ReplyView::Ready,
            Reply::Exited { success, stdout, stderr } => ReplyView::Exited {
                success,
                stdout: stdout@,
                stderr: stderr@,
            },
            Reply::Bytes(bytes) => ReplyView::Bytes(bytes@),
            Reply::Status(code) => ReplyView::Status(code),
            Reply::Edition(edition) => ReplyView::Edition(edition@),
            Reply::Work(work) => ReplyView::Work(work@),
            Reply::Author(author) => ReplyView::Author(author@),
            Reply::Malformed(failure) => ReplyView::Malformed(failure@),
        }
    }
}

/// How a fetch ended: with a record, with the finding that the provider has
/// none, or with the provider's error.
pub open spec fn outcome_view<E: View>(outcome: Result<Option<NullableBookDetails>, E>) -> Result<
    Option<BookDetails>,
    E::V,
> {
    match outcome {
        Ok(Some(details)) => Ok(Some(details@)),
        Ok(None) => Ok(None),
        Err(e) => Err(e@),
    }
}

/// What a fetch does with a reply: it goes on in a new state, or it is over.
#[derive(Debug)]
pub enum Step<S, E> {
    Next(S),
    Done(Result<Option<NullableBookDetails>, E>),
}

pub enum StepView<S, E> {
    Next(S),
    Done(Result<Option<BookDetails>, E>),
}

impl<S: View, E: View> View for Step<S, E> {
    type V = StepView<S::V, E::V>;

    open spec fn view(&self) -> StepView<S::V, E::V> {
        match *self {
            Step::Next(state) => StepView::Next(state@),
            Step::Done(outcome) => StepView::Done(outcome_view(outcome)),
        }
    }
}

} // verus!
