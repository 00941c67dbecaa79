//! The local tool: a command-line program that, given an ISBN, prints an OPF
//! package document and writes the cover image to a file.

use vstd::prelude::*;
use vstd::utf8::{decode_utf8, valid_utf8};

use crate::config::CalibreConfig;
use crate::metadata::date::{parse_rfc3339_day, rfc3339_day, CalendarDate};
use crate::metadata::exchange::{outcome_view, Reply, ReplyView, Request, RequestView, Step, StepView};
use crate::metadata::opf::{
    fields_of, lemma_first_selected_exists, lemma_first_selected_none, opf_fields, selects, tag, OpfFields,
    OpfFieldsView,
};
use crate::metadata::text::{base64_encode, base64_text, decode, opt_text, texts};
use crate::metadata::xml::{parse_xml, xml_tree, NodeView};
use crate::metadata::{BookDetails, NullableBookDetails};

verus! {

/// Why the local tool gave no answer.
#[derive(Debug)]
pub enum CalibreMetadataError {
    /// The program could not be started.
    Launch(String),
    /// The program's output is not UTF-8.
    InvalidResponse(core::str::Utf8Error),
    /// The program's output is not well-formed XML.
    InvalidXmlResponse(roxmltree::Error),
    /// The document's date is not an RFC 3339 date and time.
    InvalidDate(chrono::ParseError),
    /// The file for the cover could not be created or read.
    CoverArt(String),
    /// The program ran and reported failure.
    FetchFailure { stdout: Vec<u8>, stderr: Vec<u8> },
}

/// The model of a [`CalibreMetadataError`]: which error it is, and what the
/// driver or the tool reported.
pub enum CalibreFailure {
    Launch(Seq<char>),
    InvalidResponse,
    InvalidXmlResponse,
    InvalidDate,
    CoverArt(Seq<char>),
    FetchFailure { stdout: Seq<u8>, stderr: Seq<u8> },
}

impl View for CalibreMetadataError {
    type V = CalibreFailure;

    open spec fn view(&self) -> CalibreFailure {
        match *self {
            CalibreMetadataError::Launch(reason) => CalibreFailure::Launch(reason@),
            CalibreMetadataError::InvalidResponse(_) => CalibreFailure::InvalidResponse,
            CalibreMetadataError::InvalidXmlResponse(_) => CalibreFailure::InvalidXmlResponse,
            CalibreMetadataError::InvalidDate(_) => CalibreFailure::InvalidDate,
            CalibreMetadataError::CoverArt(reason) => CalibreFailure::CoverArt(reason@),
            CalibreMetadataError::FetchFailure { stdout, stderr } => CalibreFailure::FetchFailure {
                stdout: stdout@,
                stderr: stderr@,
            },
        }
    }
}

impl CalibreMetadataError {
    /// A sentence that says what went wrong.
    pub fn message(&self) -> (r: &'static str)
        ensures
            r@ == (match self@ {
                CalibreFailure::Launch(_) => "Could not launch metadata fetcher"@,
                CalibreFailure::InvalidResponse => "Response is not a valid utf-8 document"@,
                CalibreFailure::InvalidXmlResponse => "Response is not a valid xml document"@,
                CalibreFailure::InvalidDate => "Response contains an invalid date"@,
                CalibreFailure::CoverArt(_) => "Could not read the cover art"@,
                CalibreFailure::FetchFailure { .. } => "Fetcher failed to get the metadata"@,
            }),
    {
        match self {
            CalibreMetadataError::Launch(_) => "Could not launch metadata fetcher",
            CalibreMetadataError::InvalidResponse(_) => "Response is not a valid utf-8 document",
            CalibreMetadataError::InvalidXmlResponse(_) => "Response is not a valid xml document",
            CalibreMetadataError::InvalidDate(_) => "Response contains an invalid date",
            CalibreMetadataError::CoverArt(_) => "Could not read the cover art",
            CalibreMetadataError::FetchFailure { .. } => "Fetcher failed to get the metadata",
        }
    }
}

/// The record made of a document's fields, its parsed date and its encoded
/// cover. The tool knows nothing of page counts, of series, or of whether the
/// book was read or is owned.
pub open spec fn record_of(fields: OpfFieldsView, published: Option<CalendarDate>, cover: Option<Seq<char>>) -> BookDetails {
    BookDetails {
        isbn: fields.isbn,
        title: fields.title,
        authors: fields.authors,
        tags: fields.tags,
        summary: fields.summary,
        published,
        publisher: fields.publisher,
        language: fields.language,
        google_id: fields.google_id,
        amazon_id: fields.amazon_id,
        librarything_id: None,
        page_count: None,
        read: false,
        owned: false,
        covert_art_b64: cover,
        series: None,
    }
}

/// Makes the record of a document's fields, its parsed date and its encoded
/// cover.
pub fn opf_record(fields: OpfFields, published: Option<CalendarDate>, cover: Option<String>) -> (r: NullableBookDetails)
    ensures
        r@ == record_of(fields@, published, opt_text(cover)),
{
    NullableBookDetails {
        isbn: fields.isbn,
        title: fields.title,
        authors: fields.authors,
        tags: fields.tags,
        summary: fields.summary,
        published,
        publisher: fields.publisher,
        language: fields.language,
        google_id: fields.google_id,
        amazon_id: fields.amazon_id,
        librarything_id: None,
        page_count: None,
        read: false,
        owned: false,
        covert_art_b64: cover,
        series: None,
    }
}

/// The cover as it goes into a record: nothing for an empty image, else its
/// base64 text.
pub open spec fn cover_text(image: Seq<u8>) -> Option<Seq<char>> {
    if image.len() == 0 {
        None
    } else {
        Some(base64_text(image))
    }
}

/// What a parsed document and a cover image amount to.
///
/// Text that is not well-formed XML is an error. A document without a
/// metadata element is a clean "nothing found". A date that is present must
/// be an RFC 3339 date and time.
pub open spec fn opf_outcome(tree: Option<Seq<NodeView>>, image: Seq<u8>) -> Result<Option<BookDetails>, CalibreFailure> {
    match tree {
        None => Err(CalibreFailure::InvalidXmlResponse),
        Some(nodes) => match fields_of(nodes) {
            None => Ok(None),
            Some(fields) => match fields.date {
                None => Ok(Some(record_of(fields, None, cover_text(image)))),
                Some(date) => match rfc3339_day(date) {
                    None => Err(CalibreFailure::InvalidDate),
                    Some(day) => Ok(Some(record_of(fields, Some(day), cover_text(image)))),
                },
            },
        },
    }
}

/// Reads a book's record out of an OPF package document and the bytes of its
/// cover image. The publication date of a record is a day of the calendar.
pub fn parse_opf(document: &str, cover_art: &[u8]) -> (r: Result<Option<NullableBookDetails>, CalibreMetadataError>)
    ensures
        outcome_view(r) == opf_outcome(xml_tree(document@), cover_art@),
        r matches Ok(Some(record)) ==> (record.published matches Some(day) ==> day.wf()),
{
    let nodes = match parse_xml(document) {
        Ok(nodes) => nodes,
        Err(e) => {
            return Err(CalibreMetadataError::InvalidXmlResponse(e));
        },
    };
    let fields = match opf_fields(&nodes) {
        Some(fields) => fields,
        None => {
            return Ok(None);
        },
    };
    let published = match &fields.date {
        Some(date) => match parse_rfc3339_day(date.as_str()) {
            Ok(day) => Some(day),
            Err(e) => {
                return Err(CalibreMetadataError::InvalidDate(e));
            },
        },
        None => None,
    };
    let cover = if cover_art.len() == 0 {
        None
    } else {
        Some(base64_encode(cover_art))
    };
    Ok(Some(opf_record(fields, published, cover)))
}

/// What the output of a successful run and the cover file amount to.
pub open spec fn output_outcome(stdout: Seq<u8>, image: Seq<u8>) -> Result<Option<BookDetails>, CalibreFailure> {
    if valid_utf8(stdout) {
        opf_outcome(xml_tree(decode_utf8(stdout)), image)
    } else {
        Err(CalibreFailure::InvalidResponse)
    }
}

/// Reads a book's record out of what the tool printed and the cover it wrote.
/// The publication date of a record is a day of the calendar.
pub fn parse_output(stdout: &[u8], image: &[u8]) -> (r: Result<Option<NullableBookDetails>, CalibreMetadataError>)
    ensures
        outcome_view(r) == output_outcome(stdout@, image@),
        r matches Ok(Some(record)) ==> (record.published matches Some(day) ==> day.wf()),
{
    match decode(stdout) {
        Ok(document) => parse_opf(document, image),
        Err(e) => Err(CalibreMetadataError::InvalidResponse(e)),
    }
}

/// A fetch from the local tool, at rest between two pieces of outside work.
#[derive(Debug)]
pub enum CalibreFetch {
    /// Waiting for the temporary file that will receive the cover.
    CreatingCoverFile { fetcher: String, isbn: String },
    /// Waiting for the program to exit.
    Running { fetcher: String, isbn: String },
    /// The program succeeded and printed `stdout`; waiting for the cover.
    ReadingCover { stdout: Vec<u8> },
}

/// The model of a [`CalibreFetch`].
pub enum CalibreStage {
    CreatingCoverFile { fetcher: Seq<char>, isbn: Seq<char> },
    Running { fetcher: Seq<char>, isbn: Seq<char> },
    ReadingCover { stdout: Seq<u8> },
}

impl View for CalibreFetch {
    type V = CalibreStage;

    open spec fn view(&self) -> CalibreStage {
        match *self {
            CalibreFetch::CreatingCoverFile { fetcher, isbn } => CalibreStage::CreatingCoverFile {
                fetcher: fetcher@,
                isbn: isbn@,
            },
            CalibreFetch::Running { fetcher, isbn } => CalibreStage::Running { fetcher: fetcher@, isbn: isbn@ },
            CalibreFetch::ReadingCover { stdout } => CalibreStage::ReadingCover { stdout: stdout@ },
        }
    }
}

/// The arguments the tool is run with. The driver adds the path of the cover
/// file behind them.
pub open spec fn fetcher_arguments(isbn: Seq<char>) -> Seq<Seq<char>> {
    seq!["--isbn"@, isbn, "--opf"@, "--cover"@]
}

impl CalibreStage {
    /// The outside work the fetch is waiting for.
    pub open spec fn pending(self) -> RequestView {
        match self {
            CalibreStage::CreatingCoverFile { .. } => RequestView::CreateCoverFile,
            CalibreStage::Running { fetcher, isbn } => RequestView::RunFetcher {
                program: fetcher,
                arguments: fetcher_arguments(isbn),
            },
            CalibreStage::ReadingCover { .. } => RequestView::ReadCover,
        }
    }

    /// What the fetch does with a reply. A reply that does not answer the
    /// pending request changes nothing: the fetch asks again.
    pub open spec fn next(self, reply: ReplyView) -> StepView<CalibreStage, CalibreFailure> {
        match (self, reply) {
            (CalibreStage::CreatingCoverFile { fetcher, isbn }, ReplyView::Ready) => StepView::Next(
                CalibreStage::Running { fetcher, isbn },
            ),
            (CalibreStage::CreatingCoverFile { .. }, ReplyView::Failed(reason)) => StepView::Done(
                Err(CalibreFailure::CoverArt(reason)),
            ),
            (CalibreStage::Running { .. }, ReplyView::Exited { success, stdout, stderr }) => if success {
                StepView::Next(CalibreStage::ReadingCover { stdout })
            } else {
                StepView::Done(Err(CalibreFailure::FetchFailure { stdout, stderr }))
            },
            (CalibreStage::Running { .. }, ReplyView::Failed(reason)) => StepView::Done(
                Err(CalibreFailure::Launch(reason)),
            ),
            (CalibreStage::ReadingCover { stdout }, ReplyView::Bytes(image)) => StepView::Done(
                output_outcome(stdout, image),
            ),
            (CalibreStage::ReadingCover { .. }, ReplyView::Failed(reason)) => StepView::Done(
                Err(CalibreFailure::CoverArt(reason)),
            ),
            _ => StepView::Next(self),
        }
    }
}

impl CalibreFetch {
    /// Begins a fetch for an ISBN, written without separators.
    pub fn start(config: &CalibreConfig, isbn: &str) -> (r: CalibreFetch)
        ensures
            r@ == (CalibreStage::CreatingCoverFile { fetcher: config.fetcher@, isbn: isbn@ }),
    {
        CalibreFetch::CreatingCoverFile { fetcher: config.fetcher.clone(), isbn: isbn.to_owned() }
    }

    /// The outside work the fetch is waiting for.
    pub fn request(&self) -> (r: Request)
        ensures
            r@ == self@.pending(),
    {
        match self {
            CalibreFetch::CreatingCoverFile { .. } => Request::CreateCoverFile,
            CalibreFetch::Running { fetcher, isbn } => {
                let mut arguments: Vec<String> = Vec::new();
                arguments.push("--isbn".to_owned());
                arguments.push(isbn.clone());
                arguments.push("--opf".to_owned());
                arguments.push("--cover".to_owned());
                assert(texts(arguments@) =~= fetcher_arguments(isbn@));
                Request::RunFetcher { program: fetcher.clone(), arguments }
            },
            CalibreFetch::ReadingCover { .. } => Request::ReadCover,
        }
    }

    /// Takes the reply to the pending request and goes on, or ends the fetch.
    /// The publication date of a record is a day of the calendar.
    pub fn step(self, reply: Reply) -> (r: Step<CalibreFetch, CalibreMetadataError>)
        ensures
            r@ == self@.next(reply@),
            r matches Step::Done(Ok(Some(record))) ==> (record.published matches Some(day) ==> day.wf()),
    {
        match (self, reply) {
            (CalibreFetch::CreatingCoverFile { fetcher, isbn }, Reply::Ready) => Step::Next(
                CalibreFetch::Running { fetcher, isbn },
            ),
            (CalibreFetch::CreatingCoverFile { .. }, Reply::Failed(reason)) => Step::Done(
                Err(CalibreMetadataError::CoverArt(reason)),
            ),
            (CalibreFetch::Running { .. }, Reply::Exited { success, stdout, stderr }) => {
                if success {
                    Step::Next(CalibreFetch::ReadingCover { stdout })
                } else {
                    Step::Done(Err(CalibreMetadataError::FetchFailure { stdout, stderr }))
                }
            },
            (CalibreFetch::Running { .. }, Reply::Failed(reason)) => Step::Done(
                Err(CalibreMetadataError::Launch(reason)),
            ),
            (CalibreFetch::ReadingCover { stdout }, Reply::Bytes(image)) => Step::Done(
                parse_output(stdout.as_slice(), image.as_slice()),
            ),
            (CalibreFetch::ReadingCover { .. }, Reply::Failed(reason)) => Step::Done(
                Err(CalibreMetadataError::CoverArt(reason)),
            ),
            (state, _) => Step::Next(state),
        }
    }
}

/// A run of the tool that reports failure ends the fetch with an error that
/// carries what the tool printed, byte for byte, and a fetch ends with that
/// error in no other way.
pub proof fn lemma_failed_exit_is_reported(stage: CalibreStage, reply: ReplyView, stdout: Seq<u8>, stderr: Seq<u8>)
    ensures
        stage.next(reply) == StepView::<CalibreStage, CalibreFailure>::Done(
            Err(CalibreFailure::FetchFailure { stdout, stderr }),
        ) <==> stage is Running && reply == (ReplyView::Exited { success: false, stdout, stderr }),
{
    if stage is ReadingCover && reply is Bytes {
        let out = output_outcome(stage->ReadingCover_stdout, reply->Bytes_0);
        assert(!(out matches Err(CalibreFailure::FetchFailure { .. })));
    }
}

/// A well-formed document is a clean "nothing found" exactly where none of
/// its elements is named `metadata`.
pub proof fn lemma_absent_metadata(nodes: Seq<NodeView>, image: Seq<u8>)
    ensures
        opf_outcome(Some(nodes), image) == Ok::<Option<BookDetails>, CalibreFailure>(None) <==> forall|i: int|
            0 <= i < nodes.len() ==> (#[trigger] nodes[i]).name != "metadata"@,
{
    let whole = tag("metadata"@);
    if forall|i: int| 0 <= i < nodes.len() ==> (#[trigger] nodes[i]).name != "metadata"@ {
        assert forall|i: int| 0 <= i < nodes.len() implies !selects(whole, #[trigger] nodes[i]) by {}
        lemma_first_selected_none(nodes, whole);
    } else {
        let i = choose|i: int| 0 <= i < nodes.len() && (#[trigger] nodes[i]).name == "metadata"@;
        assert(selects(whole, nodes[i]));
        lemma_first_selected_exists(nodes, whole, i);
    }
}

} // verus!
