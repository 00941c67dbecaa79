//! The open bibliographic service: an edition, found by ISBN, names a work,
//! and the work names its authors. Each is a resource of its own.

use vstd::prelude::*;
use vstd::string::StringExecFns;

pub mod laws;

use crate::config::OpenLibraryConfig;
use crate::metadata::date::{is_reading, parse_publish_date, CalendarDate};
use crate::metadata::exchange::{
    JsonFailure, JsonFailureView, Reply, ReplyView, Request, RequestView, Resource, Step, StepView,
};
use crate::metadata::text::{
    base64_encode, base64_text, decimal, decimal_text, opt_text, str_eq, strip_prefix, texts, without_prefix,
};
use crate::metadata::{BookDetails, NullableBookDetails};

verus! {

/// A description written as an object with one `value` field.
#[derive(Debug, PartialEq, Eq)]
pub struct Text {
    pub value: String,
}

/// The service writes a description either as a bare string or wrapped in an
/// object.
#[derive(Debug, PartialEq, Eq)]
pub enum Description {
    Str(String),
    Value(Text),
}

pub enum DescriptionView {
    Str(Seq<char>),
    Value(Seq<char>),
}

impl DescriptionView {
    /// The plain text, whichever way it was written.
    pub open spec fn text(self) -> Seq<char> {
        match self {
            DescriptionView::Str(s) => s,
            DescriptionView::Value(s) => s,
        }
    }
}

impl View for Description {
    type V = DescriptionView;

    open spec fn view(&self) -> DescriptionView {
        match *self {
            Description::Str(s) => DescriptionView::Str(s@),
            Description::Value(t) => DescriptionView::Value(t.value@),
        }
    }
}

impl Description {
    /// The plain text, whichever way it was written.
    pub fn text(self) -> (r: String)
        ensures
            r@ == self@.text(),
    {
        match self {
            Description::Str(s) => s,
            Description::Value(v) => v.value,
        }
    }
}

/// The key of another resource.
#[derive(Debug, PartialEq, Eq)]
pub struct Reference {
    pub key: String,
}

/// One contributor of a work: who, and in which role.
#[derive(Debug, PartialEq, Eq)]
pub struct AuthorReference {
    pub author: Reference,
    pub ty: Reference,
}

pub struct AuthorReferenceView {
    /// Key of the author.
    pub author: Seq<char>,
    /// Key of the role.
    pub ty: Seq<char>,
}

impl View for AuthorReference {
    type V = AuthorReferenceView;

    open spec fn view(&self) -> AuthorReferenceView {
        AuthorReferenceView { author: self.author.key@, ty: self.ty.key@ }
    }
}

#[derive(Debug, PartialEq, Eq)]
pub struct Work {
    pub description: Option<Description>,
    pub subjects: Vec<String>,
    pub authors: Vec<AuthorReference>,
    pub title: Option<String>,
}

pub struct WorkView {
    pub description: Option<DescriptionView>,
    pub subjects: Seq<Seq<char>>,
    pub authors: Seq<AuthorReferenceView>,
    pub title: Option<Seq<char>>,
}

impl View for Work {
    type V = WorkView;

    open spec fn view(&self) -> WorkView {
        WorkView {
            description: match self.description {
                Some(d) => Some(d@),
                None => None,
            },
            subjects: texts(self.subjects@),
            authors: self.authors@.map_values(|a: AuthorReference| a@),
            title: opt_text(self.title),
        }
    }
}

#[derive(Debug, PartialEq, Eq)]
pub struct Edition {
    /// The publication date as free text.
    pub publish_date: Option<String>,
    pub publishers: Vec<String>,
    pub languages: Vec<Reference>,
    pub number_of_pages: Option<i32>,
    /// Identifiers of cover images.
    pub covers: Vec<i64>,
    pub works: Vec<Reference>,
}

pub struct EditionView {
    pub publish_date: Option<Seq<char>>,
    pub publishers: Seq<Seq<char>>,
    /// Keys of the languages.
    pub languages: Seq<Seq<char>>,
    pub number_of_pages: Option<i32>,
    pub covers: Seq<i64>,
    /// Keys of the works.
    pub works: Seq<Seq<char>>,
}

/// The keys of a sequence of references.
pub open spec fn keys(references: Seq<Reference>) -> Seq<Seq<char>> {
    references.map_values(|r: Reference| r.key@)
}

impl View for Edition {
    type V = EditionView;

    open spec fn view(&self) -> EditionView {
        EditionView {
            publish_date: opt_text(self.publish_date),
            publishers: texts(self.publishers@),
            languages: keys(self.languages@),
            number_of_pages: self.number_of_pages,
            covers: self.covers@,
            works: keys(self.works@),
        }
    }
}

#[derive(Debug, PartialEq, Eq)]
pub struct Author {
    pub name: Option<String>,
}

pub struct AuthorView {
    pub name: Option<Seq<char>>,
}

impl View for Author {
    type V = AuthorView;

    open spec fn view(&self) -> AuthorView {
        AuthorView { name: opt_text(self.name) }
    }
}

/// Why a request to the service came to nothing.
#[derive(Debug, PartialEq, Eq)]
pub enum RequestFailure {
    /// The request could not be sent or the response not read: the text of
    /// the transport's error.
    Transport(String),
    /// The service answered with a status that is neither a success nor 404.
    Status(u16),
}

pub enum RequestFailureView {
    Transport(Seq<char>),
    Status(u16),
}

impl View for RequestFailure {
    type V = RequestFailureView;

    open spec fn view(&self) -> RequestFailureView {
        match *self {
            RequestFailure::Transport(reason) => RequestFailureView::Transport(reason@),
            RequestFailure::Status(code) => RequestFailureView::Status(code),
        }
    }
}

/// Why the service gave no answer.
#[derive(Debug, PartialEq, Eq)]
pub enum OpenLibraryMetadataError {
    /// The HTTP client could not be built.
    MakeClient(String),
    /// A response is not a JSON document of the expected shape.
    Json(JsonFailure),
    /// A request failed in transport, or was answered with an error status.
    RequestError(RequestFailure),
    /// The edition names no work.
    MissingWork,
    /// A work or an author that another resource names does not exist.
    NotFound,
}

/// The model of an [`OpenLibraryMetadataError`].
pub enum OpenLibraryFailure {
    MakeClient(Seq<char>),
    Json(JsonFailureView),
    RequestError(RequestFailureView),
    MissingWork,
    NotFound,
}

impl View for OpenLibraryMetadataError {
    type V = OpenLibraryFailure;

    open spec fn view(&self) -> OpenLibraryFailure {
        match *self {
            OpenLibraryMetadataError::MakeClient(reason) => OpenLibraryFailure::MakeClient(reason@),
            OpenLibraryMetadataError::Json(failure) => OpenLibraryFailure::Json(failure@),
            OpenLibraryMetadataError::RequestError(failure) => OpenLibraryFailure::RequestError(failure@),
            OpenLibraryMetadataError::MissingWork => OpenLibraryFailure::MissingWork,
            OpenLibraryMetadataError::NotFound => OpenLibraryFailure::NotFound,
        }
    }
}

impl OpenLibraryFailure {
    /// A sentence that says what went wrong. For a malformed document it
    /// names the path of the field at which decoding failed.
    pub open spec fn message(self) -> Seq<char> {
        match self {
            OpenLibraryFailure::MakeClient(_) => "Could not make open library client"@,
            OpenLibraryFailure::Json(failure) => "Could not parse JSON response ("@ + failure.path + ": "@
                + failure.message + ")"@,
            OpenLibraryFailure::RequestError(_) => "Error in HTTP request"@,
            OpenLibraryFailure::MissingWork => "Work is missing from edition"@,
            OpenLibraryFailure::NotFound => "Expected resource was not found"@,
        }
    }
}

impl OpenLibraryMetadataError {
    /// A sentence that says what went wrong.
    pub fn message(&self) -> (r: String)
        ensures
            r@ == self@.message(),
    {
        match self {
            OpenLibraryMetadataError::MakeClient(_) => "Could not make open library client".to_owned(),
            OpenLibraryMetadataError::Json(failure) => {
                let mut text = "Could not parse JSON response (".to_owned();
                text.append(failure.path.as_str());
                text.append(": ");
                text.append(failure.message.as_str());
                text.append(")");
                text
            },
            OpenLibraryMetadataError::RequestError(_) => "Error in HTTP request".to_owned(),
            OpenLibraryMetadataError::MissingWork => "Work is missing from edition".to_owned(),
            OpenLibraryMetadataError::NotFound => "Expected resource was not found".to_owned(),
        }
    }
}

/// How this client introduces itself to the service.
pub open spec fn user_agent(contact: Seq<char>) -> Seq<char> {
    "github.com/traxys/bouquineur ("@ + contact + ")"@
}

/// Address of the edition with an ISBN.
pub open spec fn edition_url(isbn: Seq<char>) -> Seq<char> {
    "https://openlibrary.org/isbn/"@ + isbn + ".json"@
}

/// Address of the resource with a key.
pub open spec fn resource_url(key: Seq<char>) -> Seq<char> {
    "https://openlibrary.org/"@ + key + ".json"@
}

/// Address of a cover image, in its medium size.
pub open spec fn cover_url(id: i64) -> Seq<char> {
    "https://covers.openlibrary.org/b/id/"@ + decimal_text(id as int) + "-M.jpg"@
}

fn make_user_agent(contact: &str) -> (r: String)
    ensures
        r@ == user_agent(contact@),
{
    let mut text = "github.com/traxys/bouquineur (".to_owned();
    text.append(contact);
    text.append(")");
    text
}

fn make_edition_url(isbn: &str) -> (r: String)
    ensures
        r@ == edition_url(isbn@),
{
    let mut text = "https://openlibrary.org/isbn/".to_owned();
    text.append(isbn);
    text.append(".json");
    text
}

fn make_resource_url(key: &str) -> (r: String)
    ensures
        r@ == resource_url(key@),
{
    let mut text = "https://openlibrary.org/".to_owned();
    text.append(key);
    text.append(".json");
    text
}

fn make_cover_url(id: i64) -> (r: String)
    ensures
        r@ == cover_url(id),
{
    let mut text = "https://covers.openlibrary.org/b/id/".to_owned();
    text.append(decimal(id).as_str());
    text.append("-M.jpg");
    text
}

/// Whether a status code reports success.
pub open spec fn is_success(code: u16) -> bool {
    200 <= code <= 299
}

/// Whether a contributor's role is that of an author.
pub open spec fn is_author_role(reference: AuthorReferenceView) -> bool {
    reference.ty == "/type/author_role"@
}

/// The keys of the contributors whose role is that of an author, in the
/// order in which the work lists them.
pub open spec fn author_keys(authors: Seq<AuthorReferenceView>) -> Seq<Seq<char>> {
    authors.filter_map(
        |r: AuthorReferenceView|
            if is_author_role(r) {
                Some(r.author)
            } else {
                None
            },
    )
}

/// The first text of a sequence.
pub open spec fn first_of(items: Seq<Seq<char>>) -> Option<Seq<char>> {
    if items.len() > 0 {
        Some(items[0])
    } else {
        None
    }
}

/// The short code of the first language of an edition: its key without the
/// prefix that all language keys share. No code where the edition lists no
/// language, or where the key does not have the prefix.
pub open spec fn language_code(languages: Seq<Seq<char>>) -> Option<Seq<char>> {
    if languages.len() > 0 {
        without_prefix(languages[0], "/languages/"@)
    } else {
        None
    }
}

/// What an edition and its work say about a book, before the authors are
/// known.
pub open spec fn draft_of(isbn: Seq<char>, edition: EditionView, work: WorkView) -> BookDetails {
    BookDetails {
        isbn: Some(isbn),
        title: work.title,
        authors: Seq::empty(),
        tags: work.subjects,
        summary: match work.description {
            Some(d) => Some(d.text()),
            None => None,
        },
        published: None,
        publisher: first_of(edition.publishers),
        language: language_code(edition.languages),
        google_id: None,
        amazon_id: None,
        librarything_id: None,
        page_count: edition.number_of_pages,
        read: false,
        owned: false,
        covert_art_b64: None,
        series: None,
    }
}

/// The first cover of an edition.
pub open spec fn first_cover(covers: Seq<i64>) -> Option<i64> {
    if covers.len() > 0 {
        Some(covers[0])
    } else {
        None
    }
}

/// A record with one more author, where the author has a name.
pub open spec fn with_author(draft: BookDetails, author: AuthorView) -> BookDetails {
    match author.name {
        Some(name) => BookDetails { authors: draft.authors.push(name), ..draft },
        None => draft,
    }
}

fn collect_author_keys(authors: &Vec<AuthorReference>) -> (r: Vec<String>)
    ensures
        texts(r@) == author_keys(authors@.map_values(|a: AuthorReference| a@)),
{
    let ghost all = authors@.map_values(|a: AuthorReference| a@);
    let mut found: Vec<String> = Vec::new();
    let mut i: usize = 0;
    assert(texts(found@) =~= author_keys(all.take(0)));
    while i < authors.len()
        invariant
            i <= authors.len(),
            all == authors@.map_values(|a: AuthorReference| a@),
            texts(found@) == author_keys(all.take(i as int)),
        decreases authors.len() - i,
    {
        let reference = &authors[i];
        assert(all.take(i + 1).drop_last() =~= all.take(i as int));
        assert(all.take(i + 1).last() == reference@);
        if str_eq(reference.ty.key.as_str(), "/type/author_role") {
            let ghost before = found@;
            found.push(reference.author.key.clone());
            assert(texts(found@) =~= texts(before) + seq![reference.author.key@]);
        }
        i += 1;
    }
    assert(all.take(authors.len() as int) =~= all);
    found
}

fn make_draft(isbn: String, edition: &Edition, work: Work) -> (r: NullableBookDetails)
    ensures
        r@ == draft_of(isbn@, edition@, work@),
{
    let publisher = if edition.publishers.len() > 0 {
        Some(edition.publishers[0].clone())
    } else {
        None
    };
    let language = if edition.languages.len() > 0 {
        match strip_prefix(edition.languages[0].key.as_str(), "/languages/") {
            Some(code) => Some(code.to_owned()),
            None => None,
        }
    } else {
        None
    };
    let summary = match work.description {
        Some(d) => Some(d.text()),
        None => None,
    };
    let r = NullableBookDetails {
        isbn: Some(isbn),
        title: work.title,
        authors: Vec::new(),
        tags: work.subjects,
        summary,
        published: None,
        publisher,
        language,
        google_id: None,
        amazon_id: None,
        librarything_id: None,
        page_count: edition.number_of_pages,
        read: false,
        owned: false,
        covert_art_b64: None,
        series: None,
    };
    assert(r@.authors =~= Seq::empty());
    r
}

/// What a fetch holds while it asks for the authors of a work, one after
/// the other.
#[derive(Debug)]
struct Gathering {
    /// The record so far, with the names of the authors already asked for.
    draft: NullableBookDetails,
    /// The edition's publication date as free text.
    publish_date: Option<String>,
    /// The edition's first cover.
    cover: Option<i64>,
    /// Keys of the work's authors.
    keys: Vec<String>,
    /// Index in `keys` of the author being asked for.
    index: usize,
}

pub struct GatheringView {
    pub draft: BookDetails,
    pub publish_date: Option<Seq<char>>,
    pub cover: Option<i64>,
    pub keys: Seq<Seq<char>>,
    pub index: nat,
}

impl View for Gathering {
    type V = GatheringView;

    closed spec fn view(&self) -> GatheringView {
        GatheringView {
            draft: self.draft@,
            publish_date: opt_text(self.publish_date),
            cover: self.cover,
            keys: texts(self.keys@),
            index: self.index as nat,
        }
    }
}

#[derive(Debug)]
enum Phase {
    Connecting { contact: String, isbn: String },
    EditionStatus { isbn: String },
    EditionBody { isbn: String },
    WorkStatus { isbn: String, edition: Edition },
    WorkBody { isbn: String, edition: Edition },
    AuthorStatus(Gathering),
    AuthorBody(Gathering),
    Cover { record: NullableBookDetails, cover: i64 },
}

/// A fetch from the service, at rest between two pieces of outside work.
#[derive(Debug)]
pub struct OpenLibraryFetch {
    phase: Phase,
}

/// The model of an [`OpenLibraryFetch`]: what it is waiting for, and what it
/// has learnt so far.
pub enum OpenLibraryStage {
    /// Waiting for the HTTP client.
    Connecting { contact: Seq<char>, isbn: Seq<char> },
    /// Waiting for the status of the edition.
    EditionStatus { isbn: Seq<char> },
    /// Waiting for the edition itself.
    EditionBody { isbn: Seq<char> },
    /// Waiting for the status of the edition's first work.
    WorkStatus { isbn: Seq<char>, edition: EditionView },
    /// Waiting for the work itself.
    WorkBody { isbn: Seq<char>, edition: EditionView },
    /// Waiting for the status of an author.
    AuthorStatus(GatheringView),
    /// Waiting for the author.
    AuthorBody(GatheringView),
    /// The record is complete but for the cover; waiting for the image.
    Cover { record: BookDetails, cover: i64 },
}

/// How a fetch goes on once the last author is known: with the publication
/// date set, it waits for the cover where the edition has one, and is over
/// where it has none.
pub open spec fn completed(draft: BookDetails, published: Option<CalendarDate>, cover: Option<i64>) -> StepView<
    OpenLibraryStage,
    OpenLibraryFailure,
> {
    let record = BookDetails { published, ..draft };
    match cover {
        Some(id) => StepView::Next(OpenLibraryStage::Cover { record, cover: id }),
        None => StepView::Done(Ok(Some(record))),
    }
}

/// What follows the status of a resource that a fetch cannot do without: the
/// fetch goes on to `body` on success, and ends with an error otherwise.
pub open spec fn after_status(code: u16, body: OpenLibraryStage) -> StepView<OpenLibraryStage, OpenLibraryFailure> {
    if code == 404 {
        StepView::Done(Err(OpenLibraryFailure::NotFound))
    } else if is_success(code) {
        StepView::Next(body)
    } else {
        StepView::Done(Err(OpenLibraryFailure::RequestError(RequestFailureView::Status(code))))
    }
}

/// The end of a fetch whose request failed in transport.
pub open spec fn transport_failure(reason: Seq<char>) -> StepView<OpenLibraryStage, OpenLibraryFailure> {
    StepView::Done(Err(OpenLibraryFailure::RequestError(RequestFailureView::Transport(reason))))
}

impl OpenLibraryStage {
    /// A stage that waits for a work has an edition that names one, and a
    /// stage that waits for an author has one to ask for.
    pub open spec fn wf(self) -> bool {
        match self {
            OpenLibraryStage::WorkStatus { edition, .. } => edition.works.len() > 0,
            OpenLibraryStage::WorkBody { edition, .. } => edition.works.len() > 0,
            OpenLibraryStage::AuthorStatus(g) => g.index < g.keys.len(),
            OpenLibraryStage::AuthorBody(g) => g.index < g.keys.len(),
            _ => true,
        }
    }

    /// The outside work the fetch is waiting for.
    pub open spec fn pending(self) -> RequestView
        recommends
            self.wf(),
    {
        match self {
            OpenLibraryStage::Connecting { contact, .. } => RequestView::Connect { user_agent: user_agent(contact) },
            OpenLibraryStage::EditionStatus { isbn } => RequestView::Get { url: edition_url(isbn) },
            OpenLibraryStage::EditionBody { .. } => RequestView::Read(Resource::Edition),
            OpenLibraryStage::WorkStatus { edition, .. } => RequestView::Get { url: resource_url(edition.works[0]) },
            OpenLibraryStage::WorkBody { .. } => RequestView::Read(Resource::Work),
            OpenLibraryStage::AuthorStatus(g) => RequestView::Get { url: resource_url(g.keys[g.index as int]) },
            OpenLibraryStage::AuthorBody(_) => RequestView::Read(Resource::Author),
            OpenLibraryStage::Cover { cover, .. } => RequestView::GetBytes { url: cover_url(cover) },
        }
    }

    /// Whether a reply completes the record, so that the publication date
    /// is settled on when it arrives: the work, where it has no author to
    /// ask for, and else the last of its authors.
    pub open spec fn settles(self, reply: ReplyView) -> bool {
        match (self, reply) {
            (OpenLibraryStage::WorkBody { .. }, ReplyView::Work(work)) => author_keys(work.authors).len() == 0,
            (OpenLibraryStage::AuthorBody(g), ReplyView::Author(_)) => g.index + 1 >= g.keys.len(),
            _ => false,
        }
    }

    /// The edition's publication date, as free text, in the stages that
    /// know the edition.
    pub open spec fn publish_date(self) -> Option<Seq<char>> {
        match self {
            OpenLibraryStage::WorkStatus { edition, .. } => edition.publish_date,
            OpenLibraryStage::WorkBody { edition, .. } => edition.publish_date,
            OpenLibraryStage::AuthorStatus(g) => g.publish_date,
            OpenLibraryStage::AuthorBody(g) => g.publish_date,
            _ => None,
        }
    }

    /// What the fetch does with a reply, `published` being the publication
    /// date that was settled on; it is looked at only where the reply
    /// completes the record. A reply that does not answer the pending
    /// request changes nothing: the fetch asks again.
    pub open spec fn next(self, reply: ReplyView, published: Option<CalendarDate>) -> StepView<
        OpenLibraryStage,
        OpenLibraryFailure,
    > {
        match (self, reply) {
            (OpenLibraryStage::Connecting { isbn, .. }, ReplyView::Ready) => StepView::Next(
                OpenLibraryStage::EditionStatus { isbn },
            ),
            (OpenLibraryStage::Connecting { .. }, ReplyView::Failed(reason)) => StepView::Done(
                Err(OpenLibraryFailure::MakeClient(reason)),
            ),
            (OpenLibraryStage::EditionStatus { isbn }, ReplyView::Status(code)) => if code == 404 {
                StepView::Done(Ok(None))
            } else {
                after_status(code, OpenLibraryStage::EditionBody { isbn })
            },
            (OpenLibraryStage::EditionBody { isbn }, ReplyView::Edition(edition)) => if edition.works.len() == 0 {
                StepView::Done(Err(OpenLibraryFailure::MissingWork))
            } else {
                StepView::Next(OpenLibraryStage::WorkStatus { isbn, edition })
            },
            (OpenLibraryStage::WorkStatus { isbn, edition }, ReplyView::Status(code)) => after_status(
                code,
                OpenLibraryStage::WorkBody { isbn, edition },
            ),
            (OpenLibraryStage::WorkBody { isbn, edition }, ReplyView::Work(work)) => {
                let draft = draft_of(isbn, edition, work);
                let keys = author_keys(work.authors);
                let cover = first_cover(edition.covers);
                if keys.len() == 0 {
                    completed(draft, published, cover)
                } else {
                    StepView::Next(
                        OpenLibraryStage::AuthorStatus(
                            GatheringView { draft, publish_date: edition.publish_date, cover, keys, index: 0 },
                        ),
                    )
                }
            },
            (OpenLibraryStage::AuthorStatus(g), ReplyView::Status(code)) => after_status(
                code,
                OpenLibraryStage::AuthorBody(g),
            ),
            (OpenLibraryStage::AuthorBody(g), ReplyView::Author(author)) => {
                let draft = with_author(g.draft, author);
                if g.index + 1 < g.keys.len() {
                    StepView::Next(
                        OpenLibraryStage::AuthorStatus(GatheringView { draft, index: g.index + 1, ..g }),
                    )
                } else {
                    completed(draft, published, g.cover)
                }
            },
            (OpenLibraryStage::Cover { record, .. }, ReplyView::Bytes(image)) => StepView::Done(
                Ok(Some(BookDetails { covert_art_b64: Some(base64_text(image)), ..record })),
            ),
            (OpenLibraryStage::EditionBody { .. }, ReplyView::Malformed(failure)) => StepView::Done(
                Err(OpenLibraryFailure::Json(failure)),
            ),
            (OpenLibraryStage::WorkBody { .. }, ReplyView::Malformed(failure)) => StepView::Done(
                Err(OpenLibraryFailure::Json(failure)),
            ),
            (OpenLibraryStage::AuthorBody(_), ReplyView::Malformed(failure)) => StepView::Done(
                Err(OpenLibraryFailure::Json(failure)),
            ),
            (OpenLibraryStage::Connecting { .. }, _) => StepView::Next(self),
            (_, ReplyView::Failed(reason)) => transport_failure(reason),
            _ => StepView::Next(self),
        }
    }
}

impl View for OpenLibraryFetch {
    type V = OpenLibraryStage;

    closed spec fn view(&self) -> OpenLibraryStage {
        match self.phase {
            Phase::Connecting { contact, isbn } => OpenLibraryStage::Connecting { contact: contact@, isbn: isbn@ },
            Phase::EditionStatus { isbn } => OpenLibraryStage::EditionStatus { isbn: isbn@ },
            Phase::EditionBody { isbn } => OpenLibraryStage::EditionBody { isbn: isbn@ },
            Phase::WorkStatus { isbn, edition } => OpenLibraryStage::WorkStatus { isbn: isbn@, edition: edition@ },
            Phase::WorkBody { isbn, edition } => OpenLibraryStage::WorkBody { isbn: isbn@, edition: edition@ },
            Phase::AuthorStatus(g) => OpenLibraryStage::AuthorStatus(g@),
            Phase::AuthorBody(g) => OpenLibraryStage::AuthorBody(g@),
            Phase::Cover { record, cover } => OpenLibraryStage::Cover { record: record@, cover },
        }
    }
}

fn has_author(authors: &Vec<AuthorReference>) -> (r: bool)
    ensures
        r == (author_keys(authors@.map_values(|a: AuthorReference| a@)).len() > 0),
{
    let ghost all = authors@.map_values(|a: AuthorReference| a@);
    let mut i: usize = 0;
    while i < authors.len()
        invariant
            i <= authors.len(),
            all == authors@.map_values(|a: AuthorReference| a@),
            author_keys(all.take(i as int)).len() == 0,
        decreases authors.len() - i,
    {
        if str_eq(authors[i].ty.key.as_str(), "/type/author_role") {
            proof {
                lemma_author_keys_grow(all.take(i + 1), all);
                assert(all.take(i + 1).drop_last() =~= all.take(i as int));
            }
            return true;
        }
        assert(all.take(i + 1).drop_last() =~= all.take(i as int));
        i += 1;
    }
    assert(all.take(authors.len() as int) =~= all);
    false
}

/// A longer list of contributors has at least as many authors.
pub proof fn lemma_author_keys_grow(shorter: Seq<AuthorReferenceView>, longer: Seq<AuthorReferenceView>)
    requires
        shorter.is_prefix_of(longer),
    ensures
        author_keys(shorter).len() <= author_keys(longer).len(),
    decreases longer.len(),
{
    if shorter.len() < longer.len() {
        assert(shorter.is_prefix_of(longer.drop_last()));
        lemma_author_keys_grow(shorter, longer.drop_last());
    } else {
        assert(shorter =~= longer);
    }
}

fn complete(draft: NullableBookDetails, published: Option<CalendarDate>, cover: Option<i64>) -> (r: Step<
    OpenLibraryFetch,
    OpenLibraryMetadataError,
>)
    ensures
        r@ == completed(draft@, published, cover),
{
    let mut record = draft;
    record.published = published;
    match cover {
        Some(id) => Step::Next(OpenLibraryFetch { phase: Phase::Cover { record, cover: id } }),
        None => Step::Done(Ok(Some(record))),
    }
}

fn follow_status(code: u16, body: OpenLibraryFetch) -> (r: Step<OpenLibraryFetch, OpenLibraryMetadataError>)
    ensures
        r@ == after_status(code, body@),
{
    if code == 404 {
        Step::Done(Err(OpenLibraryMetadataError::NotFound))
    } else if 200 <= code && code <= 299 {
        Step::Next(body)
    } else {
        Step::Done(Err(OpenLibraryMetadataError::RequestError(RequestFailure::Status(code))))
    }
}

impl OpenLibraryFetch {
    #[verifier::type_invariant]
    spec fn inv(self) -> bool {
        self@.wf()
    }

    /// Begins a fetch for an ISBN, written without separators.
    pub fn start(config: &OpenLibraryConfig, isbn: &str) -> (r: OpenLibraryFetch)
        ensures
            r@ == (OpenLibraryStage::Connecting { contact: config.contact@, isbn: isbn@ }),
    {
        OpenLibraryFetch { phase: Phase::Connecting { contact: config.contact.clone(), isbn: isbn.to_owned() } }
    }

    /// The outside work the fetch is waiting for. A fetch is well formed at
    /// every moment, so there always is such work.
    pub fn request(&self) -> (r: Request)
        ensures
            self@.wf(),
            r@ == self@.pending(),
    {
        proof {
            use_type_invariant(self);
        }
        match &self.phase {
            Phase::Connecting { contact, .. } => Request::Connect { user_agent: make_user_agent(contact.as_str()) },
            Phase::EditionStatus { isbn } => Request::Get { url: make_edition_url(isbn.as_str()) },
            Phase::EditionBody { .. } => Request::Read(Resource::Edition),
            Phase::WorkStatus { edition, .. } => Request::Get {
                url: make_resource_url(edition.works[0].key.as_str()),
            },
            Phase::WorkBody { .. } => Request::Read(Resource::Work),
            Phase::AuthorStatus(g) => Request::Get { url: make_resource_url(g.keys[g.index].as_str()) },
            Phase::AuthorBody(_) => Request::Read(Resource::Author),
            Phase::Cover { cover, .. } => Request::GetBytes { url: make_cover_url(*cover) },
        }
    }

    /// Whether a reply completes the record.
    pub fn settles(&self, reply: &Reply) -> (r: bool)
        ensures
            r == self@.settles(reply@),
    {
        proof {
            use_type_invariant(self);
        }
        match (&self.phase, reply) {
            (Phase::WorkBody { .. }, Reply::Work(work)) => !has_author(&work.authors),
            (Phase::AuthorBody(g), Reply::Author(_)) => g.keys.len() - g.index <= 1,
            _ => false,
        }
    }

    /// Takes the reply to the pending request and goes on, or ends the
    /// fetch, with `published` as the publication date where the reply
    /// completes the record.
    pub fn advance(self, reply: Reply, published: Option<CalendarDate>) -> (r: Step<
        OpenLibraryFetch,
        OpenLibraryMetadataError,
    >)
        ensures
            r@ == self@.next(reply@, published),
    {
        proof {
            use_type_invariant(&self);
        }
        match (self.phase, reply) {
            (Phase::Connecting { isbn, .. }, Reply::Ready) => Step::Next(
                OpenLibraryFetch { phase: Phase::EditionStatus { isbn } },
            ),
            (Phase::Connecting { .. }, Reply::Failed(reason)) => Step::Done(
                Err(OpenLibraryMetadataError::MakeClient(reason)),
            ),
            (Phase::EditionStatus { isbn }, Reply::Status(code)) => {
                if code == 404 {
                    Step::Done(Ok(None))
                } else {
                    follow_status(code, OpenLibraryFetch { phase: Phase::EditionBody { isbn } })
                }
            },
            (Phase::EditionBody { isbn }, Reply::Edition(edition)) => {
                if edition.works.len() == 0 {
                    Step::Done(Err(OpenLibraryMetadataError::MissingWork))
                } else {
                    Step::Next(OpenLibraryFetch { phase: Phase::WorkStatus { isbn, edition } })
                }
            },
            (Phase::WorkStatus { isbn, edition }, Reply::Status(code)) => follow_status(
                code,
                OpenLibraryFetch { phase: Phase::WorkBody { isbn, edition } },
            ),
            (Phase::WorkBody { isbn, edition }, Reply::Work(work)) => {
                let keys = collect_author_keys(&work.authors);
                let cover = if edition.covers.len() > 0 {
                    Some(edition.covers[0])
                } else {
                    None
                };
                let draft = make_draft(isbn, &edition, work);
                if keys.len() == 0 {
                    complete(draft, published, cover)
                } else {
                    Step::Next(
                        OpenLibraryFetch {
                            phase: Phase::AuthorStatus(
                                Gathering { draft, publish_date: edition.publish_date, cover, keys, index: 0 },
                            ),
                        },
                    )
                }
            },
            (Phase::AuthorStatus(g), Reply::Status(code)) => follow_status(
                code,
                OpenLibraryFetch { phase: Phase::AuthorBody(g) },
            ),
            (Phase::AuthorBody(g), Reply::Author(author)) => {
                let mut g = g;
                match author.name {
                    Some(name) => {
                        let ghost before = g.draft.authors@;
                        g.draft.authors.push(name);
                        assert(texts(g.draft.authors@) =~= texts(before).push(name@));
                    },
                    None => {},
                }
                if g.keys.len() - g.index > 1 {
                    g.index = g.index + 1;
                    Step::Next(OpenLibraryFetch { phase: Phase::AuthorStatus(g) })
                } else {
                    complete(g.draft, published, g.cover)
                }
            },
            (Phase::Cover { record, .. }, Reply::Bytes(image)) => {
                let mut record = record;
                record.covert_art_b64 = Some(base64_encode(image.as_slice()));
                Step::Done(Ok(Some(record)))
            },
            (Phase::EditionBody { .. }, Reply::Malformed(failure)) => Step::Done(
                Err(OpenLibraryMetadataError::Json(failure)),
            ),
            (Phase::WorkBody { .. }, Reply::Malformed(failure)) => Step::Done(
                Err(OpenLibraryMetadataError::Json(failure)),
            ),
            (Phase::AuthorBody(_), Reply::Malformed(failure)) => Step::Done(
                Err(OpenLibraryMetadataError::Json(failure)),
            ),
            (Phase::Connecting { contact, isbn }, _) => Step::Next(
                OpenLibraryFetch { phase: Phase::Connecting { contact, isbn } },
            ),
            (_, Reply::Failed(reason)) => Step::Done(
                Err(OpenLibraryMetadataError::RequestError(RequestFailure::Transport(reason))),
            ),
            (phase, _) => Step::Next(OpenLibraryFetch { phase }),
        }
    }
}

impl OpenLibraryFetch {
    fn publish_date_text(&self) -> (r: Option<&String>)
        ensures
            match r {
                Some(text) => self@.publish_date() == Some(text@),
                None => self@.publish_date() is None,
            },
    {
        match &self.phase {
            Phase::WorkStatus { edition, .. } => edition.publish_date.as_ref(),
            Phase::WorkBody { edition, .. } => edition.publish_date.as_ref(),
            Phase::AuthorStatus(g) => g.publish_date.as_ref(),
            Phase::AuthorBody(g) => g.publish_date.as_ref(),
            _ => None,
        }
    }

    /// Takes the reply to the pending request and goes on, or ends the
    /// fetch. Where the reply completes the record, the edition's publication
    /// date is read now.
    ///
    /// Reading the date asks parsers that look at the clock, so the step is
    /// stated for whatever day they settle on: it is the step that
    /// [`OpenLibraryFetch::advance`] takes with that day. The day is a reading
    /// of the edition's publication date, so a date that is nothing but a
    /// year of four digits gives the first day of that year. There is no
    /// day unless the reply completes the record and the edition has a
    /// publication date.
    pub fn step(self, reply: Reply) -> (r: Step<OpenLibraryFetch, OpenLibraryMetadataError>)
        ensures
            exists|published: Option<CalendarDate>|
                {
                    &&& r@ == #[trigger] self@.next(reply@, published)
                    &&& if self@.settles(reply@) && self@.publish_date() is Some {
                        is_reading(self@.publish_date()->0, published)
                    } else {
                        published is None
                    }
                },
    {
        let published = if self.settles(&reply) {
            match self.publish_date_text() {
                Some(text) => parse_publish_date(text.as_str()),
                None => None,
            }
        } else {
            None
        };
        self.advance(reply, published)
    }
}

} // verus!
