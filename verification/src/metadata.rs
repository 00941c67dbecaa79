//! The common metadata record, the provider enumeration and the facade.

use vstd::prelude::*;

pub mod calibre;
pub mod date;
pub mod exchange;
pub mod isbn;
pub mod openlibrary;
pub mod opf;
pub mod text;
pub mod xml;

use crate::config::{MetadataConfig, Settings};
use crate::metadata::calibre::{
    output_outcome, CalibreFailure, CalibreFetch, CalibreMetadataError, CalibreStage,
};
use crate::metadata::date::{is_reading, CalendarDate};
use crate::metadata::exchange::{Reply, ReplyView, Request, RequestView, Step, StepView};
use crate::metadata::openlibrary::laws::{
    lemma_fetch_of_what_is_missing, lemma_fetch_without_an_author, lemma_served_fetch, record_of, served,
    served_until,
};
use crate::metadata::openlibrary::{
    author_keys, AuthorView, EditionView, OpenLibraryFailure, OpenLibraryFetch, OpenLibraryMetadataError,
    OpenLibraryStage, WorkView,
};
use crate::metadata::text::{opt_text, texts};

verus! {

/// What a provider found out about a book. Every field may be absent: a
/// provider fills in what it can determine and leaves the rest unset.
#[derive(Debug, PartialEq, Eq)]
pub struct NullableBookDetails {
    pub isbn: Option<String>,
    pub title: Option<String>,
    pub authors: Vec<String>,
    pub tags: Vec<String>,
    pub summary: Option<String>,
    pub published: Option<CalendarDate>,
    pub publisher: Option<String>,
    pub language: Option<String>,
    pub google_id: Option<String>,
    pub amazon_id: Option<String>,
    pub librarything_id: Option<String>,
    pub page_count: Option<i32>,
    pub read: bool,
    pub owned: bool,
    /// The cover image, base64 encoded.
    pub covert_art_b64: Option<String>,
    /// Name of the series the book belongs to, and its volume in it.
    pub series: Option<(String, i32)>,
}

/// The model of a [`NullableBookDetails`].
pub struct BookDetails {
    pub isbn: Option<Seq<char>>,
    pub title: Option<Seq<char>>,
    pub authors: Seq<Seq<char>>,
    pub tags: Seq<Seq<char>>,
    pub summary: Option<Seq<char>>,
    pub published: Option<CalendarDate>,
    pub publisher: Option<Seq<char>>,
    pub language: Option<Seq<char>>,
    pub google_id: Option<Seq<char>>,
    pub amazon_id: Option<Seq<char>>,
    pub librarything_id: Option<Seq<char>>,
    pub page_count: Option<i32>,
    pub read: bool,
    pub owned: bool,
    pub covert_art_b64: Option<Seq<char>>,
    pub series: Option<(Seq<char>, i32)>,
}

impl BookDetails {
    /// The record in which nothing is set.
    pub open spec fn empty() -> BookDetails {
        BookDetails {
            isbn: None,
            title: None,
            authors: Seq::empty(),
            tags: Seq::empty(),
            summary: None,
            published: None,
            publisher: None,
            language: None,
            google_id: None,
            amazon_id: None,
            librarything_id: None,
            page_count: None,
            read: false,
            owned: false,
            covert_art_b64: None,
            series: None,
        }
    }
}

impl View for NullableBookDetails {
    type V = BookDetails;

    open spec fn view(&self) -> BookDetails {
        BookDetails {
            isbn: opt_text(self.isbn),
            title: opt_text(self.title),
            authors: texts(self.authors@),
            tags: texts(self.tags@),
            summary: opt_text(self.summary),
            published: self.published,
            publisher: opt_text(self.publisher),
            language: opt_text(self.language),
            google_id: opt_text(self.google_id),
            amazon_id: opt_text(self.amazon_id),
            librarything_id: opt_text(self.librarything_id),
            page_count: self.page_count,
            read: self.read,
            owned: self.owned,
            covert_art_b64: opt_text(self.covert_art_b64),
            series: match self.series {
                Some((name, volume)) => Some((name@, volume)),
                None => None,
            },
        }
    }
}

impl Default for NullableBookDetails {
    fn default() -> (r: Self)
        ensures
            r@ == BookDetails::empty(),
    {
        let r = NullableBookDetails {
            isbn: None,
            title: None,
            authors: Vec::new(),
            tags: Vec::new(),
            summary: None,
            published: None,
            publisher: None,
            language: None,
            google_id: None,
            amazon_id: None,
            librarything_id: None,
            page_count: None,
            read: false,
            owned: false,
            covert_art_b64: None,
            series: None,
        };
        assert(r@.authors =~= Seq::empty());
        assert(r@.tags =~= Seq::empty());
        r
    }
}

/// The external sources a book's metadata can be fetched from.
#[derive(Debug, PartialEq, Eq, Clone, Copy, Structural)]
pub enum MetadataProvider {
    Calibre,
    OpenLibrary,
}

pub const PROVIDERS: [MetadataProvider; 2] = [MetadataProvider::Calibre, MetadataProvider::OpenLibrary];

impl MetadataProvider {
    /// Every provider, in the order in which they are offered.
    pub open spec fn spec_all() -> Seq<MetadataProvider> {
        seq![MetadataProvider::Calibre, MetadataProvider::OpenLibrary]
    }

    pub fn all() -> (r: &'static [Self])
        ensures
            r@ == Self::spec_all(),
    {
        &PROVIDERS
    }

    /// The token that stands for the provider in forms and in configuration.
    pub open spec fn name(self) -> Seq<char> {
        match self {
            MetadataProvider::Calibre => "Calibre"@,
            MetadataProvider::OpenLibrary => "OpenLibrary"@,
        }
    }

    /// The name under which the provider is shown to people.
    pub open spec fn spec_label(self) -> Seq<char> {
        match self {
            MetadataProvider::Calibre => "Calibre"@,
            MetadataProvider::OpenLibrary => "Open Library"@,
        }
    }

    pub fn serialized(&self) -> (r: &'static str)
        ensures
            r@ == self.name(),
    {
        match self {
            MetadataProvider::Calibre => "Calibre",
            MetadataProvider::OpenLibrary => "OpenLibrary",
        }
    }

    /// The name under which the provider is shown to people.
    pub fn label(&self) -> (r: &'static str)
        ensures
            r@ == self.spec_label(),
    {
        match self {
            MetadataProvider::Calibre => "Calibre",
            MetadataProvider::OpenLibrary => "Open Library",
        }
    }
}

/// Why a fetch failed: the error of the provider that was asked, under that
/// provider's name.
#[derive(Debug)]
pub enum MetadataError {
    Calibre(CalibreMetadataError),
    OpenLibrary(OpenLibraryMetadataError),
}

/// The model of a [`MetadataError`].
pub enum MetadataFailure {
    Calibre(CalibreFailure),
    OpenLibrary(OpenLibraryFailure),
}

impl MetadataFailure {
    /// The provider whose error this is.
    pub open spec fn provider(self) -> MetadataProvider {
        match self {
            MetadataFailure::Calibre(_) => MetadataProvider::Calibre,
            MetadataFailure::OpenLibrary(_) => MetadataProvider::OpenLibrary,
        }
    }
}

impl View for MetadataError {
    type V = MetadataFailure;

    open spec fn view(&self) -> MetadataFailure {
        match *self {
            MetadataError::Calibre(e) => MetadataFailure::Calibre(e@),
            MetadataError::OpenLibrary(e) => MetadataFailure::OpenLibrary(e@),
        }
    }
}

impl MetadataError {
    /// The provider whose error this is.
    pub fn provider(&self) -> (r: MetadataProvider)
        ensures
            r == self@.provider(),
    {
        match self {
            MetadataError::Calibre(_) => MetadataProvider::Calibre,
            MetadataError::OpenLibrary(_) => MetadataProvider::OpenLibrary,
        }
    }

    /// A sentence that says which provider failed.
    pub fn message(&self) -> (r: &'static str)
        ensures
            r@ == (match self@.provider() {
                MetadataProvider::Calibre => "Could not scrap metadata with calibre"@,
                MetadataProvider::OpenLibrary => "Could not fetch metadata with open library"@,
            }),
    {
        match self {
            MetadataError::Calibre(_) => "Could not scrap metadata with calibre",
            MetadataError::OpenLibrary(_) => "Could not fetch metadata with open library",
        }
    }
}

/// A fetch from one of the providers, at rest between two pieces of outside
/// work.
#[derive(Debug)]
pub enum Fetch {
    Calibre(CalibreFetch),
    OpenLibrary(OpenLibraryFetch),
}

/// The model of a [`Fetch`].
pub enum FetchStage {
    Calibre(CalibreStage),
    OpenLibrary(OpenLibraryStage),
}

impl View for Fetch {
    type V = FetchStage;

    open spec fn view(&self) -> FetchStage {
        match *self {
            Fetch::Calibre(fetch) => FetchStage::Calibre(fetch@),
            Fetch::OpenLibrary(fetch) => FetchStage::OpenLibrary(fetch@),
        }
    }
}

/// A step of the local tool's fetch, as a step of the facade.
pub open spec fn from_calibre(step: StepView<CalibreStage, CalibreFailure>) -> StepView<FetchStage, MetadataFailure> {
    match step {
        StepView::Next(stage) => StepView::Next(FetchStage::Calibre(stage)),
        StepView::Done(Ok(found)) => StepView::Done(Ok(found)),
        StepView::Done(Err(e)) => StepView::Done(Err(MetadataFailure::Calibre(e))),
    }
}

/// A step of the bibliographic service's fetch, as a step of the facade.
pub open spec fn from_open_library(step: StepView<OpenLibraryStage, OpenLibraryFailure>) -> StepView<
    FetchStage,
    MetadataFailure,
> {
    match step {
        StepView::Next(stage) => StepView::Next(FetchStage::OpenLibrary(stage)),
        StepView::Done(Ok(found)) => StepView::Done(Ok(found)),
        StepView::Done(Err(e)) => StepView::Done(Err(MetadataFailure::OpenLibrary(e))),
    }
}

impl FetchStage {
    /// The stage in which a fetch begins.
    pub open spec fn start(settings: Settings, isbn: Seq<char>, provider: MetadataProvider) -> FetchStage
        recommends
            settings.configures(provider),
    {
        match provider {
            MetadataProvider::Calibre => FetchStage::Calibre(
                CalibreStage::CreatingCoverFile { fetcher: settings.calibre->0, isbn },
            ),
            MetadataProvider::OpenLibrary => FetchStage::OpenLibrary(
                OpenLibraryStage::Connecting { contact: settings.open_library->0, isbn },
            ),
        }
    }

    /// The provider that is asked.
    pub open spec fn provider(self) -> MetadataProvider {
        match self {
            FetchStage::Calibre(_) => MetadataProvider::Calibre,
            FetchStage::OpenLibrary(_) => MetadataProvider::OpenLibrary,
        }
    }

    pub open spec fn wf(self) -> bool {
        match self {
            FetchStage::Calibre(_) => true,
            FetchStage::OpenLibrary(stage) => stage.wf(),
        }
    }

    /// The outside work the fetch is waiting for.
    pub open spec fn pending(self) -> RequestView {
        match self {
            FetchStage::Calibre(stage) => stage.pending(),
            FetchStage::OpenLibrary(stage) => stage.pending(),
        }
    }

    /// Whether a reply completes a record of the bibliographic service, so
    /// that the publication date is settled on when it arrives.
    pub open spec fn settles(self, reply: ReplyView) -> bool {
        match self {
            FetchStage::Calibre(_) => false,
            FetchStage::OpenLibrary(stage) => stage.settles(reply),
        }
    }

    /// The edition's publication date, as free text, in the stages that
    /// know an edition.
    pub open spec fn publish_date(self) -> Option<Seq<char>> {
        match self {
            FetchStage::Calibre(_) => None,
            FetchStage::OpenLibrary(stage) => stage.publish_date(),
        }
    }

    /// What the fetch does with a reply: what its provider does, with the
    /// provider's error, if any, under the provider's name. `published` is
    /// the publication date that the bibliographic service's fetch settles
    /// on; the local tool's fetch does not look at it.
    pub open spec fn next(self, reply: ReplyView, published: Option<CalendarDate>) -> StepView<
        FetchStage,
        MetadataFailure,
    > {
        match self {
            FetchStage::Calibre(stage) => from_calibre(stage.next(reply)),
            FetchStage::OpenLibrary(stage) => from_open_library(stage.next(reply, published)),
        }
    }
}

fn wrap_calibre(step: Step<CalibreFetch, CalibreMetadataError>) -> (r: Step<Fetch, MetadataError>)
    ensures
        r@ == from_calibre(step@),
{
    match step {
        Step::Next(fetch) => Step::Next(Fetch::Calibre(fetch)),
        Step::Done(Ok(found)) => Step::Done(Ok(found)),
        Step::Done(Err(e)) => Step::Done(Err(MetadataError::Calibre(e))),
    }
}

fn wrap_open_library(step: Step<OpenLibraryFetch, OpenLibraryMetadataError>) -> (r: Step<Fetch, MetadataError>)
    ensures
        r@ == from_open_library(step@),
{
    match step {
        Step::Next(fetch) => Step::Next(Fetch::OpenLibrary(fetch)),
        Step::Done(Ok(found)) => Step::Done(Ok(found)),
        Step::Done(Err(e)) => Step::Done(Err(MetadataError::OpenLibrary(e))),
    }
}

/// Begins the fetch of a book's metadata from a provider. The ISBN is written
/// without separators.
///
/// The provider must have its settings. A configuration that passed
/// [`MetadataConfig::validate`] has them for every provider it enables.
pub fn fetch_metadata(config: &MetadataConfig, isbn: &str, provider: MetadataProvider) -> (r: Fetch)
    requires
        config@.configures(provider),
    ensures
        r@ == FetchStage::start(config@, isbn@, provider),
        r@.provider() == provider,
{
    match provider {
        MetadataProvider::Calibre => Fetch::Calibre(CalibreFetch::start(config.calibre.as_ref().unwrap(), isbn)),
        MetadataProvider::OpenLibrary => Fetch::OpenLibrary(
            OpenLibraryFetch::start(config.open_library.as_ref().unwrap(), isbn),
        ),
    }
}

impl Fetch {
    /// The provider that is asked.
    pub fn provider(&self) -> (r: MetadataProvider)
        ensures
            r == self@.provider(),
    {
        match self {
            Fetch::Calibre(_) => MetadataProvider::Calibre,
            Fetch::OpenLibrary(_) => MetadataProvider::OpenLibrary,
        }
    }

    /// The outside work the fetch is waiting for.
    pub fn request(&self) -> (r: Request)
        ensures
            r@ == self@.pending(),
    {
        match self {
            Fetch::Calibre(fetch) => fetch.request(),
            Fetch::OpenLibrary(fetch) => fetch.request(),
        }
    }

    /// Takes the reply to the pending request and goes on, or ends the
    /// fetch, with `published` as the publication date where the reply
    /// completes a record of the bibliographic service.
    pub fn advance(self, reply: Reply, published: Option<CalendarDate>) -> (r: Step<Fetch, MetadataError>)
        ensures
            r@ == self@.next(reply@, published),
    {
        match self {
            Fetch::Calibre(fetch) => wrap_calibre(fetch.step(reply)),
            Fetch::OpenLibrary(fetch) => wrap_open_library(fetch.advance(reply, published)),
        }
    }

    /// Takes the reply to the pending request and goes on, or ends the
    /// fetch.
    ///
    /// The step is the one that [`Fetch::advance`] takes with the publication
    /// date that was settled on. That date is a reading of the edition's
    /// publication date where the reply completes a record of the
    /// bibliographic service, and there is none otherwise: see
    /// [`OpenLibraryFetch::step`].
    pub fn step(self, reply: Reply) -> (r: Step<Fetch, MetadataError>)
        ensures
            exists|published: Option<CalendarDate>|
                {
                    &&& r@ == #[trigger] self@.next(reply@, published)
                    &&& if self@.settles(reply@) && self@.publish_date() is Some {
                        is_reading(self@.publish_date()->0, published)
                    } else {
                        published is None
                    }
                },
    {
        match self {
            Fetch::Calibre(fetch) => {
                let r = wrap_calibre(fetch.step(reply));
                assert(r@ == self@.next(reply@, None));
                r
            },
            Fetch::OpenLibrary(fetch) => {
                let step = fetch.step(reply);
                proof {
                    let published = choose|published: Option<CalendarDate>|
                        {
                            &&& step@ == #[trigger] fetch@.next(reply@, published)
                            &&& if fetch@.settles(reply@) && fetch@.publish_date() is Some {
                                is_reading(fetch@.publish_date()->0, published)
                            } else {
                                published is None
                            }
                        };
                    assert(from_open_library(step@) == self@.next(reply@, published));
                }
                wrap_open_library(step)
            },
        }
    }
}

/// A fetch stays with its provider, and an error names the provider that was
/// asked.
pub proof fn lemma_provider_is_kept(stage: FetchStage, reply: ReplyView, published: Option<CalendarDate>)
    ensures
        match stage.next(reply, published) {
            StepView::Next(after) => after.provider() == stage.provider(),
            StepView::Done(Err(e)) => e.provider() == stage.provider(),
            StepView::Done(Ok(_)) => true,
        },
{
}

/// Where a fetch stands after a list of replies, each taken in its turn. A
/// fetch that has ended looks at no further reply.
pub open spec fn run(stage: FetchStage, replies: Seq<ReplyView>, published: Option<CalendarDate>) -> StepView<
    FetchStage,
    MetadataFailure,
>
    decreases replies.len(),
{
    if replies.len() == 0 {
        StepView::Next(stage)
    } else {
        match stage.next(replies[0], published) {
            StepView::Next(after) => run(after, replies.drop_first(), published),
            done => done,
        }
    }
}

/// A fetch from the bibliographic service runs through the facade as it
/// runs by itself.
pub proof fn lemma_run_of_service(stage: OpenLibraryStage, replies: Seq<ReplyView>, published: Option<CalendarDate>)
    ensures
        run(FetchStage::OpenLibrary(stage), replies, published) == from_open_library(
            crate::metadata::openlibrary::laws::run(stage, replies, published),
        ),
    decreases replies.len(),
{
    if replies.len() > 0 {
        match stage.next(replies[0], published) {
            StepView::Next(after) => {
                lemma_run_of_service(after, replies.drop_first(), published);
            },
            _ => {},
        }
    }
}

/// Asked for a book that the bibliographic service has, the facade returns
/// the book's record. Its authors are the names of the authors of the work,
/// in the order in which the work lists its contributors in the role of an
/// author, with no one in another role among them.
pub proof fn lemma_facade_serves(
    settings: Settings,
    isbn: Seq<char>,
    edition: EditionView,
    work: WorkView,
    authors: Seq<AuthorView>,
    image: Seq<u8>,
    published: Option<CalendarDate>,
)
    requires
        settings.configures(MetadataProvider::OpenLibrary),
        edition.works.len() > 0,
        authors.len() == author_keys(work.authors).len(),
    ensures
        run(
            FetchStage::start(settings, isbn, MetadataProvider::OpenLibrary),
            served(edition, work, authors, image),
            published,
        ) == StepView::<FetchStage, MetadataFailure>::Done(
            Ok(Some(record_of(isbn, edition, work, authors, published, image))),
        ),
{
    let contact = settings.open_library->0;
    lemma_served_fetch(contact, isbn, edition, work, authors, image, published);
    lemma_run_of_service(
        OpenLibraryStage::Connecting { contact, isbn },
        served(edition, work, authors, image),
        published,
    );
}

/// Asked for a book, the local tool is run once. Where it reports success,
/// the facade returns what its output and the cover file amount to. Where it
/// reports failure, the facade returns an error that carries what the tool
/// printed, byte for byte, and the cover file is not read.
pub proof fn lemma_facade_runs_the_tool(
    settings: Settings,
    isbn: Seq<char>,
    stdout: Seq<u8>,
    stderr: Seq<u8>,
    image: Seq<u8>,
    published: Option<CalendarDate>,
)
    requires
        settings.configures(MetadataProvider::Calibre),
    ensures
        run(
            FetchStage::start(settings, isbn, MetadataProvider::Calibre),
            seq![
                ReplyView::Ready,
                ReplyView::Exited { success: true, stdout, stderr },
                ReplyView::Bytes(image),
            ],
            published,
        ) == from_calibre(StepView::Done(output_outcome(stdout, image))),
        run(
            FetchStage::start(settings, isbn, MetadataProvider::Calibre),
            seq![ReplyView::Ready, ReplyView::Exited { success: false, stdout, stderr }],
            published,
        ) == StepView::<FetchStage, MetadataFailure>::Done(
            Err(MetadataFailure::Calibre(CalibreFailure::FetchFailure { stdout, stderr })),
        ),
{
    let fetcher = settings.calibre->0;
    let s0 = FetchStage::Calibre(CalibreStage::CreatingCoverFile { fetcher, isbn });
    let s1 = FetchStage::Calibre(CalibreStage::Running { fetcher, isbn });
    let s2 = FetchStage::Calibre(CalibreStage::ReadingCover { stdout });
    let good = seq![ReplyView::Ready, ReplyView::Exited { success: true, stdout, stderr }, ReplyView::Bytes(image)];
    let bad = seq![ReplyView::Ready, ReplyView::Exited { success: false, stdout, stderr }];
    assert(s0.next(ReplyView::Ready, published) == StepView::<FetchStage, MetadataFailure>::Next(s1));
    assert(s1.next(good[1], published) == StepView::<FetchStage, MetadataFailure>::Next(s2));
    assert(s2.next(good[2], published) == from_calibre(StepView::Done(output_outcome(stdout, image))));
    assert(good.drop_first()[0] == good[1]);
    assert(good.drop_first().drop_first()[0] == good[2]);
    assert(run(s2, good.drop_first().drop_first(), published) == s2.next(good[2], published));
    assert(run(s1, good.drop_first(), published) == run(s2, good.drop_first().drop_first(), published));
    assert(run(s0, good, published) == run(s1, good.drop_first(), published));
    assert(bad.drop_first()[0] == bad[1]);
    assert(run(s1, bad.drop_first(), published) == s1.next(bad[1], published));
    assert(run(s0, bad, published) == run(s1, bad.drop_first(), published));
}

/// Asked for a book of which the bibliographic service lacks something, the
/// facade tells a clean absence from an error. Without the edition it
/// returns no record and no error. With an edition that names no work it
/// returns the error that the work is missing, never an empty record.
/// Without the work that the edition names, or without the first author
/// that the work names, it returns the error that a resource was not found.
pub proof fn lemma_facade_tells_absence_from_error(
    settings: Settings,
    isbn: Seq<char>,
    edition: EditionView,
    work: WorkView,
    published: Option<CalendarDate>,
)
    requires
        settings.configures(MetadataProvider::OpenLibrary),
    ensures
        run(
            FetchStage::start(settings, isbn, MetadataProvider::OpenLibrary),
            seq![ReplyView::Ready, ReplyView::Status(404)],
            published,
        ) == StepView::<FetchStage, MetadataFailure>::Done(Ok(None)),
        edition.works.len() == 0 ==> run(
            FetchStage::start(settings, isbn, MetadataProvider::OpenLibrary),
            seq![ReplyView::Ready, ReplyView::Status(200), ReplyView::Edition(edition)],
            published,
        ) == StepView::<FetchStage, MetadataFailure>::Done(
            Err(MetadataFailure::OpenLibrary(OpenLibraryFailure::MissingWork)),
        ),
        edition.works.len() > 0 ==> run(
            FetchStage::start(settings, isbn, MetadataProvider::OpenLibrary),
            seq![ReplyView::Ready, ReplyView::Status(200), ReplyView::Edition(edition), ReplyView::Status(404)],
            published,
        ) == StepView::<FetchStage, MetadataFailure>::Done(
            Err(MetadataFailure::OpenLibrary(OpenLibraryFailure::NotFound)),
        ),
        edition.works.len() > 0 && author_keys(work.authors).len() > 0 ==> run(
            FetchStage::start(settings, isbn, MetadataProvider::OpenLibrary),
            seq![
                ReplyView::Ready,
                ReplyView::Status(200),
                ReplyView::Edition(edition),
                ReplyView::Status(200),
                ReplyView::Work(work),
                ReplyView::Status(404),
            ],
            published,
        ) == StepView::<FetchStage, MetadataFailure>::Done(
            Err(MetadataFailure::OpenLibrary(OpenLibraryFailure::NotFound)),
        ),
{
    let contact = settings.open_library->0;
    let start = OpenLibraryStage::Connecting { contact, isbn };
    lemma_fetch_of_what_is_missing(contact, isbn, edition, work, published);
    lemma_run_of_service(start, seq![ReplyView::Ready, ReplyView::Status(404)], published);
    lemma_run_of_service(
        start,
        seq![ReplyView::Ready, ReplyView::Status(200), ReplyView::Edition(edition)],
        published,
    );
    lemma_run_of_service(
        start,
        seq![ReplyView::Ready, ReplyView::Status(200), ReplyView::Edition(edition), ReplyView::Status(404)],
        published,
    );
    lemma_run_of_service(
        start,
        seq![
            ReplyView::Ready,
            ReplyView::Status(200),
            ReplyView::Edition(edition),
            ReplyView::Status(200),
            ReplyView::Work(work),
            ReplyView::Status(404),
        ],
        published,
    );
}

/// Asked for a book of which the bibliographic service lacks an author,
/// whichever of the work's authors it is, the facade returns the error that
/// a resource was not found.
pub proof fn lemma_facade_misses_an_author(
    settings: Settings,
    isbn: Seq<char>,
    edition: EditionView,
    work: WorkView,
    authors: Seq<AuthorView>,
    published: Option<CalendarDate>,
)
    requires
        settings.configures(MetadataProvider::OpenLibrary),
        edition.works.len() > 0,
        authors.len() < author_keys(work.authors).len(),
    ensures
        run(
            FetchStage::start(settings, isbn, MetadataProvider::OpenLibrary),
            served_until(edition, work, authors),
            published,
        ) == StepView::<FetchStage, MetadataFailure>::Done(
            Err(MetadataFailure::OpenLibrary(OpenLibraryFailure::NotFound)),
        ),
{
    let contact = settings.open_library->0;
    lemma_fetch_without_an_author(contact, isbn, edition, work, authors, published);
    lemma_run_of_service(
        OpenLibraryStage::Connecting { contact, isbn },
        served_until(edition, work, authors),
        published,
    );
}

} // verus!
