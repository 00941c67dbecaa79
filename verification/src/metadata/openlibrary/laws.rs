//! What holds of every fetch from the bibliographic service.
//!
//! The laws speak of whole fetches: of the step a fetch takes for each of a
//! list of replies, and of the requests it makes on the way.

use vstd::prelude::*;

use crate::metadata::date::CalendarDate;
use crate::metadata::exchange::{ReplyView, RequestView, Resource, StepView};
use crate::metadata::openlibrary::{
    author_keys, completed, cover_url, draft_of, edition_url, first_cover, resource_url, user_agent, with_author,
    AuthorView, DescriptionView, EditionView, GatheringView, OpenLibraryFailure, OpenLibraryStage, WorkView,
};
use crate::metadata::text::base64_text;
use crate::metadata::BookDetails;

verus! {

/// A step keeps a fetch well formed.
pub proof fn lemma_next_keeps_wf(stage: OpenLibraryStage, reply: ReplyView, published: Option<CalendarDate>)
    requires
        stage.wf(),
    ensures
        stage.next(reply, published) matches StepView::Next(after) ==> after.wf(),
{
}

/// The date matters only to a reply that completes the record: every other
/// step is the same whatever date is offered.
pub proof fn lemma_date_matters_only_at_the_end(
    stage: OpenLibraryStage,
    reply: ReplyView,
    one: Option<CalendarDate>,
    other: Option<CalendarDate>,
)
    requires
        !stage.settles(reply),
    ensures
        stage.next(reply, one) == stage.next(reply, other),
{
}

/// Where a fetch stands after a list of replies, each taken in its turn. A
/// fetch that has ended looks at no further reply.
pub open spec fn run(stage: OpenLibraryStage, replies: Seq<ReplyView>, published: Option<CalendarDate>) -> StepView<
    OpenLibraryStage,
    OpenLibraryFailure,
>
    decreases replies.len(),
{
    if replies.len() == 0 {
        StepView::Next(stage)
    } else {
        match stage.next(replies[0], published) {
            StepView::Next(after) => run(after, replies.drop_first(), published),
            done => done,
        }
    }
}

/// The requests that a fetch makes while it takes a list of replies, one
/// request before each reply it looks at.
pub open spec fn asked(stage: OpenLibraryStage, replies: Seq<ReplyView>, published: Option<CalendarDate>) -> Seq<
    RequestView,
>
    decreases replies.len(),
{
    if replies.len() == 0 {
        Seq::empty()
    } else {
        seq![stage.pending()] + (match stage.next(replies[0], published) {
            StepView::Next(after) => asked(after, replies.drop_first(), published),
            _ => Seq::empty(),
        })
    }
}

/// The replies of a service that has every author it is asked for.
pub open spec fn author_replies(authors: Seq<AuthorView>) -> Seq<ReplyView>
    decreases authors.len(),
{
    if authors.len() == 0 {
        Seq::empty()
    } else {
        seq![ReplyView::Status(200), ReplyView::Author(authors[0])] + author_replies(authors.drop_first())
    }
}

/// The requests for the authors with the given keys.
pub open spec fn author_requests(keys: Seq<Seq<char>>) -> Seq<RequestView>
    decreases keys.len(),
{
    if keys.len() == 0 {
        Seq::empty()
    } else {
        seq![RequestView::Get { url: resource_url(keys[0]) }, RequestView::Read(Resource::Author)]
            + author_requests(keys.drop_first())
    }
}

/// The reply with the cover, where the edition has one.
pub open spec fn cover_reply(edition: EditionView, image: Seq<u8>) -> Seq<ReplyView> {
    if edition.covers.len() > 0 {
        seq![ReplyView::Bytes(image)]
    } else {
        Seq::empty()
    }
}

/// The request for the cover, where the edition has one.
pub open spec fn cover_request(edition: EditionView) -> Seq<RequestView> {
    if edition.covers.len() > 0 {
        seq![RequestView::GetBytes { url: cover_url(edition.covers[0]) }]
    } else {
        Seq::empty()
    }
}

/// The replies of a service that has an edition, its work, the work's
/// authors, one for each contributor in the role of an author and in their
/// order, and the cover.
pub open spec fn served(edition: EditionView, work: WorkView, authors: Seq<AuthorView>, image: Seq<u8>) -> Seq<
    ReplyView,
> {
    seq![
        ReplyView::Ready,
        ReplyView::Status(200),
        ReplyView::Edition(edition),
        ReplyView::Status(200),
        ReplyView::Work(work),
    ] + author_replies(authors) + cover_reply(edition, image)
}

/// The requests that lead to a book's record: for the client, the edition,
/// its first work, each author of the work in the work's order, and the
/// cover.
pub open spec fn requests_for(contact: Seq<char>, isbn: Seq<char>, edition: EditionView, work: WorkView) -> Seq<
    RequestView,
>
    recommends
        edition.works.len() > 0,
{
    seq![
        RequestView::Connect { user_agent: user_agent(contact) },
        RequestView::Get { url: edition_url(isbn) },
        RequestView::Read(Resource::Edition),
        RequestView::Get { url: resource_url(edition.works[0]) },
        RequestView::Read(Resource::Work),
    ] + author_requests(author_keys(work.authors)) + cover_request(edition)
}

/// The names of the authors that have one, in their order.
pub open spec fn names(authors: Seq<AuthorView>) -> Seq<Seq<char>> {
    authors.filter_map(|a: AuthorView| a.name)
}

/// The record of a book, made of its edition, its work, the work's authors,
/// the publication date that was settled on and the cover.
pub open spec fn record_of(
    isbn: Seq<char>,
    edition: EditionView,
    work: WorkView,
    authors: Seq<AuthorView>,
    published: Option<CalendarDate>,
    image: Seq<u8>,
) -> BookDetails {
    BookDetails {
        authors: names(authors),
        published,
        covert_art_b64: if edition.covers.len() > 0 {
            Some(base64_text(image))
        } else {
            None
        },
        ..draft_of(isbn, edition, work)
    }
}

/// What a step leads to once the replies that follow it are taken too.
pub open spec fn and_then(
    step: StepView<OpenLibraryStage, OpenLibraryFailure>,
    replies: Seq<ReplyView>,
    published: Option<CalendarDate>,
) -> StepView<OpenLibraryStage, OpenLibraryFailure> {
    match step {
        StepView::Next(after) => run(after, replies, published),
        done => done,
    }
}

/// The requests made after a step, while the replies that follow it are
/// taken.
pub open spec fn asked_after(
    step: StepView<OpenLibraryStage, OpenLibraryFailure>,
    replies: Seq<ReplyView>,
    published: Option<CalendarDate>,
) -> Seq<RequestView> {
    match step {
        StepView::Next(after) => asked(after, replies, published),
        _ => Seq::empty(),
    }
}

/// Taking a list of replies is taking the first and then the rest.
proof fn lemma_unfold(stage: OpenLibraryStage, replies: Seq<ReplyView>, published: Option<CalendarDate>)
    requires
        replies.len() > 0,
    ensures
        run(stage, replies, published) == and_then(
            stage.next(replies[0], published),
            replies.drop_first(),
            published,
        ),
        asked(stage, replies, published) == seq![stage.pending()] + asked_after(
            stage.next(replies[0], published),
            replies.drop_first(),
            published,
        ),
{
}

proof fn lemma_gathering(
    g: GatheringView,
    authors: Seq<AuthorView>,
    tail: Seq<ReplyView>,
    published: Option<CalendarDate>,
)
    requires
        authors.len() == g.keys.len(),
        g.index < g.keys.len(),
        g.draft.authors == names(authors.take(g.index as int)),
    ensures
        run(
            OpenLibraryStage::AuthorStatus(g),
            author_replies(authors.skip(g.index as int)) + tail,
            published,
        ) == and_then(
            completed(BookDetails { authors: names(authors), ..g.draft }, published, g.cover),
            tail,
            published,
        ),
        asked(
            OpenLibraryStage::AuthorStatus(g),
            author_replies(authors.skip(g.index as int)) + tail,
            published,
        ) == author_requests(g.keys.skip(g.index as int)) + asked_after(
            completed(BookDetails { authors: names(authors), ..g.draft }, published, g.cover),
            tail,
            published,
        ),
    decreases g.keys.len() - g.index,
{
    let i = g.index as int;
    let rest = authors.skip(i);
    let replies = author_replies(rest) + tail;
    let later = author_replies(authors.skip(i + 1)) + tail;
    assert(rest.drop_first() =~= authors.skip(i + 1));
    assert(rest[0] == authors[i]);
    assert(replies[0] == ReplyView::Status(200));
    assert(replies.drop_first()[0] == ReplyView::Author(authors[i]));
    assert(replies.drop_first().drop_first() =~= later);
    assert(g.keys.skip(i).drop_first() =~= g.keys.skip(i + 1));
    assert(g.keys.skip(i)[0] == g.keys[i]);
    authors.lemma_filter_map_take_succ(|a: AuthorView| a.name, i);
    let draft = with_author(g.draft, authors[i]);
    assert(draft.authors =~= names(authors.take(i + 1)));
    let body = OpenLibraryStage::AuthorBody(g);
    assert(OpenLibraryStage::AuthorStatus(g).next(replies[0], published) == StepView::<
        OpenLibraryStage,
        OpenLibraryFailure,
    >::Next(body));
    let requests = seq![RequestView::Get { url: resource_url(g.keys[i]) }, RequestView::Read(Resource::Author)];
    lemma_unfold(OpenLibraryStage::AuthorStatus(g), replies, published);
    lemma_unfold(body, replies.drop_first(), published);
    assert(author_requests(g.keys.skip(i)) == requests + author_requests(g.keys.skip(i + 1))) by {
        assert(g.keys.skip(i).len() > 0);
    }
    if i + 1 < g.keys.len() {
        let after = GatheringView { draft, index: (i + 1) as nat, ..g };
        lemma_gathering(after, authors, tail, published);
        assert(BookDetails { authors: names(authors), ..after.draft } == BookDetails {
            authors: names(authors),
            ..g.draft
        });
        assert(asked(OpenLibraryStage::AuthorStatus(g), replies, published) =~= requests + asked(
            OpenLibraryStage::AuthorStatus(after),
            later,
            published,
        ));
    } else {
        assert(authors.take(i + 1) =~= authors);
        assert(authors.skip(i + 1) =~= Seq::<AuthorView>::empty());
        assert(later =~= tail);
        assert(draft == BookDetails { authors: names(authors), ..g.draft });
        let end = completed(draft, published, g.cover);
        assert(body.next(ReplyView::Author(authors[i]), published) == end);
        assert(asked(OpenLibraryStage::AuthorStatus(g), replies, published) =~= requests + asked_after(
            end,
            tail,
            published,
        ));
        assert(g.keys.skip(i + 1).len() == 0);
        assert(author_requests(g.keys.skip(i + 1)) =~= Seq::<RequestView>::empty());
        assert(author_requests(g.keys.skip(i)) =~= requests);
    }
}

/// A service that has the edition, its work and the work's authors is asked
/// for each of them in turn, the authors in the order in which the work lists
/// its contributors in the role of an author, and the fetch ends with the
/// book's record. The record's authors are the names of the authors that
/// were served, in that same order; contributors in other roles are never
/// asked for, and an author without a name adds none.
pub proof fn lemma_served_fetch(
    contact: Seq<char>,
    isbn: Seq<char>,
    edition: EditionView,
    work: WorkView,
    authors: Seq<AuthorView>,
    image: Seq<u8>,
    published: Option<CalendarDate>,
)
    requires
        edition.works.len() > 0,
        authors.len() == author_keys(work.authors).len(),
    ensures
        run(OpenLibraryStage::Connecting { contact, isbn }, served(edition, work, authors, image), published)
            == StepView::<OpenLibraryStage, OpenLibraryFailure>::Done(
            Ok(Some(record_of(isbn, edition, work, authors, published, image))),
        ),
        asked(OpenLibraryStage::Connecting { contact, isbn }, served(edition, work, authors, image), published)
            == requests_for(contact, isbn, edition, work),
{
    let tail = cover_reply(edition, image);
    let replies = served(edition, work, authors, image);
    let s0 = OpenLibraryStage::Connecting { contact, isbn };
    let s1 = OpenLibraryStage::EditionStatus { isbn };
    let s2 = OpenLibraryStage::EditionBody { isbn };
    let s3 = OpenLibraryStage::WorkStatus { isbn, edition };
    let s4 = OpenLibraryStage::WorkBody { isbn, edition };
    let r1 = replies.drop_first();
    let r2 = r1.drop_first();
    let r3 = r2.drop_first();
    let r4 = r3.drop_first();
    let r5 = r4.drop_first();
    assert(r5 =~= author_replies(authors) + tail);
    assert(s0.next(replies[0], published) == StepView::<OpenLibraryStage, OpenLibraryFailure>::Next(s1));
    assert(s1.next(r1[0], published) == StepView::<OpenLibraryStage, OpenLibraryFailure>::Next(s2));
    assert(s2.next(r2[0], published) == StepView::<OpenLibraryStage, OpenLibraryFailure>::Next(s3));
    assert(s3.next(r3[0], published) == StepView::<OpenLibraryStage, OpenLibraryFailure>::Next(s4));
    let draft = draft_of(isbn, edition, work);
    let keys = author_keys(work.authors);
    let cover = first_cover(edition.covers);
    let record = record_of(isbn, edition, work, authors, published, image);
    let end = completed(BookDetails { authors: names(authors), ..draft }, published, cover);
    assert(and_then(end, tail, published) == StepView::<OpenLibraryStage, OpenLibraryFailure>::Done(
        Ok(Some(record)),
    )) by {
        if edition.covers.len() > 0 {
            assert(tail.drop_first() =~= Seq::<ReplyView>::empty());
        }
    }
    assert(asked_after(end, tail, published) =~= cover_request(edition)) by {
        if edition.covers.len() > 0 {
            assert(tail.drop_first() =~= Seq::<ReplyView>::empty());
        }
    }
    let head = seq![s0.pending(), s1.pending(), s2.pending(), s3.pending(), s4.pending()];
    lemma_unfold(s0, replies, published);
    lemma_unfold(s1, r1, published);
    lemma_unfold(s2, r2, published);
    lemma_unfold(s3, r3, published);
    lemma_unfold(s4, r4, published);
    if keys.len() == 0 {
        assert(authors =~= Seq::<AuthorView>::empty());
        assert(names(authors) =~= Seq::<Seq<char>>::empty());
        assert(r5 =~= tail);
        assert(s4.next(r4[0], published) == end);
        assert(asked(s0, replies, published) =~= head + asked_after(end, tail, published));
    } else {
        let g = GatheringView { draft, publish_date: edition.publish_date, cover, keys, index: 0 };
        assert(s4.next(r4[0], published) == StepView::<OpenLibraryStage, OpenLibraryFailure>::Next(
            OpenLibraryStage::AuthorStatus(g),
        ));
        assert(authors.take(0) =~= Seq::<AuthorView>::empty());
        assert(authors.skip(0) =~= authors);
        assert(keys.skip(0) =~= keys);
        lemma_gathering(g, authors, tail, published);
        assert(asked(s0, replies, published) =~= head + asked(
            OpenLibraryStage::AuthorStatus(g),
            r5,
            published,
        ));
    }
}

/// A description gives the same summary whether the service wrote it as a
/// bare string or wrapped in an object.
pub proof fn lemma_description_forms_agree(text: Seq<char>, isbn: Seq<char>, edition: EditionView, work: WorkView)
    ensures
        DescriptionView::Str(text).text() == text,
        DescriptionView::Value(text).text() == text,
        draft_of(isbn, edition, WorkView { description: Some(DescriptionView::Str(text)), ..work }) == draft_of(
            isbn,
            edition,
            WorkView { description: Some(DescriptionView::Value(text)), ..work },
        ),
        draft_of(isbn, edition, WorkView { description: Some(DescriptionView::Str(text)), ..work }).summary
            == Some(text),
{
}

/// An edition that names no work ends the fetch with an error, never with
/// a record.
pub proof fn lemma_edition_without_work(isbn: Seq<char>, edition: EditionView, published: Option<CalendarDate>)
    requires
        edition.works.len() == 0,
    ensures
        (OpenLibraryStage::EditionBody { isbn }).next(ReplyView::Edition(edition), published) == StepView::<
            OpenLibraryStage,
            OpenLibraryFailure,
        >::Done(Err(OpenLibraryFailure::MissingWork)),
{
}

/// A fetch ends with the finding that the service has no record exactly
/// where the edition is answered with 404. It ends with the error that a
/// resource was not found exactly where a work or an author is answered
/// with 404.
pub proof fn lemma_absence_is_not_an_error(stage: OpenLibraryStage, reply: ReplyView, published: Option<CalendarDate>)
    ensures
        stage.next(reply, published) == StepView::<OpenLibraryStage, OpenLibraryFailure>::Done(Ok(None)) <==> stage
            is EditionStatus && reply == ReplyView::Status(404),
        stage.next(reply, published) == StepView::<OpenLibraryStage, OpenLibraryFailure>::Done(
            Err(OpenLibraryFailure::NotFound),
        ) <==> (stage is WorkStatus || stage is AuthorStatus) && reply == ReplyView::Status(404),
{
}

/// How a fetch ends where the service lacks something. Without the edition
/// the fetch ends with the finding that there is no record. With an edition
/// that names no work it ends with the error that the work is missing.
/// Without the work that the edition names, or without the first author that
/// the work names, it ends with the error that a resource was not found.
pub proof fn lemma_fetch_of_what_is_missing(
    contact: Seq<char>,
    isbn: Seq<char>,
    edition: EditionView,
    work: WorkView,
    published: Option<CalendarDate>,
)
    ensures
        run(
            OpenLibraryStage::Connecting { contact, isbn },
            seq![ReplyView::Ready, ReplyView::Status(404)],
            published,
        ) == StepView::<OpenLibraryStage, OpenLibraryFailure>::Done(Ok(None)),
        edition.works.len() == 0 ==> run(
            OpenLibraryStage::Connecting { contact, isbn },
            seq![ReplyView::Ready, ReplyView::Status(200), ReplyView::Edition(edition)],
            published,
        ) == StepView::<OpenLibraryStage, OpenLibraryFailure>::Done(Err(OpenLibraryFailure::MissingWork)),
        edition.works.len() > 0 ==> run(
            OpenLibraryStage::Connecting { contact, isbn },
            seq![ReplyView::Ready, ReplyView::Status(200), ReplyView::Edition(edition), ReplyView::Status(404)],
            published,
        ) == StepView::<OpenLibraryStage, OpenLibraryFailure>::Done(Err(OpenLibraryFailure::NotFound)),
        edition.works.len() > 0 && author_keys(work.authors).len() > 0 ==> run(
            OpenLibraryStage::Connecting { contact, isbn },
            seq![
                ReplyView::Ready,
                ReplyView::Status(200),
                ReplyView::Edition(edition),
                ReplyView::Status(200),
                ReplyView::Work(work),
                ReplyView::Status(404),
            ],
            published,
        ) == StepView::<OpenLibraryStage, OpenLibraryFailure>::Done(Err(OpenLibraryFailure::NotFound)),
{
    let s0 = OpenLibraryStage::Connecting { contact, isbn };
    let s1 = OpenLibraryStage::EditionStatus { isbn };
    let s2 = OpenLibraryStage::EditionBody { isbn };
    let s3 = OpenLibraryStage::WorkStatus { isbn, edition };
    let s4 = OpenLibraryStage::WorkBody { isbn, edition };
    let absent = seq![ReplyView::Ready, ReplyView::Status(404)];
    lemma_unfold(s0, absent, published);
    lemma_unfold(s1, absent.drop_first(), published);
    let short = seq![ReplyView::Ready, ReplyView::Status(200), ReplyView::Edition(edition)];
    lemma_unfold(s0, short, published);
    lemma_unfold(s1, short.drop_first(), published);
    lemma_unfold(s2, short.drop_first().drop_first(), published);
    let workless = seq![
        ReplyView::Ready,
        ReplyView::Status(200),
        ReplyView::Edition(edition),
        ReplyView::Status(404),
    ];
    lemma_unfold(s0, workless, published);
    lemma_unfold(s1, workless.drop_first(), published);
    lemma_unfold(s2, workless.drop_first().drop_first(), published);
    lemma_unfold(s3, workless.drop_first().drop_first().drop_first(), published);
    let authorless = seq![
        ReplyView::Ready,
        ReplyView::Status(200),
        ReplyView::Edition(edition),
        ReplyView::Status(200),
        ReplyView::Work(work),
        ReplyView::Status(404),
    ];
    let a1 = authorless.drop_first();
    let a2 = a1.drop_first();
    let a3 = a2.drop_first();
    let a4 = a3.drop_first();
    let a5 = a4.drop_first();
    lemma_unfold(s0, authorless, published);
    lemma_unfold(s1, a1, published);
    lemma_unfold(s2, a2, published);
    lemma_unfold(s3, a3, published);
    lemma_unfold(s4, a4, published);
    if edition.works.len() > 0 && author_keys(work.authors).len() > 0 {
        let g = GatheringView {
            draft: draft_of(isbn, edition, work),
            publish_date: edition.publish_date,
            cover: first_cover(edition.covers),
            keys: author_keys(work.authors),
            index: 0,
        };
        assert(s4.next(a4[0], published) == StepView::<OpenLibraryStage, OpenLibraryFailure>::Next(
            OpenLibraryStage::AuthorStatus(g),
        ));
        lemma_unfold(OpenLibraryStage::AuthorStatus(g), a5, published);
    }
}

proof fn lemma_gathering_stops(g: GatheringView, authors: Seq<AuthorView>, published: Option<CalendarDate>)
    requires
        g.index <= authors.len(),
        authors.len() < g.keys.len(),
    ensures
        run(
            OpenLibraryStage::AuthorStatus(g),
            author_replies(authors.skip(g.index as int)) + seq![ReplyView::Status(404)],
            published,
        ) == StepView::<OpenLibraryStage, OpenLibraryFailure>::Done(Err(OpenLibraryFailure::NotFound)),
    decreases authors.len() - g.index,
{
    let i = g.index as int;
    let rest = authors.skip(i);
    let replies = author_replies(rest) + seq![ReplyView::Status(404)];
    if i == authors.len() {
        assert(rest.len() == 0);
        assert(replies =~= seq![ReplyView::Status(404)]);
        lemma_unfold(OpenLibraryStage::AuthorStatus(g), replies, published);
    } else {
        let later = author_replies(authors.skip(i + 1)) + seq![ReplyView::Status(404)];
        assert(rest.drop_first() =~= authors.skip(i + 1));
        assert(rest[0] == authors[i]);
        assert(replies[0] == ReplyView::Status(200));
        assert(replies.drop_first()[0] == ReplyView::Author(authors[i]));
        assert(replies.drop_first().drop_first() =~= later);
        let body = OpenLibraryStage::AuthorBody(g);
        lemma_unfold(OpenLibraryStage::AuthorStatus(g), replies, published);
        lemma_unfold(body, replies.drop_first(), published);
        let after = GatheringView { draft: with_author(g.draft, authors[i]), index: (i + 1) as nat, ..g };
        assert(body.next(ReplyView::Author(authors[i]), published) == StepView::<
            OpenLibraryStage,
            OpenLibraryFailure,
        >::Next(OpenLibraryStage::AuthorStatus(after)));
        lemma_gathering_stops(after, authors, published);
    }
}

/// The replies of a service that has an edition, its work and the first of
/// the work's authors, and lacks the author that is asked for next.
pub open spec fn served_until(edition: EditionView, work: WorkView, authors: Seq<AuthorView>) -> Seq<ReplyView> {
    seq![
        ReplyView::Ready,
        ReplyView::Status(200),
        ReplyView::Edition(edition),
        ReplyView::Status(200),
        ReplyView::Work(work),
    ] + author_replies(authors) + seq![ReplyView::Status(404)]
}

/// Where the service lacks one of the authors that the work names, whichever
/// of them it is, the fetch ends with the error that a resource was not
/// found, however many authors were served before.
pub proof fn lemma_fetch_without_an_author(
    contact: Seq<char>,
    isbn: Seq<char>,
    edition: EditionView,
    work: WorkView,
    authors: Seq<AuthorView>,
    published: Option<CalendarDate>,
)
    requires
        edition.works.len() > 0,
        authors.len() < author_keys(work.authors).len(),
    ensures
        run(OpenLibraryStage::Connecting { contact, isbn }, served_until(edition, work, authors), published)
            == StepView::<OpenLibraryStage, OpenLibraryFailure>::Done(Err(OpenLibraryFailure::NotFound)),
{
    let replies = served_until(edition, work, authors);
    let s0 = OpenLibraryStage::Connecting { contact, isbn };
    let s1 = OpenLibraryStage::EditionStatus { isbn };
    let s2 = OpenLibraryStage::EditionBody { isbn };
    let s3 = OpenLibraryStage::WorkStatus { isbn, edition };
    let s4 = OpenLibraryStage::WorkBody { isbn, edition };
    let r1 = replies.drop_first();
    let r2 = r1.drop_first();
    let r3 = r2.drop_first();
    let r4 = r3.drop_first();
    let r5 = r4.drop_first();
    assert(r5 =~= author_replies(authors) + seq![ReplyView::Status(404)]);
    lemma_unfold(s0, replies, published);
    lemma_unfold(s1, r1, published);
    lemma_unfold(s2, r2, published);
    lemma_unfold(s3, r3, published);
    lemma_unfold(s4, r4, published);
    let g = GatheringView {
        draft: draft_of(isbn, edition, work),
        publish_date: edition.publish_date,
        cover: first_cover(edition.covers),
        keys: author_keys(work.authors),
        index: 0,
    };
    assert(s4.next(r4[0], published) == StepView::<OpenLibraryStage, OpenLibraryFailure>::Next(
        OpenLibraryStage::AuthorStatus(g),
    ));
    assert(authors.skip(0) =~= authors);
    lemma_gathering_stops(g, authors, published);
}

} // verus!
