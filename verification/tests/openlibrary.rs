use bouquineur::config::OpenLibraryConfig;
use bouquineur::metadata::date::CalendarDate;
use bouquineur::metadata::exchange::{JsonFailure, Reply, Request, Resource, Step};
use bouquineur::metadata::openlibrary::{
    Author, AuthorReference, Description, Edition, OpenLibraryFetch, OpenLibraryMetadataError, Reference,
    RequestFailure, Text, Work,
};

type OlStep = Step<OpenLibraryFetch, OpenLibraryMetadataError>;

fn reference(key: &str) -> Reference {
    Reference { key: key.to_string() }
}

fn contributor(author: &str, role: &str) -> AuthorReference {
    AuthorReference { author: reference(author), ty: reference(role) }
}

fn edition() -> Edition {
    Edition {
        publish_date: Some("2020-08-15T00:00:00Z".to_string()),
        publishers: vec!["Chilton Books".to_string(), "Ace".to_string()],
        languages: vec![reference("/languages/eng"), reference("/languages/fre")],
        number_of_pages: Some(412),
        covers: vec![],
        works: vec![reference("/works/OL893415W")],
    }
}

fn work() -> Work {
    Work {
        description: Some(Description::Str("A desert planet.".to_string())),
        subjects: vec!["Science fiction".to_string(), "Sand".to_string()],
        authors: vec![
            contributor("/authors/OL1A", "/type/author_role"),
            contributor("/authors/OL2A", "/type/translator_role"),
            contributor("/authors/OL3A", "/type/author_role"),
        ],
        title: Some("Dune".to_string()),
    }
}

fn named(name: &str) -> Author {
    Author { name: Some(name.to_string()) }
}

fn go_on(step: OlStep) -> OpenLibraryFetch {
    match step {
        Step::Next(fetch) => fetch,
        Step::Done(outcome) => panic!("the fetch ended early: {:?}", outcome),
    }
}

fn get(url: &str) -> Request {
    Request::Get { url: url.to_string() }
}

fn begun() -> OpenLibraryFetch {
    OpenLibraryFetch::start(&OpenLibraryConfig { contact: "reader@example.org".to_string() }, "9780441172719")
}

fn awaiting_edition_status() -> OpenLibraryFetch {
    go_on(begun().step(Reply::Ready))
}

fn awaiting_work_status(edition: Edition) -> OpenLibraryFetch {
    let fetch = go_on(awaiting_edition_status().step(Reply::Status(200)));
    assert_eq!(fetch.request(), Request::Read(Resource::Edition));
    go_on(fetch.step(Reply::Edition(edition)))
}

fn awaiting_work(edition: Edition) -> OpenLibraryFetch {
    let fetch = go_on(awaiting_work_status(edition).step(Reply::Status(200)));
    assert_eq!(fetch.request(), Request::Read(Resource::Work));
    fetch
}

#[test]
fn client_introduces_itself_with_the_contact() {
    assert_eq!(
        begun().request(),
        Request::Connect { user_agent: "github.com/traxys/bouquineur (reader@example.org)".to_string() }
    );
}

#[test]
fn client_that_cannot_be_built_is_a_make_client_error() {
    match begun().step(Reply::Failed("invalid header value".to_string())) {
        Step::Done(Err(e)) => {
            assert_eq!(e, OpenLibraryMetadataError::MakeClient("invalid header value".to_string()));
            assert_eq!(e.message(), "Could not make open library client");
        }
        other => panic!("unexpected step: {:?}", other),
    }
}

#[test]
fn edition_is_asked_for_by_isbn() {
    assert_eq!(awaiting_edition_status().request(), get("https://openlibrary.org/isbn/9780441172719.json"));
}

#[test]
fn missing_edition_is_a_clean_absence() {
    let step = awaiting_edition_status().step(Reply::Status(404));
    assert!(matches!(step, Step::Done(Ok(None))));
}

#[test]
fn error_status_is_a_request_error() {
    for code in [500u16, 403, 301, 100] {
        match awaiting_edition_status().step(Reply::Status(code)) {
            Step::Done(Err(e)) => {
                assert_eq!(e, OpenLibraryMetadataError::RequestError(RequestFailure::Status(code)));
                assert_eq!(e.message(), "Error in HTTP request");
            }
            other => panic!("unexpected step: {:?}", other),
        }
    }
    for code in [200u16, 204, 299] {
        go_on(awaiting_edition_status().step(Reply::Status(code)));
    }
}

#[test]
fn transport_failure_is_a_request_error() {
    let step = awaiting_edition_status().step(Reply::Failed("connection refused".to_string()));
    assert!(matches!(
        step,
        Step::Done(Err(OpenLibraryMetadataError::RequestError(RequestFailure::Transport(ref m)))) if m == "connection refused"
    ));
    let fetch = go_on(awaiting_edition_status().step(Reply::Status(200)));
    let step = fetch.step(Reply::Failed("reset".to_string()));
    assert!(matches!(
        step,
        Step::Done(Err(OpenLibraryMetadataError::RequestError(RequestFailure::Transport(ref m)))) if m == "reset"
    ));
}

#[test]
fn edition_without_work_is_missing_work() {
    let mut e = edition();
    e.works.clear();
    let fetch = go_on(awaiting_edition_status().step(Reply::Status(200)));
    match fetch.step(Reply::Edition(e)) {
        Step::Done(Err(e)) => {
            assert_eq!(e, OpenLibraryMetadataError::MissingWork);
            assert_eq!(e.message(), "Work is missing from edition");
        }
        other => panic!("unexpected step: {:?}", other),
    }
}

#[test]
fn malformed_document_reports_the_path() {
    let fetch = go_on(awaiting_edition_status().step(Reply::Status(200)));
    let failure = JsonFailure {
        path: "works[0].key".to_string(),
        message: "invalid type: integer `3`, expected a string".to_string(),
    };
    match fetch.step(Reply::Malformed(failure)) {
        Step::Done(Err(e)) => {
            assert!(matches!(e, OpenLibraryMetadataError::Json(ref f) if f.path == "works[0].key"));
            assert_eq!(
                e.message(),
                "Could not parse JSON response (works[0].key: invalid type: integer `3`, expected a string)"
            );
        }
        other => panic!("unexpected step: {:?}", other),
    }
}

#[test]
fn only_the_first_work_is_followed() {
    let mut e = edition();
    e.works.push(reference("/works/OL2W"));
    assert_eq!(awaiting_work_status(e).request(), get("https://openlibrary.org//works/OL893415W.json"));
}

#[test]
fn missing_work_or_author_is_not_found() {
    match awaiting_work_status(edition()).step(Reply::Status(404)) {
        Step::Done(Err(e)) => {
            assert_eq!(e, OpenLibraryMetadataError::NotFound);
            assert_eq!(e.message(), "Expected resource was not found");
        }
        other => panic!("unexpected step: {:?}", other),
    }
    let fetch = go_on(awaiting_work(edition()).step(Reply::Work(work())));
    let step = fetch.step(Reply::Status(404));
    assert!(matches!(step, Step::Done(Err(OpenLibraryMetadataError::NotFound))));
}

#[test]
fn authors_are_asked_for_in_order_and_other_roles_skipped() {
    let fetch = go_on(awaiting_work(edition()).step(Reply::Work(work())));
    assert_eq!(fetch.request(), get("https://openlibrary.org//authors/OL1A.json"));
    let fetch = go_on(fetch.step(Reply::Status(200)));
    assert_eq!(fetch.request(), Request::Read(Resource::Author));
    let fetch = go_on(fetch.step(Reply::Author(named("Frank Herbert"))));
    assert_eq!(fetch.request(), get("https://openlibrary.org//authors/OL3A.json"));
    let fetch = go_on(fetch.step(Reply::Status(200)));
    match fetch.step(Reply::Author(named("Brian Herbert"))) {
        Step::Done(Ok(Some(record))) => {
            assert_eq!(record.authors, vec!["Frank Herbert".to_string(), "Brian Herbert".to_string()]);
            assert_eq!(record.isbn, Some("9780441172719".to_string()));
            assert_eq!(record.title, Some("Dune".to_string()));
            assert_eq!(record.publisher, Some("Chilton Books".to_string()));
            assert_eq!(record.language, Some("eng".to_string()));
            assert_eq!(record.summary, Some("A desert planet.".to_string()));
            assert_eq!(record.tags, vec!["Science fiction".to_string(), "Sand".to_string()]);
            assert_eq!(record.published, Some(CalendarDate { year: 2020, month: 8, day: 15 }));
            assert_eq!(record.page_count, Some(412));
            assert_eq!(record.covert_art_b64, None);
            assert_eq!(record.google_id, None);
            assert_eq!(record.amazon_id, None);
            assert_eq!(record.librarything_id, None);
            assert_eq!(record.series, None);
            assert!(!record.read);
            assert!(!record.owned);
        }
        other => panic!("unexpected step: {:?}", other),
    }
}

#[test]
fn author_without_name_is_skipped() {
    let fetch = go_on(awaiting_work(edition()).step(Reply::Work(work())));
    let fetch = go_on(fetch.step(Reply::Status(200)));
    let fetch = go_on(fetch.step(Reply::Author(Author { name: None })));
    let fetch = go_on(fetch.step(Reply::Status(200)));
    match fetch.step(Reply::Author(named("Brian Herbert"))) {
        Step::Done(Ok(Some(record))) => assert_eq!(record.authors, vec!["Brian Herbert".to_string()]),
        other => panic!("unexpected step: {:?}", other),
    }
}

#[test]
fn work_without_authors_completes_the_record() {
    let mut w = work();
    w.authors = vec![contributor("/authors/OL2A", "/type/translator_role")];
    w.description = None;
    w.title = None;
    let mut e = edition();
    e.publish_date = None;
    e.publishers.clear();
    e.languages.clear();
    e.number_of_pages = None;
    match awaiting_work(e).step(Reply::Work(w)) {
        Step::Done(Ok(Some(record))) => {
            assert_eq!(record.authors, Vec::<String>::new());
            assert_eq!(record.isbn, Some("9780441172719".to_string()));
            assert_eq!(record.title, None);
            assert_eq!(record.summary, None);
            assert_eq!(record.publisher, None);
            assert_eq!(record.language, None);
            assert_eq!(record.published, None);
            assert_eq!(record.page_count, None);
        }
        other => panic!("unexpected step: {:?}", other),
    }
}

#[test]
fn first_cover_is_fetched_in_medium_size_and_embedded() {
    let mut w = work();
    w.authors.clear();
    let mut e = edition();
    e.covers = vec![-1, 8231856];
    let fetch = go_on(awaiting_work(e).step(Reply::Work(w)));
    assert_eq!(fetch.request(), Request::GetBytes { url: "https://covers.openlibrary.org/b/id/-1-M.jpg".to_string() });
    let mut w = work();
    w.authors.clear();
    let mut e = edition();
    e.covers = vec![8231856, 12];
    let fetch = go_on(awaiting_work(e).step(Reply::Work(w)));
    assert_eq!(
        fetch.request(),
        Request::GetBytes { url: "https://covers.openlibrary.org/b/id/8231856-M.jpg".to_string() }
    );
    match fetch.step(Reply::Bytes(b"hello world~".to_vec())) {
        Step::Done(Ok(Some(record))) => {
            assert_eq!(record.covert_art_b64, Some("aGVsbG8gd29ybGR+".to_string()));
            assert_eq!(record.title, Some("Dune".to_string()));
            assert_eq!(record.published, Some(CalendarDate { year: 2020, month: 8, day: 15 }));
        }
        other => panic!("unexpected step: {:?}", other),
    }
}

#[test]
fn cover_that_cannot_be_fetched_is_a_request_error() {
    let mut w = work();
    w.authors.clear();
    let mut e = edition();
    e.covers = vec![7];
    let fetch = go_on(awaiting_work(e).step(Reply::Work(w)));
    let step = fetch.step(Reply::Failed("timed out".to_string()));
    assert!(matches!(
        step,
        Step::Done(Err(OpenLibraryMetadataError::RequestError(RequestFailure::Transport(ref m)))) if m == "timed out"
    ));
}

#[test]
fn both_forms_of_description_give_the_same_summary() {
    let bare = Description::Str("A desert planet.".to_string());
    let wrapped = Description::Value(Text { value: "A desert planet.".to_string() });
    assert_eq!(bare.text(), "A desert planet.");
    assert_eq!(wrapped.text(), "A desert planet.");
    let mut w = work();
    w.authors.clear();
    w.description = Some(Description::Value(Text { value: "A desert planet.".to_string() }));
    match awaiting_work(edition()).step(Reply::Work(w)) {
        Step::Done(Ok(Some(record))) => assert_eq!(record.summary, Some("A desert planet.".to_string())),
        other => panic!("unexpected step: {:?}", other),
    }
}

#[test]
fn language_without_the_common_prefix_gives_no_code() {
    let mut w = work();
    w.authors.clear();
    let mut e = edition();
    e.languages = vec![reference("/lang/eng"), reference("/languages/fre")];
    match awaiting_work(e).step(Reply::Work(w)) {
        Step::Done(Ok(Some(record))) => assert_eq!(record.language, None),
        other => panic!("unexpected step: {:?}", other),
    }
    let mut w = work();
    w.authors.clear();
    let mut e = edition();
    e.languages = vec![reference("/languages/")];
    match awaiting_work(e).step(Reply::Work(w)) {
        Step::Done(Ok(Some(record))) => assert_eq!(record.language, Some(String::new())),
        other => panic!("unexpected step: {:?}", other),
    }
}

#[test]
fn advance_takes_the_date_it_is_given() {
    let mut w = work();
    w.authors.clear();
    let day = CalendarDate { year: 1965, month: 8, day: 1 };
    match awaiting_work(edition()).advance(Reply::Work(w), Some(day)) {
        Step::Done(Ok(Some(record))) => assert_eq!(record.published, Some(day)),
        other => panic!("unexpected step: {:?}", other),
    }
    let fetch = awaiting_work(edition());
    assert!(!fetch.settles(&Reply::Work(work())));
    let mut w = work();
    w.authors.clear();
    assert!(fetch.settles(&Reply::Work(w)));
}

#[test]
fn reply_to_another_request_is_ignored() {
    let fetch = awaiting_edition_status();
    let before = fetch.request();
    let fetch = go_on(fetch.step(Reply::Bytes(vec![1])));
    assert_eq!(fetch.request(), before);
    let fetch = go_on(begun().step(Reply::Status(200)));
    assert!(matches!(fetch.request(), Request::Connect { .. }));
}

#[test]
fn edition_dated_with_a_bare_year_is_published_on_its_first_day() {
    let mut e = edition();
    e.publish_date = Some("1999".to_string());
    let w = Work { description: None, subjects: vec![], authors: vec![], title: None };
    match awaiting_work(e).step(Reply::Work(w)) {
        Step::Done(Ok(Some(record))) => {
            assert_eq!(record.published, Some(CalendarDate { year: 1999, month: 1, day: 1 }));
        }
        other => panic!("unexpected step: {:?}", other),
    }
    let mut e = edition();
    e.publish_date = Some("1999".to_string());
    let fetch = go_on(awaiting_work(e).step(Reply::Work(work())));
    let fetch = go_on(fetch.step(Reply::Status(200)));
    let fetch = go_on(fetch.step(Reply::Author(named("Frank Herbert"))));
    let fetch = go_on(fetch.step(Reply::Status(200)));
    match fetch.step(Reply::Author(named("Brian Herbert"))) {
        Step::Done(Ok(Some(record))) => {
            assert_eq!(record.published, Some(CalendarDate { year: 1999, month: 1, day: 1 }));
        }
        other => panic!("unexpected step: {:?}", other),
    }
}

#[test]
fn edition_dated_with_text_that_no_parser_is_handed_has_no_date() {
    let mut e = edition();
    e.publish_date = Some("in 100000000000 days at 10:30".to_string());
    let w = Work { description: None, subjects: vec![], authors: vec![], title: None };
    match awaiting_work(e).step(Reply::Work(w)) {
        Step::Done(Ok(Some(record))) => assert_eq!(record.published, None),
        other => panic!("unexpected step: {:?}", other),
    }
}

#[test]
fn any_missing_author_is_not_found() {
    let fetch = go_on(awaiting_work(edition()).step(Reply::Work(work())));
    let fetch = go_on(fetch.step(Reply::Status(200)));
    let fetch = go_on(fetch.step(Reply::Author(named("Frank Herbert"))));
    let step = fetch.step(Reply::Status(404));
    assert!(matches!(step, Step::Done(Err(OpenLibraryMetadataError::NotFound))));
}
