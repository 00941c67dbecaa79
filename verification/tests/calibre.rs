use bouquineur::config::CalibreConfig;
use bouquineur::metadata::calibre::{parse_opf, parse_output, CalibreFetch, CalibreMetadataError};
use bouquineur::metadata::date::CalendarDate;
use bouquineur::metadata::exchange::{Reply, Request, Step};
use bouquineur::metadata::NullableBookDetails;

const HP: &str = r#"<?xml version='1.0' encoding='utf-8'?>
<package xmlns="http://www.idpf.org/2007/opf" unique-identifier="uuid_id" version="2.0">
    <metadata xmlns:dc="http://purl.org/dc/elements/1.1/" xmlns:opf="http://www.idpf.org/2007/opf">
        <dc:identifier opf:scheme="calibre" id="calibre_id">0</dc:identifier>
        <dc:identifier opf:scheme="uuid" id="uuid_id">d2b2b1a3-5c0f-4b5e-9c53-0a8a5b8a5d1e</dc:identifier>
        <dc:title>Harry Potter and the Philosopher's Stone: MinaLima Edition</dc:title>
        <dc:creator opf:file-as="Unknown" opf:role="aut">J. K. Rowling</dc:creator>
        <dc:contributor opf:file-as="calibre" opf:role="bkp">calibre (7.16.0) [https://calibre-ebook.com]</dc:contributor>
        <dc:date>2020-08-15T00:00:00+00:00</dc:date>
        <dc:description>&lt;p&gt;An irresistible new edition of &lt;em&gt;Harry Potter and the Philosopher's Stone&lt;/em&gt; created with ultra-talented designers MinaLima, the design magicians behind the gorgeous visual graphic style of the Harry Potter and Fantastic Beasts films. J.K. Rowling's complete and unabridged text is accompanied by MinaLima's handsome colour illustrations on nearly every page, superb design, and eight exclusive interactive paper-engineered elements – including Harry's Hogwarts letter, the magical entrance to Diagon Alley, a sumptuous feast in the Great Hall of Hogwarts and more.  &lt;/p&gt;
&lt;p&gt;Designed and illustrated by the iconic house of MinaLima – best known for establishing the graphic design of the Harry Potter and Fantastic Beasts films – this is the perfect gift for Harry Potter fans and a beautiful addition to any collector's bookshelf, enticing readers of all ages to discover the Harry Potter novels all over again.&lt;/p&gt;</dc:description>
        <dc:publisher>BLOOMSBURY</dc:publisher>
        <dc:identifier opf:scheme="GOOGLE">cmNSzQEACAAJ</dc:identifier>
        <dc:identifier opf:scheme="ISBN">9781526626585</dc:identifier>
        <dc:identifier opf:scheme="AMAZON">1526626586</dc:identifier>
        <dc:language>eng</dc:language>
        <dc:subject>Fiction</dc:subject>
        <dc:subject>General</dc:subject>
        <dc:subject>Fantasy</dc:subject>
        <dc:subject>Juvenile Fiction</dc:subject>
        <dc:subject>Action &amp; Adventure</dc:subject>
        <dc:subject>Fantasy &amp; Magic</dc:subject>
    </metadata>
    <guide/>
</package>
"#;

fn owned(s: &str) -> Option<String> {
    Some(s.to_string())
}

#[test]
fn hp() {
    let actual = parse_opf(HP, &[]).unwrap().unwrap();
    let expected = NullableBookDetails {
        isbn: owned("9781526626585"),
        title: owned("Harry Potter and the Philosopher's Stone: MinaLima Edition"),
        authors: vec!["J. K. Rowling".to_string()],
        tags: vec![
            "Fiction".to_string(),
            "General".to_string(),
            "Fantasy".to_string(),
            "Juvenile Fiction".to_string(),
            "Action & Adventure".to_string(),
            "Fantasy & Magic".to_string(),
        ],
        summary: owned("<p>An irresistible new edition of <em>Harry Potter and the Philosopher's Stone</em> created with ultra-talented designers MinaLima, the design magicians behind the gorgeous visual graphic style of the Harry Potter and Fantastic Beasts films. J.K. Rowling's complete and unabridged text is accompanied by MinaLima's handsome colour illustrations on nearly every page, superb design, and eight exclusive interactive paper-engineered elements – including Harry's Hogwarts letter, the magical entrance to Diagon Alley, a sumptuous feast in the Great Hall of Hogwarts and more.  </p>\n<p>Designed and illustrated by the iconic house of MinaLima – best known for establishing the graphic design of the Harry Potter and Fantastic Beasts films – this is the perfect gift for Harry Potter fans and a beautiful addition to any collector's bookshelf, enticing readers of all ages to discover the Harry Potter novels all over again.</p>"),
        published: Some(CalendarDate { year: 2020, month: 8, day: 15 }),
        publisher: owned("BLOOMSBURY"),
        language: owned("eng"),
        google_id: owned("cmNSzQEACAAJ"),
        amazon_id: owned("1526626586"),
        librarything_id: None,
        page_count: None,
        read: false,
        owned: false,
        covert_art_b64: None,
        series: None,
    };
    assert_eq!(actual, expected);
}

#[test]
fn document_without_metadata_is_a_clean_absence() {
    let found = parse_opf("<package><guide/></package>", &[1, 2, 3]).unwrap();
    assert!(found.is_none());
}

#[test]
fn minimal_document_gives_title_author_and_isbn() {
    let document = r#"<package xmlns:dc="http://purl.org/dc/elements/1.1/" xmlns:opf="http://www.idpf.org/2007/opf">
  <metadata>
    <dc:title>Dune</dc:title>
    <dc:creator opf:role="aut">Frank Herbert</dc:creator>
    <dc:identifier opf:scheme="ISBN">9780441172719</dc:identifier>
  </metadata>
</package>"#;
    let record = parse_opf(document, &[]).unwrap().unwrap();
    assert_eq!(record.title, owned("Dune"));
    assert_eq!(record.authors, vec!["Frank Herbert".to_string()]);
    assert_eq!(record.isbn, owned("9780441172719"));
    assert_eq!(record.published, None);
    assert_eq!(record.covert_art_b64, None);
    assert_eq!(record.tags, Vec::<String>::new());
}

#[test]
fn cover_is_embedded_as_base64() {
    let record = parse_opf("<metadata/>", b"hello world~").unwrap().unwrap();
    assert_eq!(record.covert_art_b64, owned("aGVsbG8gd29ybGR+"));
    let record = parse_opf("<metadata/>", &[0xFF, 0xEC, 0x20, 0x55, 0]).unwrap().unwrap();
    assert_eq!(record.covert_art_b64, owned("/+wgVQA="));
}

#[test]
fn text_that_is_not_xml_is_an_xml_error() {
    let e = parse_opf("<metadata><title>unclosed</metadata>", &[]).unwrap_err();
    assert!(matches!(e, CalibreMetadataError::InvalidXmlResponse(_)));
    assert_eq!(e.message(), "Response is not a valid xml document");
    let e = parse_opf("", &[]).unwrap_err();
    assert!(matches!(e, CalibreMetadataError::InvalidXmlResponse(_)));
}

#[test]
fn date_that_is_not_rfc3339_is_a_date_error() {
    let e = parse_opf("<metadata><date>15 August 2020</date></metadata>", &[]).unwrap_err();
    assert!(matches!(e, CalibreMetadataError::InvalidDate(_)));
    assert_eq!(e.message(), "Response contains an invalid date");
}

#[test]
fn date_is_taken_in_its_own_offset() {
    let record = parse_opf("<metadata><date>2020-12-31T23:30:00-05:00</date></metadata>", &[])
        .unwrap()
        .unwrap();
    assert_eq!(record.published, Some(CalendarDate { year: 2020, month: 12, day: 31 }));
    let record = parse_opf("<metadata><date>2021-01-01T00:30:00+01:00</date></metadata>", &[])
        .unwrap()
        .unwrap();
    assert_eq!(record.published, Some(CalendarDate { year: 2021, month: 1, day: 1 }));
}

#[test]
fn first_element_of_a_name_decides_even_without_text() {
    let record = parse_opf(
        "<metadata><title/><title>Second</title><subject/><subject>Kept</subject></metadata>",
        &[],
    )
    .unwrap()
    .unwrap();
    assert_eq!(record.title, None);
    assert_eq!(record.tags, vec!["Kept".to_string()]);
}

#[test]
fn only_what_lies_below_metadata_counts() {
    let document = r#"<package xmlns:opf="http://www.idpf.org/2007/opf">
  <title>Outside, before</title>
  <metadata><creator opf:role="edt">An Editor</creator><creator opf:role="aut">An Author</creator><creator role="aut">No Namespace</creator></metadata>
  <subject>Outside, after</subject>
</package>"#;
    let record = parse_opf(document, &[]).unwrap().unwrap();
    assert_eq!(record.title, None);
    assert_eq!(record.tags, Vec::<String>::new());
    assert_eq!(record.authors, vec!["An Author".to_string()]);
}

#[test]
fn output_that_is_not_utf8_is_an_invalid_response() {
    let e = parse_output(&[b'<', b'a', 0xFF, b'/', b'>'], &[]).unwrap_err();
    assert!(matches!(e, CalibreMetadataError::InvalidResponse(_)));
    assert_eq!(e.message(), "Response is not a valid utf-8 document");
    let record = parse_output("<metadata><title>é</title></metadata>".as_bytes(), &[])
        .unwrap()
        .unwrap();
    assert_eq!(record.title, owned("é"));
}

fn config() -> CalibreConfig {
    CalibreConfig { fetcher: "fetch-ebook-metadata".to_string() }
}

fn running() -> CalibreFetch {
    let fetch = CalibreFetch::start(&config(), "9780441172719");
    assert_eq!(fetch.request(), Request::CreateCoverFile);
    match fetch.step(Reply::Ready) {
        Step::Next(fetch) => fetch,
        Step::Done(_) => panic!("the fetch ended before the tool ran"),
    }
}

#[test]
fn tool_is_run_with_the_isbn_and_asked_for_opf_and_cover() {
    let fetch = running();
    assert_eq!(
        fetch.request(),
        Request::RunFetcher {
            program: "fetch-ebook-metadata".to_string(),
            arguments: vec![
                "--isbn".to_string(),
                "9780441172719".to_string(),
                "--opf".to_string(),
                "--cover".to_string(),
            ],
        }
    );
}

#[test]
fn failed_exit_carries_the_captured_output() {
    let step = running().step(Reply::Exited {
        success: false,
        stdout: vec![1, 2, 0xFF],
        stderr: b"no such book".to_vec(),
    });
    match step {
        Step::Done(Err(CalibreMetadataError::FetchFailure { stdout, stderr })) => {
            assert_eq!(stdout, vec![1, 2, 0xFF]);
            assert_eq!(stderr, b"no such book".to_vec());
        }
        other => panic!("unexpected step: {:?}", other),
    }
}

#[test]
fn each_outside_failure_has_its_own_error() {
    let step = CalibreFetch::start(&config(), "1").step(Reply::Failed("disk full".to_string()));
    assert!(matches!(step, Step::Done(Err(CalibreMetadataError::CoverArt(ref m))) if m == "disk full"));
    let step = running().step(Reply::Failed("not found".to_string()));
    assert!(matches!(step, Step::Done(Err(CalibreMetadataError::Launch(ref m))) if m == "not found"));
    let reading = match running().step(Reply::Exited { success: true, stdout: vec![], stderr: vec![] }) {
        Step::Next(fetch) => fetch,
        Step::Done(_) => panic!("the fetch ended before the cover was read"),
    };
    assert_eq!(reading.request(), Request::ReadCover);
    let step = reading.step(Reply::Failed("gone".to_string()));
    match step {
        Step::Done(Err(e)) => {
            assert!(matches!(e, CalibreMetadataError::CoverArt(ref m) if m == "gone"));
            assert_eq!(e.message(), "Could not read the cover art");
        }
        other => panic!("unexpected step: {:?}", other),
    }
}

#[test]
fn successful_run_ends_with_the_record() {
    let stdout = b"<package><metadata><title>Dune</title></metadata></package>".to_vec();
    let reading = match running().step(Reply::Exited { success: true, stdout, stderr: vec![] }) {
        Step::Next(fetch) => fetch,
        Step::Done(_) => panic!("the fetch ended before the cover was read"),
    };
    match reading.step(Reply::Bytes(vec![b'M'])) {
        Step::Done(Ok(Some(record))) => {
            assert_eq!(record.title, owned("Dune"));
            assert_eq!(record.covert_art_b64, owned("TQ=="));
        }
        other => panic!("unexpected step: {:?}", other),
    }
}

#[test]
fn reply_to_another_request_changes_nothing() {
    let fetch = running();
    let before = fetch.request();
    match fetch.step(Reply::Status(200)) {
        Step::Next(fetch) => assert_eq!(fetch.request(), before),
        Step::Done(_) => panic!("the fetch ended on a reply it did not ask for"),
    }
}
