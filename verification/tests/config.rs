use bouquineur::config::{CalibreConfig, ConfigError, MetadataConfig, OpenLibraryConfig};
use bouquineur::metadata::exchange::{Reply, Request, Step};
use bouquineur::metadata::openlibrary::{Edition, Reference, Work};
use bouquineur::metadata::MetadataProvider::{Calibre, OpenLibrary};
use bouquineur::metadata::{fetch_metadata, MetadataError, MetadataProvider, NullableBookDetails};

fn config(
    providers: Option<Vec<MetadataProvider>>,
    default_provider: Option<MetadataProvider>,
    calibre: bool,
    open_library: bool,
) -> MetadataConfig {
    MetadataConfig {
        providers,
        default_provider,
        calibre: if calibre { Some(CalibreConfig { fetcher: "fetch-ebook-metadata".to_string() }) } else { None },
        open_library: if open_library {
            Some(OpenLibraryConfig { contact: "reader@example.org".to_string() })
        } else {
            None
        },
    }
}


#[test]
fn providers_have_a_token_and_a_label() {
    assert_eq!(MetadataProvider::all(), &[Calibre, OpenLibrary]);
    assert_eq!(Calibre.serialized(), "Calibre");
    assert_eq!(OpenLibrary.serialized(), "OpenLibrary");
    assert_eq!(Calibre.label(), "Calibre");
    assert_eq!(OpenLibrary.label(), "Open Library");
}

#[test]
fn enabled_provider_needs_its_settings() {
    assert_eq!(config(None, None, false, true).check_calibre(), Err(ConfigError::MissingCalibre));
    assert_eq!(config(None, None, true, false).check_openlibrary(), Err(ConfigError::MissingOpenLibrary));
    assert_eq!(config(Some(vec![Calibre]), None, false, false).check_calibre(), Err(ConfigError::MissingCalibre));
    assert_eq!(config(Some(vec![Calibre]), None, false, false).check_openlibrary(), Ok(()));
    assert_eq!(config(Some(vec![OpenLibrary]), None, false, true).check_calibre(), Ok(()));
    assert_eq!(config(Some(vec![]), None, false, false).validate(), Ok(()));
    assert_eq!(config(None, None, true, true).validate(), Ok(()));
    assert_eq!(config(None, None, false, false).validate(), Err(ConfigError::MissingCalibre));
}

#[test]
fn several_providers_need_a_default_among_them() {
    let both = || Some(vec![Calibre, OpenLibrary]);
    assert_eq!(config(both(), None, true, true).validate(), Err(ConfigError::DefaultRequired));
    assert_eq!(config(both(), Some(OpenLibrary), true, true).validate(), Ok(()));
    assert_eq!(
        config(Some(vec![Calibre]), Some(OpenLibrary), true, true).check_default_provider(),
        Err(ConfigError::DefaultNotEnabled(OpenLibrary))
    );
    assert_eq!(config(Some(vec![Calibre]), None, true, false).validate(), Ok(()));
    assert_eq!(config(None, Some(OpenLibrary), true, true).check_default_provider(), Ok(()));
}

#[test]
fn faults_say_what_is_wrong() {
    assert_eq!(ConfigError::MissingCalibre.message(), "Missing `[metadata.calibre]`");
    assert_eq!(ConfigError::MissingOpenLibrary.message(), "Missing `[metadata.open_library]`");
    assert_eq!(
        ConfigError::DefaultRequired.message(),
        "When more than one providers are enabled a default must be chosen"
    );
    assert_eq!(
        ConfigError::DefaultNotEnabled(OpenLibrary).message(),
        "metadata.default_provider (OpenLibrary) must be present in metadata.providers"
    );
}

#[test]
fn request_without_provider_gets_the_default() {
    assert_eq!(config(Some(vec![OpenLibrary]), None, false, true).default_provider(), OpenLibrary);
    assert_eq!(config(Some(vec![OpenLibrary]), Some(Calibre), false, true).default_provider(), OpenLibrary);
    assert_eq!(config(None, None, true, true).default_provider(), Calibre);
    assert_eq!(config(None, Some(OpenLibrary), true, true).default_provider(), OpenLibrary);
    assert_eq!(
        config(Some(vec![Calibre, OpenLibrary]), Some(OpenLibrary), true, true).provider_for(None),
        OpenLibrary
    );
    assert_eq!(config(None, Some(OpenLibrary), true, true).provider_for(Some(Calibre)), Calibre);
    assert!(config(None, None, true, true).has_provider());
    assert!(!config(Some(vec![]), None, true, true).has_provider());
}

#[test]
fn valid_configuration_has_the_settings_of_its_default() {
    let lists = [None, Some(vec![]), Some(vec![Calibre]), Some(vec![OpenLibrary]), Some(vec![OpenLibrary, Calibre])];
    for providers in lists {
        for default_provider in [None, Some(Calibre), Some(OpenLibrary)] {
            for (calibre, open_library) in [(false, false), (false, true), (true, false), (true, true)] {
                let c = config(providers.clone(), default_provider, calibre, open_library);
                if c.validate().is_ok() && c.has_provider() {
                    assert!(c.enables(c.default_provider()));
                    assert!(c.configures(c.default_provider()));
                }
            }
        }
    }
}

#[test]
fn facade_starts_the_fetch_of_the_chosen_provider() {
    let c = config(None, None, true, true);
    let fetch = fetch_metadata(&c, "9780441172719", Calibre);
    assert_eq!(fetch.provider(), Calibre);
    assert_eq!(fetch.request(), Request::CreateCoverFile);
    let fetch = fetch_metadata(&c, "9780441172719", OpenLibrary);
    assert_eq!(fetch.provider(), OpenLibrary);
    assert!(matches!(fetch.request(), Request::Connect { .. }));
}

fn title_of(outcome: Result<Option<NullableBookDetails>, MetadataError>) -> Option<String> {
    outcome.unwrap().and_then(|record| record.title)
}

#[test]
fn records_of_both_providers_are_consumed_alike() {
    let c = config(None, None, true, true);
    let mut fetch = fetch_metadata(&c, "9780441172719", Calibre);
    let replies = vec![
        Reply::Ready,
        Reply::Exited {
            success: true,
            stdout: b"<metadata><title>Dune</title></metadata>".to_vec(),
            stderr: vec![],
        },
        Reply::Bytes(vec![]),
    ];
    let mut outcome = None;
    for reply in replies {
        match fetch.step(reply) {
            Step::Next(next) => fetch = next,
            Step::Done(done) => {
                outcome = Some(done);
                break;
            }
        }
    }
    assert_eq!(title_of(outcome.unwrap()), Some("Dune".to_string()));

    let mut fetch = fetch_metadata(&c, "9780441172719", OpenLibrary);
    let replies = vec![
        Reply::Ready,
        Reply::Status(200),
        Reply::Edition(Edition {
            publish_date: None,
            publishers: vec![],
            languages: vec![],
            number_of_pages: None,
            covers: vec![],
            works: vec![Reference { key: "/works/OL1W".to_string() }],
        }),
        Reply::Status(200),
        Reply::Work(Work { description: None, subjects: vec![], authors: vec![], title: Some("Dune".to_string()) }),
    ];
    let mut outcome = None;
    for reply in replies {
        match fetch.step(reply) {
            Step::Next(next) => fetch = next,
            Step::Done(done) => {
                outcome = Some(done);
                break;
            }
        }
    }
    assert_eq!(title_of(outcome.unwrap()), Some("Dune".to_string()));
}

#[test]
fn error_names_the_provider_that_failed() {
    let c = config(None, None, true, true);
    match fetch_metadata(&c, "1", Calibre).step(Reply::Failed("no space".to_string())) {
        Step::Done(Err(e)) => {
            assert_eq!(e.provider(), Calibre);
            assert_eq!(e.message(), "Could not scrap metadata with calibre");
        }
        other => panic!("unexpected step: {:?}", other),
    }
    match fetch_metadata(&c, "1", OpenLibrary).step(Reply::Failed("bad agent".to_string())) {
        Step::Done(Err(e)) => {
            assert_eq!(e.provider(), OpenLibrary);
            assert_eq!(e.message(), "Could not fetch metadata with open library");
        }
        other => panic!("unexpected step: {:?}", other),
    }
}

#[test]
fn empty_record_has_nothing_set() {
    let record = NullableBookDetails::default();
    assert_eq!(record.isbn, None);
    assert_eq!(record.authors, Vec::<String>::new());
    assert_eq!(record.published, None);
    assert!(!record.read);
    assert!(!record.owned);
    assert_eq!(record.series, None);
}
