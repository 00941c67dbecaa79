use bouquineur::metadata::calibre::opf_record;
use bouquineur::metadata::date::CalendarDate;
use bouquineur::metadata::opf::{opf_fields, OpfFields};
use bouquineur::metadata::xml::{XmlAttribute, XmlNode};

const OPF: &str = "http://www.idpf.org/2007/opf";

fn element(name: &str, text: Option<&str>, extent: usize) -> XmlNode {
    XmlNode { name: name.to_string(), text: text.map(|t| t.to_string()), attributes: vec![], extent }
}

fn text(content: &str) -> XmlNode {
    XmlNode { name: String::new(), text: Some(content.to_string()), attributes: vec![], extent: 1 }
}

fn with(mut node: XmlNode, namespace: Option<&str>, name: &str, value: &str) -> XmlNode {
    node.attributes.push(XmlAttribute {
        namespace: namespace.map(|n| n.to_string()),
        name: name.to_string(),
        value: value.to_string(),
    });
    node
}

fn no_fields() -> OpfFields {
    OpfFields {
        title: None,
        isbn: None,
        authors: vec![],
        tags: vec![],
        summary: None,
        date: None,
        publisher: None,
        language: None,
        google_id: None,
        amazon_id: None,
    }
}

#[test]
fn nodes_without_metadata_have_no_fields() {
    assert_eq!(opf_fields(&vec![]), None);
    let nodes = vec![element("package", None, 3), element("title", Some("Dune"), 2), text("Dune")];
    assert_eq!(opf_fields(&nodes), None);
}

#[test]
fn fields_are_read_below_the_first_metadata_element() {
    let nodes = vec![
        element("package", None, 14),
        element("title", Some("Before"), 2),
        text("Before"),
        element("metadata", None, 9),
        element("title", Some("Dune"), 2),
        text("Dune"),
        with(element("identifier", Some("9780441172719"), 2), Some(OPF), "scheme", "ISBN"),
        text("9780441172719"),
        with(element("creator", Some("Frank Herbert"), 2), Some(OPF), "role", "aut"),
        text("Frank Herbert"),
        element("date", Some("1965-08-01T00:00:00+00:00"), 2),
        text("1965-08-01T00:00:00+00:00"),
        element("metadata", None, 2),
        element("publisher", Some("After"), 1),
    ];
    let fields = opf_fields(&nodes).unwrap();
    assert_eq!(
        fields,
        OpfFields {
            title: Some("Dune".to_string()),
            isbn: Some("9780441172719".to_string()),
            authors: vec!["Frank Herbert".to_string()],
            date: Some("1965-08-01T00:00:00+00:00".to_string()),
            ..no_fields()
        }
    );
}

#[test]
fn attribute_must_be_in_the_opf_namespace() {
    let nodes = vec![
        element("metadata", None, 5),
        with(element("identifier", Some("1"), 1), None, "scheme", "ISBN"),
        with(element("identifier", Some("2"), 1), Some("urn:other"), "scheme", "ISBN"),
        with(
            with(element("identifier", Some("3"), 1), Some("urn:other"), "scheme", "GOOGLE"),
            Some(OPF),
            "scheme",
            "AMAZON",
        ),
        with(element("identifier", Some("4"), 1), Some(OPF), "scheme", "isbn"),
    ];
    let fields = opf_fields(&nodes).unwrap();
    assert_eq!(fields, OpfFields { amazon_id: Some("3".to_string()), ..no_fields() });
}

#[test]
fn first_attribute_of_a_name_decides() {
    let twice = with(
        with(element("creator", Some("Someone"), 1), Some(OPF), "role", "edt"),
        Some(OPF),
        "role",
        "aut",
    );
    let nodes = vec![element("metadata", None, 2), twice];
    assert_eq!(opf_fields(&nodes).unwrap().authors, Vec::<String>::new());
}

#[test]
fn subtree_that_runs_past_the_end_is_cut_there() {
    let nodes = vec![element("metadata", None, usize::MAX), element("subject", Some("Sand"), 1)];
    assert_eq!(opf_fields(&nodes).unwrap().tags, vec!["Sand".to_string()]);
    let nodes = vec![element("metadata", None, 0), element("subject", Some("Sand"), 1)];
    assert_eq!(opf_fields(&nodes).unwrap(), no_fields());
}

#[test]
fn record_takes_the_fields_as_they_are() {
    let fields = OpfFields {
        title: Some("Dune".to_string()),
        isbn: Some("9780441172719".to_string()),
        authors: vec!["Frank Herbert".to_string()],
        tags: vec!["Sand".to_string()],
        summary: Some("A desert planet.".to_string()),
        date: Some("ignored".to_string()),
        publisher: Some("Chilton".to_string()),
        language: Some("eng".to_string()),
        google_id: Some("g".to_string()),
        amazon_id: Some("a".to_string()),
    };
    let day = CalendarDate { year: 1965, month: 8, day: 1 };
    let record = opf_record(fields, Some(day), Some("TQ==".to_string()));
    assert_eq!(record.title, Some("Dune".to_string()));
    assert_eq!(record.isbn, Some("9780441172719".to_string()));
    assert_eq!(record.authors, vec!["Frank Herbert".to_string()]);
    assert_eq!(record.tags, vec!["Sand".to_string()]);
    assert_eq!(record.summary, Some("A desert planet.".to_string()));
    assert_eq!(record.published, Some(day));
    assert_eq!(record.publisher, Some("Chilton".to_string()));
    assert_eq!(record.language, Some("eng".to_string()));
    assert_eq!(record.google_id, Some("g".to_string()));
    assert_eq!(record.amazon_id, Some("a".to_string()));
    assert_eq!(record.librarything_id, None);
    assert_eq!(record.page_count, None);
    assert_eq!(record.covert_art_b64, Some("TQ==".to_string()));
    assert_eq!(record.series, None);
    assert!(!record.read);
    assert!(!record.owned);
}
