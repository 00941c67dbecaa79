//! Reading the fields of a book out of an OPF package document.
//!
//! The fields live below the document's `metadata` element. A field is taken
//! from the first element of its name, whatever that element's namespace; an
//! identifier or a creator is further told apart by an attribute in the OPF
//! namespace.

use vstd::prelude::*;

use crate::metadata::text::{opt_text, str_eq, texts};
use crate::metadata::xml::{nodes_view, AttributeView, NodeView, XmlNode};

verus! {

/// URI of the namespace in which OPF keeps its own attributes.
pub open spec fn opf_namespace() -> Seq<char> {
    "http://www.idpf.org/2007/opf"@
}

/// Picks elements by local name and, where `attribute` is set, by the value of
/// an attribute in the OPF namespace.
#[derive(Debug, Clone, Copy)]
pub struct Selector<'a> {
    pub name: &'a str,
    /// Local name and required value of the attribute.
    pub attribute: Option<(&'a str, &'a str)>,
}

pub struct SelectorView {
    pub name: Seq<char>,
    pub attribute: Option<(Seq<char>, Seq<char>)>,
}

impl<'a> View for Selector<'a> {
    type V = SelectorView;

    open spec fn view(&self) -> SelectorView {
        SelectorView {
            name: self.name@,
            attribute: match self.attribute {
                Some((name, value)) => Some((name@, value@)),
                None => None,
            },
        }
    }
}

/// The value of the first attribute with the given namespace and local name.
pub open spec fn attribute_in(attributes: Seq<AttributeView>, namespace: Seq<char>, name: Seq<char>) -> Option<Seq<char>>
    decreases attributes.len(),
{
    if attributes.len() == 0 {
        None
    } else if attributes[0].namespace == Some(namespace) && attributes[0].name == name {
        Some(attributes[0].value)
    } else {
        attribute_in(attributes.drop_first(), namespace, name)
    }
}

/// Whether a selector picks a node.
pub open spec fn selects(sel: SelectorView, node: NodeView) -> bool {
    &&& node.name == sel.name
    &&& match sel.attribute {
        Some((name, value)) => attribute_in(node.attributes, opf_namespace(), name) == Some(value),
        None => true,
    }
}

/// `i` is the index of the first node that the selector picks.
pub open spec fn is_first_selected(nodes: Seq<NodeView>, sel: SelectorView, i: int) -> bool {
    &&& 0 <= i < nodes.len()
    &&& selects(sel, nodes[i])
    &&& forall|k: int| 0 <= k < i ==> !selects(sel, #[trigger] nodes[k])
}

/// Index of the first node that the selector picks.
pub open spec fn first_selected(nodes: Seq<NodeView>, sel: SelectorView) -> Option<int> {
    if exists|i: int| is_first_selected(nodes, sel, i) {
        Some(choose|i: int| is_first_selected(nodes, sel, i))
    } else {
        None
    }
}

/// The text of the first node that the selector picks. A first node without
/// text gives nothing, even where a later one has text.
pub open spec fn first_text(nodes: Seq<NodeView>, sel: SelectorView) -> Option<Seq<char>> {
    match first_selected(nodes, sel) {
        Some(i) => nodes[i].text,
        None => None,
    }
}

/// The texts of all the nodes that the selector picks, in document order,
/// nodes without text left out.
pub open spec fn selected_texts(nodes: Seq<NodeView>, sel: SelectorView) -> Seq<Seq<char>>
    decreases nodes.len(),
{
    if nodes.len() == 0 {
        Seq::empty()
    } else {
        let before = selected_texts(nodes.drop_last(), sel);
        let last = nodes.last();
        if selects(sel, last) && last.text is Some {
            before.push(last.text->0)
        } else {
            before
        }
    }
}

/// The first picked node is unique.
pub proof fn lemma_first_selected_is(nodes: Seq<NodeView>, sel: SelectorView, i: int)
    requires
        is_first_selected(nodes, sel, i),
    ensures
        first_selected(nodes, sel) == Some(i),
{
    let j = choose|j: int| is_first_selected(nodes, sel, j);
    if j < i {
        assert(!selects(sel, nodes[j]));
    } else if i < j {
        assert(!selects(sel, nodes[i]));
    }
}

/// Where a node is picked, one of the picked nodes is the first.
pub proof fn lemma_first_selected_exists(nodes: Seq<NodeView>, sel: SelectorView, i: int)
    requires
        0 <= i < nodes.len(),
        selects(sel, nodes[i]),
    ensures
        first_selected(nodes, sel) is Some,
        first_selected(nodes, sel)->0 <= i,
    decreases i,
{
    if exists|k: int| 0 <= k < i && selects(sel, #[trigger] nodes[k]) {
        let k = choose|k: int| 0 <= k < i && selects(sel, #[trigger] nodes[k]);
        lemma_first_selected_exists(nodes, sel, k);
    } else {
        lemma_first_selected_is(nodes, sel, i);
    }
}

/// Where no node is picked there is no first one.
pub proof fn lemma_first_selected_none(nodes: Seq<NodeView>, sel: SelectorView)
    requires
        forall|k: int| 0 <= k < nodes.len() ==> !selects(sel, #[trigger] nodes[k]),
    ensures
        first_selected(nodes, sel) is None,
{
}

fn opf_attribute<'a>(node: &'a XmlNode, name: &str) -> (r: Option<&'a String>)
    ensures
        match r {
            Some(v) => attribute_in(node@.attributes, opf_namespace(), name@) == Some(v@),
            None => attribute_in(node@.attributes, opf_namespace(), name@) is None,
        },
{
    let ghost all = node@.attributes;
    let mut i: usize = 0;
    assert(all.skip(0) =~= all);
    while i < node.attributes.len()
        invariant
            i <= node.attributes.len(),
            all == node@.attributes,
            attribute_in(all, opf_namespace(), name@) == attribute_in(
                all.skip(i as int),
                opf_namespace(),
                name@,
            ),
        decreases node.attributes.len() - i,
    {
        let a = &node.attributes[i];
        assert(all.skip(i as int)[0] == a@);
        let in_namespace = match &a.namespace {
            Some(uri) => str_eq(uri.as_str(), "http://www.idpf.org/2007/opf"),
            None => false,
        };
        if in_namespace && str_eq(a.name.as_str(), name) {
            return Some(&a.value);
        }
        assert(all.skip(i as int).drop_first() =~= all.skip(i as int + 1));
        i += 1;
    }
    None
}

fn picks(sel: &Selector, node: &XmlNode) -> (r: bool)
    ensures
        r == selects(sel@, node@),
{
    if !str_eq(node.name.as_str(), sel.name) {
        return false;
    }
    match sel.attribute {
        Some((name, value)) => match opf_attribute(node, name) {
            Some(v) => str_eq(v.as_str(), value),
            None => false,
        },
        None => true,
    }
}

/// Index, from `start`, of the first node in `start..end` that the selector
/// picks.
fn find_first(nodes: &Vec<XmlNode>, start: usize, end: usize, sel: &Selector) -> (r: Option<usize>)
    requires
        start <= end <= nodes.len(),
    ensures
        match r {
            Some(i) => start <= i < end && first_selected(
                nodes_view(nodes@).subrange(start as int, end as int),
                sel@,
            ) == Some(i - start),
            None => first_selected(nodes_view(nodes@).subrange(start as int, end as int), sel@) is None,
        },
{
    let ghost scope = nodes_view(nodes@).subrange(start as int, end as int);
    let mut i: usize = start;
    while i < end
        invariant
            start <= i <= end <= nodes.len(),
            scope == nodes_view(nodes@).subrange(start as int, end as int),
            forall|k: int| 0 <= k < i - start ==> !selects(sel@, #[trigger] scope[k]),
        decreases end - i,
    {
        assert(scope[i - start] == nodes@[i as int]@);
        if picks(sel, &nodes[i]) {
            proof {
                lemma_first_selected_is(scope, sel@, i - start);
            }
            return Some(i);
        }
        i += 1;
    }
    proof {
        lemma_first_selected_none(scope, sel@);
    }
    None
}

fn find_text(nodes: &Vec<XmlNode>, start: usize, end: usize, sel: &Selector) -> (r: Option<String>)
    requires
        start <= end <= nodes.len(),
    ensures
        opt_text(r) == first_text(nodes_view(nodes@).subrange(start as int, end as int), sel@),
{
    match find_first(nodes, start, end, sel) {
        Some(i) => {
            assert(nodes_view(nodes@).subrange(start as int, end as int)[i - start] == nodes@[i as int]@);
            match &nodes[i].text {
                Some(t) => Some(t.clone()),
                None => None,
            }
        },
        None => None,
    }
}

fn collect_texts(nodes: &Vec<XmlNode>, start: usize, end: usize, sel: &Selector) -> (r: Vec<String>)
    requires
        start <= end <= nodes.len(),
    ensures
        texts(r@) == selected_texts(nodes_view(nodes@).subrange(start as int, end as int), sel@),
{
    let ghost scope = nodes_view(nodes@).subrange(start as int, end as int);
    let mut found: Vec<String> = Vec::new();
    let mut i: usize = start;
    assert(texts(found@) =~= Seq::empty());
    while i < end
        invariant
            start <= i <= end <= nodes.len(),
            scope == nodes_view(nodes@).subrange(start as int, end as int),
            texts(found@) == selected_texts(scope.take(i - start), sel@),
        decreases end - i,
    {
        let node = &nodes[i];
        assert(scope[i - start] == node@);
        assert(scope.take(i - start + 1).drop_last() =~= scope.take(i - start));
        assert(scope.take(i - start + 1).last() == node@);
        if picks(sel, node) {
            match &node.text {
                Some(t) => {
                    let ghost before = found@;
                    found.push(t.clone());
                    assert(texts(found@) =~= texts(before).push(t@));
                },
                None => {},
            }
        }
        i += 1;
    }
    assert(scope.take(end - start) =~= scope);
    found
}

/// The fields that a package document gives about a book, as it wrote them.
#[derive(Debug, PartialEq, Eq)]
pub struct OpfFields {
    pub title: Option<String>,
    pub isbn: Option<String>,
    pub authors: Vec<String>,
    pub tags: Vec<String>,
    pub summary: Option<String>,
    /// The publication date as written, not yet parsed.
    pub date: Option<String>,
    pub publisher: Option<String>,
    pub language: Option<String>,
    pub google_id: Option<String>,
    pub amazon_id: Option<String>,
}

pub struct OpfFieldsView {
    pub title: Option<Seq<char>>,
    pub isbn: Option<Seq<char>>,
    pub authors: Seq<Seq<char>>,
    pub tags: Seq<Seq<char>>,
    pub summary: Option<Seq<char>>,
    pub date: Option<Seq<char>>,
    pub publisher: Option<Seq<char>>,
    pub language: Option<Seq<char>>,
    pub google_id: Option<Seq<char>>,
    pub amazon_id: Option<Seq<char>>,
}

impl View for OpfFields {
    type V = OpfFieldsView;

    open spec fn view(&self) -> OpfFieldsView {
        OpfFieldsView {
            title: opt_text(self.title),
            isbn: opt_text(self.isbn),
            authors: texts(self.authors@),
            tags: texts(self.tags@),
            summary: opt_text(self.summary),
            date: opt_text(self.date),
            publisher: opt_text(self.publisher),
            language: opt_text(self.language),
            google_id: opt_text(self.google_id),
            amazon_id: opt_text(self.amazon_id),
        }
    }
}

/// The selector of every element of a name.
pub open spec fn tag(name: Seq<char>) -> SelectorView {
    SelectorView { name, attribute: None }
}

/// The selector of the elements of a name whose OPF attribute `attribute` has
/// the value `value`.
pub open spec fn tag_with(name: Seq<char>, attribute: Seq<char>, value: Seq<char>) -> SelectorView {
    SelectorView { name, attribute: Some((attribute, value)) }
}

/// Index just past the subtree of node `i`. A subtree that would run past the
/// end of the sequence is cut there.
pub open spec fn subtree_end(nodes: Seq<NodeView>, i: int) -> int
    recommends
        0 <= i < nodes.len(),
{
    if i + nodes[i].extent <= nodes.len() {
        i + nodes[i].extent
    } else {
        nodes.len() as int
    }
}

/// The first element named `metadata` together with its descendants.
pub open spec fn metadata_scope(nodes: Seq<NodeView>) -> Option<Seq<NodeView>> {
    match first_selected(nodes, tag("metadata"@)) {
        Some(i) => Some(nodes.subrange(i, subtree_end(nodes, i))),
        None => None,
    }
}

/// The fields found among the nodes of a metadata element.
pub open spec fn fields_in(scope: Seq<NodeView>) -> OpfFieldsView {
    OpfFieldsView {
        title: first_text(scope, tag("title"@)),
        isbn: first_text(scope, tag_with("identifier"@, "scheme"@, "ISBN"@)),
        authors: selected_texts(scope, tag_with("creator"@, "role"@, "aut"@)),
        tags: selected_texts(scope, tag("subject"@)),
        summary: first_text(scope, tag("description"@)),
        date: first_text(scope, tag("date"@)),
        publisher: first_text(scope, tag("publisher"@)),
        language: first_text(scope, tag("language"@)),
        google_id: first_text(scope, tag_with("identifier"@, "scheme"@, "GOOGLE"@)),
        amazon_id: first_text(scope, tag_with("identifier"@, "scheme"@, "AMAZON"@)),
    }
}

/// The fields of a document: those of its metadata element, or nothing where
/// the document has no such element.
pub open spec fn fields_of(nodes: Seq<NodeView>) -> Option<OpfFieldsView> {
    match metadata_scope(nodes) {
        Some(scope) => Some(fields_in(scope)),
        None => None,
    }
}

/// The model of an optional set of fields.
pub open spec fn opt_fields(fields: Option<OpfFields>) -> Option<OpfFieldsView> {
    match fields {
        Some(f) => Some(f@),
        None => None,
    }
}

/// Reads the fields of a book out of the nodes of a package document, given
/// in document order from the root element on.
pub fn opf_fields(nodes: &Vec<XmlNode>) -> (r: Option<OpfFields>)
    ensures
        opt_fields(r) == fields_of(nodes_view(nodes@)),
{
    let whole = Selector { name: "metadata", attribute: None };
    assert(nodes_view(nodes@).subrange(0, nodes.len() as int) =~= nodes_view(nodes@));
    let start = match find_first(nodes, 0, nodes.len(), &whole) {
        Some(i) => i,
        None => {
            return None;
        },
    };
    let extent = nodes[start].extent;
    let end = if extent <= nodes.len() - start {
        start + extent
    } else {
        nodes.len()
    };
    assert(end == subtree_end(nodes_view(nodes@), start as int));
    let title = Selector { name: "title", attribute: None };
    let isbn = Selector { name: "identifier", attribute: Some(("scheme", "ISBN")) };
    let author = Selector { name: "creator", attribute: Some(("role", "aut")) };
    let subject = Selector { name: "subject", attribute: None };
    let description = Selector { name: "description", attribute: None };
    let date = Selector { name: "date", attribute: None };
    let publisher = Selector { name: "publisher", attribute: None };
    let language = Selector { name: "language", attribute: None };
    let google = Selector { name: "identifier", attribute: Some(("scheme", "GOOGLE")) };
    let amazon = Selector { name: "identifier", attribute: Some(("scheme", "AMAZON")) };
    Some(
        OpfFields {
            title: find_text(nodes, start, end, &title),
            isbn: find_text(nodes, start, end, &isbn),
            authors: collect_texts(nodes, start, end, &author),
            tags: collect_texts(nodes, start, end, &subject),
            summary: find_text(nodes, start, end, &description),
            date: find_text(nodes, start, end, &date),
            publisher: find_text(nodes, start, end, &publisher),
            language: find_text(nodes, start, end, &language),
            google_id: find_text(nodes, start, end, &google),
            amazon_id: find_text(nodes, start, end, &amazon),
        },
    )
}

} // verus!
