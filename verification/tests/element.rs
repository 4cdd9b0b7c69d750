use epp_extensions::element::{attribute, Attribute, Element};
use epp_extensions::error::DecodeError;
use epp_extensions::xml::parse_document;

fn attr(name: &str, value: &str) -> Attribute {
    attribute(name, value)
}

fn sample() -> Element {
    Element::new(
        "urn:x",
        "root",
        vec![
            attr("a", "1"),
            attr("b", "2"),
            attr("b", "3"),
            Attribute { ns: String::from("urn:p"), name: String::from("c"), value: String::from("4") },
        ],
        None,
        vec![
            Element::leaf("urn:x", "one", "first"),
            Element::leaf("urn:x", "two", "second"),
            Element::leaf("urn:y", "one", "other"),
            Element::leaf("urn:x", "two", "third"),
            Element::new("urn:x", "bare", Vec::new(), None, Vec::new()),
        ],
    )
}

#[test]
fn attribute_has_no_namespace() {
    let a = attribute("name", "value");
    assert_eq!(a.ns, "");
    assert_eq!(a.name, "name");
    assert_eq!(a.value, "value");
}

#[test]
fn leaf_holds_only_text() {
    let e = Element::leaf("urn:x", "currency", "USD");
    assert_eq!(e.ns, "urn:x");
    assert_eq!(e.name, "currency");
    assert!(e.attributes.is_empty());
    assert_eq!(e.text.as_deref(), Some("USD"));
    assert!(e.children.is_empty());
}

#[test]
fn is_named_compares_namespace_and_name() {
    let e = sample();
    assert!(e.is_named("urn:x", "root"));
    assert!(!e.is_named("urn:y", "root"));
    assert!(!e.is_named("urn:x", "Root"));
}

#[test]
fn optional_attribute_finds_one_or_none() {
    let e = sample();
    assert_eq!(e.optional_attribute("a", "T::a"), Ok(Some("1")));
    assert_eq!(e.optional_attribute("z", "T::z"), Ok(None));
}

#[test]
fn optional_attribute_reports_a_duplicate() {
    let e = sample();
    assert_eq!(e.optional_attribute("b", "T::b"), Err(DecodeError::DuplicateValue("T::b")));
}

#[test]
fn attribute_with_a_prefix_is_not_the_field() {
    let e = sample();
    assert_eq!(e.optional_attribute("c", "T::c"), Ok(None));
    assert_eq!(e.required_attribute("c", "T::c"), Err(DecodeError::MissingValue("T::c")));
}

#[test]
fn required_attribute_reports_what_is_missing() {
    let e = sample();
    assert_eq!(e.required_attribute("a", "T::a"), Ok("1"));
    assert_eq!(e.required_attribute("z", "T::z"), Err(DecodeError::MissingValue("T::z")));
    assert_eq!(e.required_attribute("b", "T::b"), Err(DecodeError::DuplicateValue("T::b")));
}

#[test]
fn children_named_keeps_document_order() {
    let e = sample();
    let found = e.children_named("urn:x", "two");
    assert_eq!(found.len(), 2);
    assert_eq!(found[0].text.as_deref(), Some("second"));
    assert_eq!(found[1].text.as_deref(), Some("third"));
    assert!(e.children_named("urn:x", "none").is_empty());
}

#[test]
fn children_are_told_apart_by_namespace() {
    let e = sample();
    let found = e.children_named("urn:y", "one");
    assert_eq!(found.len(), 1);
    assert_eq!(found[0].text.as_deref(), Some("other"));
    assert_eq!(e.required_child_text("urn:x", "one", "T::one"), Ok("first"));
}

#[test]
fn optional_child_reports_a_duplicate() {
    let e = sample();
    assert_eq!(
        e.optional_child("urn:x", "two", "T::two"),
        Err(DecodeError::DuplicateValue("T::two"))
    );
    assert_eq!(e.optional_child("urn:x", "none", "T::none"), Ok(None));
    assert!(e.optional_child("urn:x", "one", "T::one").unwrap().is_some());
}

#[test]
fn required_child_reports_what_is_missing() {
    let e = sample();
    assert_eq!(
        e.required_child("urn:x", "none", "T::none"),
        Err(DecodeError::MissingValue("T::none"))
    );
    assert_eq!(
        e.required_child_text("urn:x", "none", "T::none"),
        Err(DecodeError::MissingValue("T::none"))
    );
    assert_eq!(e.optional_child_text("urn:x", "none", "T::none"), Ok(None));
    assert_eq!(e.optional_child_text("urn:y", "one", "T::one"), Ok(Some("other")));
}

#[test]
fn child_without_text_reads_as_empty_text() {
    let e = sample();
    assert_eq!(e.required_child_text("urn:x", "bare", "T::bare"), Ok(""));
    assert_eq!(e.direct_text(), "");
}

#[test]
fn direct_u16_trims_and_parses() {
    let e = Element::leaf("urn:x", "period", " 12\n");
    assert_eq!(e.direct_u16("T::value"), Ok(12));
    let e = Element::leaf("urn:x", "period", "twelve");
    assert_eq!(e.direct_u16("T::value"), Err(DecodeError::MalformedNumber("T::value")));
    let e = Element::new("urn:x", "period", Vec::new(), None, Vec::new());
    assert_eq!(e.direct_u16("T::value"), Err(DecodeError::MalformedNumber("T::value")));
}

#[test]
fn direct_amount_trims_and_checks() {
    let e = Element::leaf("urn:x", "fee", "\n  99.00 ");
    assert_eq!(e.direct_amount("T::amount").unwrap().as_str(), "99.00");
    let e = Element::leaf("urn:x", "fee", "9 9");
    assert_eq!(e.direct_amount("T::amount"), Err(DecodeError::MalformedNumber("T::amount")));
}

#[test]
fn optional_bool_attribute_reads_words_and_digits() {
    let e = Element::new(
        "urn:x",
        "cd",
        vec![attr("a", "1"), attr("b", "false"), attr("c", "maybe")],
        None,
        Vec::new(),
    );
    assert_eq!(e.optional_bool_attribute("a", "T::a"), Ok(Some(true)));
    assert_eq!(e.optional_bool_attribute("b", "T::b"), Ok(Some(false)));
    assert_eq!(e.optional_bool_attribute("z", "T::z"), Ok(None));
    assert_eq!(
        e.optional_bool_attribute("c", "T::c"),
        Err(DecodeError::UnexpectedValue("T::c"))
    );
}

#[test]
fn optional_child_amount_reads_the_text_of_the_child() {
    let e = Element::new(
        "urn:x",
        "creData",
        Vec::new(),
        None,
        vec![Element::leaf("urn:x", "balance", "-5.00"), Element::leaf("urn:x", "limit", "x")],
    );
    assert_eq!(
        e.optional_child_amount("urn:x", "balance", "T::balance").unwrap().unwrap().as_str(),
        "-5.00"
    );
    assert_eq!(e.optional_child_amount("urn:x", "none", "T::none"), Ok(None));
    assert_eq!(
        e.optional_child_amount("urn:x", "limit", "T::limit"),
        Err(DecodeError::MalformedNumber("T::limit"))
    );
}

#[test]
fn parse_document_captures_the_tree() {
    let xml = r#"<a:root xmlns:a="urn:x" xmlns="urn:d" k="v" a:q="w"><one>1 &amp; 2</one><a:two/><three xmlns="urn:t">x</three></a:root>"#;
    let e = parse_document(xml).unwrap();
    assert_eq!(e.ns, "urn:x");
    assert_eq!(e.name, "root");
    assert_eq!(e.attributes.len(), 2);
    assert_eq!(e.attributes[0], attr("k", "v"));
    assert_eq!(e.attributes[1].ns, "urn:x");
    assert_eq!(e.attributes[1].name, "q");
    assert_eq!(e.attributes[1].value, "w");
    assert_eq!(e.text, None);
    assert_eq!(e.children.len(), 3);
    assert_eq!(e.children[0], Element::leaf("urn:d", "one", "1 & 2"));
    assert_eq!(e.children[1], Element::new("urn:x", "two", Vec::new(), None, Vec::new()));
    assert_eq!(e.children[2], Element::leaf("urn:t", "three", "x"));
}

#[test]
fn parse_document_refuses_what_is_not_a_document() {
    for text in ["", "not xml", "<a><b></a>", "<a>&bogus;</a>", "<p:a/>", "<a"] {
        let error = instant_xml::from_str::<instant_xml::AnyElement<'_>>(text).unwrap_err();
        assert_eq!(parse_document(text), Err(DecodeError::Malformed(error)), "{:?}", text);
    }
    assert_eq!(
        parse_document(""),
        Err(DecodeError::Malformed(instant_xml::Error::UnexpectedEndOfStream))
    );
}

#[test]
fn parse_document_gives_the_same_tree_twice() {
    let xml = r#"<cd xmlns="urn:x" avail="1"><name>example.com</name></cd>"#;
    assert_eq!(parse_document(xml), parse_document(xml));
}

#[test]
fn clone_copies_the_whole_tree() {
    let e = sample();
    let c = e.clone();
    assert_eq!(c, e);
    let doc = parse_document(
        r#"<a xmlns="urn:x" k="v"><b><c n="1">deep</c><c n="2"/></b>tail</a>"#,
    )
    .unwrap();
    assert_eq!(doc.clone(), doc);
    assert_eq!(attr("k", "v").clone(), attr("k", "v"));
}
