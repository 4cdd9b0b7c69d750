use std::fmt;

use epp_extensions::amount::Amount;
use epp_extensions::element::Element;
use epp_extensions::extensions::charge::Agreement;
use epp_extensions::extensions::composite::CompositeExt;
use epp_extensions::extensions::known_namespace;
use epp_extensions::extensions::{fee, fee07, launch};
use epp_extensions::request::{CommandKind, ToElement, Transaction};
use epp_extensions::time::Timestamp;
use epp_extensions::xml::parse_document;
use instant_xml::ser::Context;
use instant_xml::{Error, Id, Serializer, ToXml};

struct Fragment<'a>(&'a Element);

impl ToXml for Fragment<'_> {
    fn serialize<W: fmt::Write + ?Sized>(
        &self,
        _field: Option<Id<'_>>,
        serializer: &mut Serializer<'_, W>,
    ) -> Result<(), Error> {
        let element = self.0;
        let context = known_namespace(&element.ns).map(|ns| {
            let mut context = Context::<0>::default();
            context.default_ns = ns;
            context
        });
        let open = serializer.write_start(&element.name, &element.ns, context)?;
        for attribute in &element.attributes {
            serializer.write_attr(&attribute.name, &attribute.ns, attribute.value.as_str())?;
        }
        serializer.end_start()?;
        if let Some(text) = &element.text {
            text.as_str().serialize(None, serializer)?;
        }
        for child in &element.children {
            Fragment(child).serialize(None, serializer)?;
        }
        serializer.write_close(open)
    }
}

fn text_of(section: &[Element]) -> String {
    let mut output = String::new();
    let mut serializer = Serializer::new(&mut output);
    for element in section {
        Fragment(element).serialize(None, &mut serializer).unwrap();
    }
    output
}

#[test]
fn fee_check_as_text() {
    let check = fee::Check::new(Some("USD"), Some(1));
    assert_eq!(
        text_of(&[check.to_element()]),
        [
            r#"<check xmlns="urn:ietf:params:xml:ns:epp:fee-1.0">"#,
            r#"<currency>USD</currency>"#,
            r#"<command name="create"><period unit="y">1</period></command>"#,
            r#"<command name="renew"><period unit="y">1</period></command>"#,
            r#"<command name="transfer"><period unit="y">1</period></command>"#,
            r#"</check>"#,
        ]
        .concat()
    );
}

#[test]
fn composite_as_text_has_its_children_side_by_side() {
    let c = CompositeExt {
        first: fee::Check::new(None, None),
        second: launch::Check::new(Some(launch::Phase::custom("a<b"))),
    };
    let t = Transaction::new(CommandKind::Update, c).unwrap();
    assert_eq!(
        text_of(&t.encode()),
        [
            r#"<check xmlns="urn:ietf:params:xml:ns:epp:fee-1.0">"#,
            r#"<command name="create"></command>"#,
            r#"<command name="renew"></command>"#,
            r#"<command name="transfer"></command>"#,
            r#"</check>"#,
            r#"<check xmlns="urn:ietf:params:xml:ns:launch-1.0">"#,
            r#"<phase name="a&lt;b">custom</phase>"#,
            r#"</check>"#,
        ]
        .concat()
    );
}

#[test]
fn written_elements_read_back_as_they_were() {
    let amount = || Amount::parse("99.00").unwrap();
    let mut create = launch::Create::new(launch::Phase::new(launch::PhaseType::Claims, None))
        .with_encoded_signed_mark("QkFTRTY0");
    create.notice = Some(launch::Notice {
        notice_id: "id & more",
        not_after: Timestamp::new(1_700_000_000, 0).unwrap(),
        accepted_date: Timestamp::new(1_600_000_000, 0).unwrap(),
    });
    create.application_id = Some("app \"1\"");
    let mut transfer = fee07::Transfer::new(Some("EUR"), amount());
    transfer.fees[0].description = Some("a 'quoted' <fee>");
    let elements = [
        fee::Check::new(Some("USD"), Some(1)).to_element(),
        fee::Create::new(Some("USD"), amount()).to_element(),
        fee::Renew::new(None, amount()).to_element(),
        fee07::Check::new(&["a.example", "b.example"], Some("USD"), Some(2)).to_element(),
        fee07::Create::new(None, amount()).to_element(),
        transfer.to_element(),
        Agreement::create(Some(String::from("A")), String::from("premium"), String::from("price"), amount())
            .to_element(),
        launch::Check::new(Some(launch::Phase::custom("early"))).to_element(),
        create.to_element(),
    ];
    for e in elements {
        let text = text_of(&[Element::new(&e.ns, &e.name, vec![], None, vec![])]);
        assert!(parse_document(&text).is_ok(), "{}", text);
        let text = text_of(std::slice::from_ref(&e));
        assert_eq!(parse_document(&text).as_ref(), Ok(&e), "{}", text);
    }
}
