use epp_extensions::amount::Amount;
use epp_extensions::element::{attribute, Element, Id};
use epp_extensions::error::{DecodeError, ReadError};
use epp_extensions::extensions::charge::{
    Agreement, AgreementAmount, AgreementCategory, AgreementSet, ChargeAmount, ChargeCategory,
    ChargeCd, ChargeCommand, ChargeExtension, ChargeSet, CheckData, XMLNS,
};
use epp_extensions::request::{decode_document, Extension, ExtensionKind, Response, ToElement};
use instant_xml::{Deserializer, Error};

#[test]
fn charge_namespace_is_fixed() {
    assert_eq!(XMLNS, "http://www.unitedtld.com/epp/charge-1.0");
}

#[test]
fn command_decodes_known_tokens() {
    assert_eq!(ChargeCommand::decode(Some("create")), ChargeCommand::Create);
    assert_eq!(ChargeCommand::decode(Some("renew")), ChargeCommand::Renew);
    assert_eq!(ChargeCommand::decode(Some("transfer")), ChargeCommand::Transfer);
    assert_eq!(ChargeCommand::decode(Some("update")), ChargeCommand::Update);
}

#[test]
fn command_token_reads_back() {
    for c in [
        ChargeCommand::Create,
        ChargeCommand::Renew,
        ChargeCommand::Transfer,
        ChargeCommand::Update,
    ] {
        assert_eq!(ChargeCommand::decode(c.as_token()), c);
    }
}

#[test]
fn command_keeps_an_unknown_token() {
    for s in ["restore", "Create", "create ", " ", "créer", "updat"] {
        let c = ChargeCommand::decode(Some(s));
        assert_eq!(c, ChargeCommand::Unknown(String::from(s)));
        assert_eq!(c.as_token(), Some(s));
    }
}

#[test]
fn command_without_text_is_empty() {
    assert_eq!(ChargeCommand::decode(None), ChargeCommand::Empty);
    assert_eq!(ChargeCommand::decode(Some("")), ChargeCommand::Empty);
    assert_ne!(ChargeCommand::decode(None), ChargeCommand::Unknown(String::new()));
    assert_eq!(ChargeCommand::Empty.as_token(), None);
}

#[test]
fn command_fills_an_empty_slot() {
    let mut slot = None;
    assert_eq!(ChargeCommand::fill(&mut slot, "ChargeAmount::command", Some("renew")), Ok(()));
    assert_eq!(slot, Some(ChargeCommand::Renew));
    let mut slot = None;
    assert_eq!(ChargeCommand::fill(&mut slot, "ChargeAmount::command", None), Ok(()));
    assert_eq!(slot, Some(ChargeCommand::Empty));
}

#[test]
fn command_refuses_a_filled_slot() {
    let mut slot = Some(ChargeCommand::Create);
    assert_eq!(
        ChargeCommand::fill(&mut slot, "ChargeAmount::command", Some("renew")),
        Err(DecodeError::DuplicateValue("ChargeAmount::command"))
    );
    assert_eq!(slot, Some(ChargeCommand::Create));
}

fn deserialized(document: &str) -> Result<Option<ChargeCommand>, ReadError> {
    let mut reader = Deserializer::new(document).unwrap();
    let mut slot = None;
    ChargeCommand::deserialize(&mut slot, "ChargeAmount::command", &mut reader)?;
    Ok(slot)
}

fn taken(document: &str) -> Result<Option<String>, Error> {
    let mut reader = Deserializer::new(document).unwrap();
    Ok(reader.take_str()?.map(|text| text.into_owned()))
}

#[test]
fn command_is_deserialized_from_the_text_of_the_reader() {
    assert_eq!(deserialized("<c>create</c>"), Ok(Some(ChargeCommand::Create)));
    assert_eq!(deserialized("<c>renew</c>"), Ok(Some(ChargeCommand::Renew)));
    assert_eq!(deserialized("<c>transfer</c>"), Ok(Some(ChargeCommand::Transfer)));
    assert_eq!(deserialized("<c>update</c>"), Ok(Some(ChargeCommand::Update)));
    assert_eq!(
        deserialized("<c>re&amp;store</c>"),
        Ok(Some(ChargeCommand::Unknown(String::from("re&store"))))
    );
}

#[test]
fn command_is_deserialized_as_empty_where_the_reader_has_no_text() {
    assert_eq!(deserialized("<c/>"), Ok(Some(ChargeCommand::Empty)));
    assert_eq!(deserialized("<c></c>"), Ok(Some(ChargeCommand::Empty)));
}

#[test]
fn command_is_what_decoding_the_text_of_the_reader_gives() {
    for document in ["<c>create</c>", "<c>Create</c>", "<c> </c>", "<c/>", "<c k='v'>update</c>"] {
        let text = taken(document).unwrap();
        assert_eq!(
            deserialized(document),
            Ok(Some(ChargeCommand::decode(text.as_deref()))),
            "{}",
            document
        );
    }
}

#[test]
fn error_of_the_reader_is_handed_on_as_it_came() {
    for document in ["<c><d/></c>", "<c>&bogus;</c>", "<c><d>text</d></c>"] {
        let error = taken(document).unwrap_err();
        let mut reader = Deserializer::new(document).unwrap();
        let mut slot = None;
        assert_eq!(
            ChargeCommand::deserialize(&mut slot, "ChargeAmount::command", &mut reader),
            Err(ReadError::Reader(error)),
            "{}",
            document
        );
        assert_eq!(slot, None);
    }
    assert!(matches!(
        deserialized("<c><d/></c>"),
        Err(ReadError::Reader(Error::ExpectedScalar(_)))
    ));
}

#[test]
fn command_is_not_deserialized_into_a_filled_slot() {
    let mut reader = Deserializer::new("<c>renew</c>").unwrap();
    let mut slot = Some(ChargeCommand::Create);
    assert_eq!(
        ChargeCommand::deserialize(&mut slot, "ChargeAmount::command", &mut reader),
        Err(ReadError::DuplicateValue("ChargeAmount::command"))
    );
    assert_eq!(slot, Some(ChargeCommand::Create));
}

#[test]
fn a_filled_slot_leaves_the_reader_untouched() {
    let mut reader = Deserializer::new("<c>renew</c>").unwrap();
    let mut slot = Some(ChargeCommand::Unknown(String::from("kept")));
    for _ in 0..3 {
        assert_eq!(
            ChargeCommand::deserialize(&mut slot, "ChargeAmount::command", &mut reader),
            Err(ReadError::DuplicateValue("ChargeAmount::command"))
        );
        assert_eq!(slot, Some(ChargeCommand::Unknown(String::from("kept"))));
    }
    assert_eq!(reader.take_str().unwrap().as_deref(), Some("renew"));

    let mut reader = Deserializer::new("<c><d/></c>").unwrap();
    let mut slot = Some(ChargeCommand::Create);
    assert_eq!(
        ChargeCommand::deserialize(&mut slot, "ChargeAmount::command", &mut reader),
        Err(ReadError::DuplicateValue("ChargeAmount::command"))
    );
    assert!(matches!(reader.take_str(), Err(Error::ExpectedScalar(_))));
}

#[test]
fn command_matches_the_field_it_is_bound_to() {
    let id = Id { ns: "", name: "command" };
    assert!(ChargeCommand::matches(id, Some(Id { ns: "", name: "command" })));
    assert!(!ChargeCommand::matches(id, Some(Id { ns: "", name: "name" })));
    assert!(!ChargeCommand::matches(id, Some(Id { ns: "urn:x", name: "command" })));
    assert!(!ChargeCommand::matches(id, None));
}

#[test]
fn charge_extension_is_never_sent() {
    assert!(!ChargeExtension.do_send());
    assert_eq!(ChargeExtension::kind(), ExtensionKind::Charge);
    assert_eq!(
        ChargeExtension.to_element(),
        Element::new("", "ChargeExtension", vec![], None, vec![])
    );
}

#[test]
fn charge_reply_reads_every_field() {
    let xml = r#"<charge:chkData xmlns:charge="http://www.unitedtld.com/epp/charge-1.0">
      <charge:cd>
        <charge:name>premium.example</charge:name>
        <charge:set>
          <charge:category name="AAAA">premium</charge:category>
          <charge:type>price</charge:type>
          <charge:amount command="create">99.00</charge:amount>
          <charge:amount command="update" name="restore">20.00</charge:amount>
          <charge:amount command="delete">1.00</charge:amount>
          <charge:amount command="">0</charge:amount>
        </charge:set>
      </charge:cd>
    </charge:chkData>"#;
    let reply: CheckData = decode_document(xml).unwrap();
    let amount = |command, name: Option<&str>, text| ChargeAmount {
        command,
        name: name.map(String::from),
        amount: Amount::parse(text).unwrap(),
    };
    assert_eq!(
        reply,
        CheckData {
            list: vec![ChargeCd {
                name: String::from("premium.example"),
                set: ChargeSet {
                    category: ChargeCategory {
                        name: String::from("AAAA"),
                        value: String::from("premium"),
                    },
                    charge_type: String::from("price"),
                    amounts: vec![
                        amount(ChargeCommand::Create, None, "99.00"),
                        amount(ChargeCommand::Update, Some("restore"), "20.00"),
                        amount(ChargeCommand::Unknown(String::from("delete")), None, "1.00"),
                        amount(ChargeCommand::Empty, None, "0"),
                    ],
                },
            }],
        }
    );
    let again: CheckData = decode_document(xml).unwrap();
    assert_eq!(again, reply);
}

#[test]
fn charge_amount_without_command_misses_a_value() {
    let e = Element::leaf(XMLNS, "amount", "1.00");
    assert_eq!(
        ChargeAmount::from_element(&e),
        Err(DecodeError::MissingValue("ChargeAmount::command"))
    );
}

#[test]
fn charge_amount_with_two_commands_has_a_duplicate() {
    let e = Element::new(
        XMLNS,
        "amount",
        vec![attribute("command", "create"), attribute("command", "renew")],
        Some(String::from("1.00")),
        vec![],
    );
    assert_eq!(
        ChargeAmount::from_element(&e),
        Err(DecodeError::DuplicateValue("ChargeAmount::command"))
    );
}

#[test]
fn charge_amount_that_is_no_number_is_refused() {
    let e = Element::new(
        XMLNS,
        "amount",
        vec![attribute("command", "create")],
        Some(String::from("free")),
        vec![],
    );
    assert_eq!(
        ChargeAmount::from_element(&e),
        Err(DecodeError::MalformedNumber("ChargeAmount::amount"))
    );
}

#[test]
fn charge_set_without_category_misses_a_value() {
    let e = Element::new(XMLNS, "set", vec![], None, vec![Element::leaf(XMLNS, "type", "price")]);
    assert_eq!(ChargeSet::from_element(&e), Err(DecodeError::MissingValue("ChargeSet::category")));
    let e = Element::leaf(XMLNS, "category", "premium");
    assert_eq!(
        ChargeCategory::from_element(&e),
        Err(DecodeError::MissingValue("ChargeCategory::name"))
    );
    let e = Element::new(XMLNS, "cd", vec![], None, vec![Element::leaf(XMLNS, "name", "x")]);
    assert_eq!(ChargeCd::from_element(&e), Err(DecodeError::MissingValue("ChargeCd::set")));
}

#[test]
fn agreement_of_a_create() {
    let a = Agreement::create(
        Some(String::from("AAAA")),
        String::from("premium"),
        String::from("price"),
        Amount::parse("99.00").unwrap(),
    );
    assert_eq!(
        a,
        Agreement {
            set: AgreementSet {
                category: AgreementCategory {
                    name: Some(String::from("AAAA")),
                    value: String::from("premium"),
                },
                charge_type: String::from("price"),
                amount: AgreementAmount { command: "create", amount: Amount::parse("99.00").unwrap() },
            },
        }
    );
    assert_eq!(Agreement::kind(), ExtensionKind::ChargeAgreement);
    assert!(a.do_send());
}

#[test]
fn agreement_of_a_renew() {
    let a = Agreement::renew(
        None,
        String::from("standard"),
        String::from("fee"),
        Amount::parse("10").unwrap(),
    );
    assert_eq!(a.set.amount.command, "renew");
    assert_eq!(a.set.category.name, None);
    assert_eq!(a.set.category.value, "standard");
    assert_eq!(a.set.charge_type, "fee");
    assert_eq!(a.set.amount.amount.as_str(), "10");
}

#[test]
fn agreement_is_written_category_type_amount() {
    let a = Agreement::create(
        Some(String::from("AAAA")),
        String::from("premium"),
        String::from("price"),
        Amount::parse("99.00").unwrap(),
    );
    assert_eq!(
        a.to_element(),
        Element::new(
            XMLNS,
            "agreement",
            vec![],
            None,
            vec![Element::new(
                XMLNS,
                "set",
                vec![],
                None,
                vec![
                    Element::new(
                        XMLNS,
                        "category",
                        vec![attribute("name", "AAAA")],
                        Some(String::from("premium")),
                        vec![],
                    ),
                    Element::leaf(XMLNS, "type", "price"),
                    Element::new(
                        XMLNS,
                        "amount",
                        vec![attribute("command", "create")],
                        Some(String::from("99.00")),
                        vec![],
                    ),
                ],
            )],
        )
    );
}
