use epp_extensions::amount::Amount;
use epp_extensions::element::{attribute, Element};
use epp_extensions::error::DecodeError;
use epp_extensions::extensions::fee07::{
    Check, CheckData, CheckDomainData, Command, CommandResp, Create, CreateData, Credit, CreditReq,
    Domain, Fee, FeeReq, Period, PeriodUnit, Renew, RenewData, Transfer, TransferData, XMLNS,
};
use epp_extensions::request::{decode_document, Extension, ExtensionKind, Response, ToElement};

#[test]
fn legacy_namespace_differs_from_the_standard_one() {
    assert_eq!(XMLNS, "urn:ietf:params:xml:ns:fee-0.7");
    assert_ne!(XMLNS, epp_extensions::extensions::fee::XMLNS);
}

#[test]
fn legacy_unit_decodes_as_the_standard_one() {
    assert_eq!(PeriodUnit::decode(Some("y")), PeriodUnit::Years);
    assert_eq!(PeriodUnit::decode(Some("m")), PeriodUnit::Months);
    assert_eq!(PeriodUnit::decode(Some("w")), PeriodUnit::Unknown(String::from("w")));
    assert_eq!(PeriodUnit::decode(Some("")), PeriodUnit::Empty);
    assert_eq!(PeriodUnit::decode(None), PeriodUnit::Empty);
    assert_eq!(PeriodUnit::Months.as_token(), Some("m"));
    assert_eq!(PeriodUnit::Years.clone(), PeriodUnit::Years);
}

#[test]
fn legacy_years_makes_a_period_of_years() {
    assert_eq!(Period::years(3), Period { unit: PeriodUnit::Years, value: 3 });
    assert_eq!(Period::years(3).clone(), Period::years(3));
}

#[test]
fn legacy_period_reads_back_what_was_written() {
    let p = Period { unit: PeriodUnit::Months, value: 18 };
    let e = p.to_element();
    assert_eq!(e.ns, XMLNS);
    assert_eq!(Period::from_element(&e), Ok(p));
    assert!(!Period::matches(&epp_extensions::extensions::fee::Period::years(1).to_element()));
}

#[test]
fn legacy_command_carries_its_value_as_text() {
    let c = Command { phase: Some(String::from("sunrise")), subphase: None, value: String::from("create") };
    let e = c.to_element();
    assert_eq!(
        e,
        Element::new(
            XMLNS,
            "command",
            vec![attribute("phase", "sunrise")],
            Some(String::from("create")),
            vec![],
        )
    );
    assert_eq!(Command::from_element(&e), Ok(c));
    assert_eq!(
        CommandResp::from_element(&e),
        Ok(CommandResp {
            phase: Some(String::from("sunrise")),
            subphase: None,
            value: String::from("create"),
        })
    );
}

#[test]
fn legacy_check_new_asks_three_commands_of_each_name() {
    let names = ["a.example", "b.example"];
    let c = Check::new(&names, Some("USD"), Some(2));
    assert_eq!(c.domains.len(), 6);
    let expected = [
        ("a.example", "create"),
        ("a.example", "renew"),
        ("a.example", "transfer"),
        ("b.example", "create"),
        ("b.example", "renew"),
        ("b.example", "transfer"),
    ];
    for (d, (name, command)) in c.domains.iter().zip(expected) {
        assert_eq!(
            d,
            &Domain {
                name,
                currency: Some("USD"),
                command: Command { phase: None, subphase: None, value: String::from(command) },
                period: Some(Period::years(2)),
            }
        );
    }
}

#[test]
fn legacy_check_new_of_no_name_is_empty() {
    let c = Check::new(&[], None, None);
    assert!(c.domains.is_empty());
    let c = Check::new(&["x.example"], None, None);
    assert_eq!(c.domains.len(), 3);
    assert_eq!(c.domains[2].currency, None);
    assert_eq!(c.domains[2].period, None);
}

#[test]
fn legacy_check_is_written_domain_by_domain() {
    let c = Check::new(&["a.example"], Some("USD"), Some(1));
    let e = c.to_element();
    assert_eq!(e.name, "check");
    assert_eq!(e.ns, XMLNS);
    assert_eq!(e.children.len(), 3);
    assert_eq!(
        e.children[1],
        Element::new(
            XMLNS,
            "domain",
            vec![],
            None,
            vec![
                Element::leaf(XMLNS, "name", "a.example"),
                Element::leaf(XMLNS, "currency", "USD"),
                Element::leaf(XMLNS, "command", "renew"),
                Element::new(
                    XMLNS,
                    "period",
                    vec![attribute("unit", "y")],
                    Some(String::from("1")),
                    vec![],
                ),
            ],
        )
    );
    assert_eq!(Check::kind(), ExtensionKind::Fee07Check);
    assert!(c.do_send());
}

#[test]
fn legacy_check_reply_reads_every_field() {
    let xml = r#"<fee:chkData xmlns:fee="urn:ietf:params:xml:ns:fee-0.7">
      <fee:cd>
        <fee:name>example.com</fee:name>
        <fee:currency>USD</fee:currency>
        <fee:command phase="open">create</fee:command>
        <fee:period unit="y">1</fee:period>
        <fee:fee description="Registration" refundable="true" grace-period="P5D" applied="immediate">10.00</fee:fee>
        <fee:credit>-2.00</fee:credit>
        <fee:class>premium</fee:class>
      </fee:cd>
    </fee:chkData>"#;
    let reply: CheckData = decode_document(xml).unwrap();
    assert_eq!(
        reply,
        CheckData {
            list: vec![CheckDomainData {
                name: String::from("example.com"),
                currency: String::from("USD"),
                command: CommandResp {
                    phase: Some(String::from("open")),
                    subphase: None,
                    value: String::from("create"),
                },
                period: Some(Period::years(1)),
                fees: vec![Fee {
                    description: Some(String::from("Registration")),
                    refundable: Some(true),
                    grace_period: Some(String::from("P5D")),
                    applied: Some(String::from("immediate")),
                    amount: Amount::parse("10.00").unwrap(),
                }],
                credits: vec![Credit { description: None, amount: Amount::parse("-2.00").unwrap() }],
                class: Some(String::from("premium")),
            }],
        }
    );
}

#[test]
fn legacy_check_reply_without_command_misses_a_value() {
    let xml = r#"<chkData xmlns="urn:ietf:params:xml:ns:fee-0.7"><cd><name>a</name><currency>USD</currency></cd></chkData>"#;
    let r: Result<CheckData, DecodeError> = decode_document(xml);
    assert_eq!(r, Err(DecodeError::MissingValue("CheckDomainData::command")));
}

#[test]
fn legacy_requests_agree_to_one_plain_fee() {
    let c = Create::new(Some("USD"), Amount::parse("10.00").unwrap());
    assert_eq!(c.currency, Some("USD"));
    assert_eq!(
        c.fees,
        vec![FeeReq {
            description: None,
            refundable: None,
            grace_period: None,
            applied: None,
            amount: Amount::parse("10.00").unwrap(),
        }]
    );
    assert!(c.credits.is_empty());
    let r = Renew::new(None, Amount::parse("11.00").unwrap());
    assert_eq!(r.currency, None);
    assert_eq!(r.fees.len(), 1);
    assert_eq!(r.fees[0].amount.as_str(), "11.00");
    assert!(r.credits.is_empty());
    let t = Transfer::new(Some("EUR"), Amount::parse("12.00").unwrap());
    assert_eq!(t.currency, Some("EUR"));
    assert_eq!(t.fees.len(), 1);
    assert_eq!(t.fees[0].amount.as_str(), "12.00");
    assert!(t.credits.is_empty());
    assert_eq!(Create::kind(), ExtensionKind::Fee07Create);
    assert_eq!(Renew::kind(), ExtensionKind::Fee07Renew);
    assert_eq!(Transfer::kind(), ExtensionKind::Fee07Transfer);
}

#[test]
fn legacy_requests_are_written_with_fees_then_credits() {
    let mut t = Transfer::new(Some("EUR"), Amount::parse("12.00").unwrap());
    t.fees[0].applied = Some("delayed");
    t.fees[0].refundable = Some(false);
    t.credits.push(CreditReq { description: Some("promo"), amount: Amount::parse("-1.00").unwrap() });
    assert_eq!(
        t.to_element(),
        Element::new(
            XMLNS,
            "transfer",
            vec![],
            None,
            vec![
                Element::leaf(XMLNS, "currency", "EUR"),
                Element::new(
                    XMLNS,
                    "fee",
                    vec![attribute("refundable", "false"), attribute("applied", "delayed")],
                    Some(String::from("12.00")),
                    vec![],
                ),
                Element::new(
                    XMLNS,
                    "credit",
                    vec![attribute("description", "promo")],
                    Some(String::from("-1.00")),
                    vec![],
                ),
            ],
        )
    );
    let c = Create::new(None, Amount::parse("1").unwrap());
    assert_eq!(c.to_element().name, "create");
    let r = Renew::new(None, Amount::parse("1").unwrap());
    assert_eq!(r.to_element().name, "renew");
}

#[test]
fn legacy_transform_replies_read_balance_and_limit() {
    let xml = r#"<creData xmlns="urn:ietf:params:xml:ns:fee-0.7"><currency>USD</currency><fee>5.00</fee><balance>-5.00</balance><creditLimit>1000.00</creditLimit></creData>"#;
    let c: CreateData = decode_document(xml).unwrap();
    assert_eq!(c.currency, "USD");
    assert_eq!(c.fees.len(), 1);
    assert!(c.credits.is_empty());
    assert_eq!(c.balance, Amount::parse("-5.00"));
    assert_eq!(c.credit_limit, Amount::parse("1000.00"));

    let xml = r#"<renData xmlns="urn:ietf:params:xml:ns:fee-0.7"><currency>USD</currency></renData>"#;
    let r: RenewData = decode_document(xml).unwrap();
    assert_eq!(r.balance, None);
    assert_eq!(r.credit_limit, None);

    let xml = r#"<trnData xmlns="urn:ietf:params:xml:ns:fee-0.7"><currency>USD</currency><period unit="y">2</period><credit>-1</credit></trnData>"#;
    let t: TransferData = decode_document(xml).unwrap();
    assert_eq!(t.period, Some(Period::years(2)));
    assert_eq!(t.credits.len(), 1);
}

#[test]
fn legacy_reply_with_a_bad_balance_is_refused() {
    let xml = r#"<creData xmlns="urn:ietf:params:xml:ns:fee-0.7"><currency>USD</currency><balance>lots</balance></creData>"#;
    let r: Result<CreateData, DecodeError> = decode_document(xml);
    assert_eq!(r, Err(DecodeError::MalformedNumber("CreateData::balance")));
}
