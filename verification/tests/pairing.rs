use epp_extensions::amount::Amount;
use epp_extensions::element::Element;
use epp_extensions::error::DecodeError;
use epp_extensions::extensions::charge::{Agreement, ChargeExtension, CheckData as ChargeCheckData};
use epp_extensions::extensions::composite::CompositeExt;
use epp_extensions::extensions::{charge, fee, fee07, known_namespace, launch};
use epp_extensions::request::{
    decode_reply, is_paired, Command, CommandKind, DomainCheck, DomainCreate, DomainRenew,
    DomainTransfer, DomainUpdate, EligibilityError, Extension, ExtensionKind, NoExtension,
    Response, ToElement, Transaction,
};
use epp_extensions::xml::parse_document;

const COMMANDS: [CommandKind; 5] = [
    CommandKind::Check,
    CommandKind::Create,
    CommandKind::Renew,
    CommandKind::Transfer,
    CommandKind::Update,
];

const DECLARED: [(CommandKind, ExtensionKind); 13] = [
    (CommandKind::Check, ExtensionKind::FeeCheck),
    (CommandKind::Create, ExtensionKind::FeeCreate),
    (CommandKind::Renew, ExtensionKind::FeeRenew),
    (CommandKind::Check, ExtensionKind::Fee07Check),
    (CommandKind::Create, ExtensionKind::Fee07Create),
    (CommandKind::Renew, ExtensionKind::Fee07Renew),
    (CommandKind::Transfer, ExtensionKind::Fee07Transfer),
    (CommandKind::Check, ExtensionKind::Charge),
    (CommandKind::Create, ExtensionKind::ChargeAgreement),
    (CommandKind::Renew, ExtensionKind::ChargeAgreement),
    (CommandKind::Check, ExtensionKind::LaunchCheck),
    (CommandKind::Create, ExtensionKind::LaunchCreate),
    (CommandKind::Update, ExtensionKind::Composite),
];

const EXTENSIONS: [ExtensionKind; 12] = [
    ExtensionKind::FeeCheck,
    ExtensionKind::FeeCreate,
    ExtensionKind::FeeRenew,
    ExtensionKind::Fee07Check,
    ExtensionKind::Fee07Create,
    ExtensionKind::Fee07Renew,
    ExtensionKind::Fee07Transfer,
    ExtensionKind::Charge,
    ExtensionKind::ChargeAgreement,
    ExtensionKind::LaunchCheck,
    ExtensionKind::LaunchCreate,
    ExtensionKind::Composite,
];

fn amount() -> Amount {
    Amount::parse("1.00").unwrap()
}

fn attach_everywhere<E: Extension, F: Fn() -> E>(make: F, kind: ExtensionKind) {
    assert_eq!(E::kind(), kind);
    for command in COMMANDS {
        let declared = DECLARED.contains(&(command, kind));
        match Transaction::new(command, make()) {
            Ok(t) => {
                assert!(declared, "{:?} with {:?}", command, kind);
                assert_eq!(t.command(), command);
            }
            Err(e) => {
                assert!(!declared, "{:?} with {:?}", command, kind);
                assert_eq!(e, EligibilityError { command, extension: kind });
            }
        }
    }
}

#[test]
fn pairing_holds_the_declared_pairs_and_no_others() {
    for command in COMMANDS {
        for extension in EXTENSIONS {
            assert_eq!(
                is_paired(command, extension),
                DECLARED.contains(&(command, extension)),
                "{:?} with {:?}",
                command,
                extension
            );
        }
    }
}

#[test]
fn every_extension_attaches_only_where_it_is_paired() {
    attach_everywhere(|| fee::Check::new(None, None), ExtensionKind::FeeCheck);
    attach_everywhere(|| fee::Create::new(None, amount()), ExtensionKind::FeeCreate);
    attach_everywhere(|| fee::Renew::new(None, amount()), ExtensionKind::FeeRenew);
    attach_everywhere(|| fee07::Check::new(&[], None, None), ExtensionKind::Fee07Check);
    attach_everywhere(|| fee07::Create::new(None, amount()), ExtensionKind::Fee07Create);
    attach_everywhere(|| fee07::Renew::new(None, amount()), ExtensionKind::Fee07Renew);
    attach_everywhere(|| fee07::Transfer::new(None, amount()), ExtensionKind::Fee07Transfer);
    attach_everywhere(|| ChargeExtension, ExtensionKind::Charge);
    attach_everywhere(
        || Agreement::create(None, String::from("premium"), String::from("price"), amount()),
        ExtensionKind::ChargeAgreement,
    );
    attach_everywhere(|| launch::Check::new(None), ExtensionKind::LaunchCheck);
    attach_everywhere(
        || launch::Create::new(launch::Phase::new(launch::PhaseType::Open, None)),
        ExtensionKind::LaunchCreate,
    );
    attach_everywhere(
        || CompositeExt { first: ChargeExtension, second: fee::Check::new(None, None) },
        ExtensionKind::Composite,
    );
}

#[test]
fn an_extension_that_is_not_paired_is_refused() {
    let r = Transaction::new(CommandKind::Create, fee::Check::new(None, None));
    assert_eq!(
        r.unwrap_err(),
        EligibilityError { command: CommandKind::Create, extension: ExtensionKind::FeeCheck }
    );
    let both = CompositeExt { first: fee::Check::new(None, None), second: launch::Check::new(None) };
    let r = Transaction::new(CommandKind::Check, both);
    assert_eq!(
        r.unwrap_err(),
        EligibilityError { command: CommandKind::Check, extension: ExtensionKind::Composite }
    );
}

#[test]
fn transaction_encodes_what_the_extension_writes() {
    let t = Transaction::new(CommandKind::Check, fee::Check::new(Some("USD"), Some(1))).unwrap();
    assert_eq!(t.command(), CommandKind::Check);
    assert_eq!(t.extension().currency, Some("USD"));
    assert_eq!(t.encode(), vec![fee::Check::new(Some("USD"), Some(1)).to_element()]);
}

#[test]
fn transaction_encodes_nothing_for_what_is_never_sent() {
    let t = Transaction::new(CommandKind::Check, ChargeExtension).unwrap();
    assert!(t.encode().is_empty());
}

#[test]
fn transaction_decodes_the_reply_of_its_extension() {
    let section = vec![
        parse_document(r#"<other xmlns="urn:x"/>"#).unwrap(),
        parse_document(
            r#"<chkData xmlns="http://www.unitedtld.com/epp/charge-1.0"><cd><name>a</name><set><category name="A">premium</category><type>price</type></set></cd></chkData>"#,
        )
        .unwrap(),
    ];
    let t = Transaction::new(CommandKind::Check, ChargeExtension).unwrap();
    let reply = t.decode(&section).unwrap().unwrap();
    assert_eq!(reply.list.len(), 1);
    assert_eq!(reply.list[0].name, "a");
    assert_eq!(decode_reply::<ChargeCheckData>(&section), Ok(Some(reply)));

    let t = Transaction::new(CommandKind::Check, fee::Check::new(None, None)).unwrap();
    assert_eq!(t.decode(&section), Ok(None));
}

#[test]
fn reply_that_occurs_twice_is_a_duplicate() {
    let one = r#"<chkData xmlns="http://www.unitedtld.com/epp/charge-1.0"/>"#;
    let section = vec![parse_document(one).unwrap(), parse_document(one).unwrap()];
    assert_eq!(
        decode_reply::<ChargeCheckData>(&section),
        Err(DecodeError::DuplicateValue("extension"))
    );
}

#[test]
fn reply_that_cannot_be_read_is_an_error() {
    let section = vec![parse_document(
        r#"<chkData xmlns="http://www.unitedtld.com/epp/charge-1.0"><cd/></chkData>"#,
    )
    .unwrap()];
    assert_eq!(
        decode_reply::<ChargeCheckData>(&section),
        Err(DecodeError::MissingValue("ChargeCd::name"))
    );
}

#[test]
fn no_extension_reads_nothing() {
    let e = Element::leaf("urn:x", "anything", "");
    assert!(!NoExtension::matches(&e));
    assert_eq!(NoExtension::from_element(&e), Ok(NoExtension));
    assert_eq!(decode_reply::<NoExtension>(&vec![e]), Ok(None));
}

#[test]
fn every_extension_names_its_namespace() {
    assert_eq!(fee::Check::namespace(), Some("urn:ietf:params:xml:ns:epp:fee-1.0"));
    assert_eq!(fee::Create::namespace(), Some(fee::XMLNS));
    assert_eq!(fee::Renew::namespace(), Some(fee::XMLNS));
    assert_eq!(fee07::Check::namespace(), Some("urn:ietf:params:xml:ns:fee-0.7"));
    assert_eq!(fee07::Create::namespace(), Some(fee07::XMLNS));
    assert_eq!(fee07::Renew::namespace(), Some(fee07::XMLNS));
    assert_eq!(fee07::Transfer::namespace(), Some(fee07::XMLNS));
    assert_eq!(ChargeExtension::namespace(), Some("http://www.unitedtld.com/epp/charge-1.0"));
    assert_eq!(Agreement::namespace(), Some("http://www.unitedtld.com/epp/charge-1.0"));
    assert_eq!(launch::Check::namespace(), Some("urn:ietf:params:xml:ns:launch-1.0"));
    assert_eq!(launch::Create::namespace(), Some(launch::XMLNS));
    assert_eq!(CompositeExt::<ChargeExtension, Agreement>::namespace(), None);
}

#[test]
fn known_namespace_finds_the_constants() {
    for ns in [fee::XMLNS, fee07::XMLNS, charge::XMLNS, launch::XMLNS, launch::SMD_XMLNS] {
        let owned = String::from(ns);
        assert_eq!(known_namespace(&owned), Some(ns));
    }
    assert_eq!(known_namespace(""), None);
    assert_eq!(known_namespace("urn:ietf:params:xml:ns:epp-1.0"), None);
    assert_eq!(known_namespace("urn:ietf:params:xml:ns:fee-0.70"), None);
}

#[test]
fn a_witness_attaches_without_a_check_at_run_time() {
    let t = Transaction::attach::<DomainCheck>(fee::Check::new(Some("USD"), None));
    assert_eq!(t.command(), CommandKind::Check);
    assert_eq!(t.extension().currency, Some("USD"));
    let t = Transaction::attach::<DomainCreate>(fee::Create::new(None, amount()));
    assert_eq!(t.command(), CommandKind::Create);
    let t = Transaction::attach::<DomainRenew>(fee07::Renew::new(None, amount()));
    assert_eq!(t.command(), CommandKind::Renew);
    let t = Transaction::attach::<DomainTransfer>(fee07::Transfer::new(None, amount()));
    assert_eq!(t.command(), CommandKind::Transfer);
    let t = Transaction::attach::<DomainCheck>(ChargeExtension);
    assert!(t.encode().is_empty());
    let agree = || Agreement::renew(None, String::from("premium"), String::from("price"), amount());
    assert_eq!(Transaction::attach::<DomainCreate>(agree()).command(), CommandKind::Create);
    assert_eq!(Transaction::attach::<DomainRenew>(agree()).command(), CommandKind::Renew);
    let t = Transaction::attach::<DomainUpdate>(CompositeExt {
        first: launch::Check::new(None),
        second: agree(),
    });
    assert_eq!(t.command(), CommandKind::Update);
    assert_eq!(t.encode().len(), 2);
}

#[test]
fn every_command_type_names_its_kind() {
    assert_eq!(DomainCheck::kind(), CommandKind::Check);
    assert_eq!(DomainCreate::kind(), CommandKind::Create);
    assert_eq!(DomainRenew::kind(), CommandKind::Renew);
    assert_eq!(DomainTransfer::kind(), CommandKind::Transfer);
    assert_eq!(DomainUpdate::kind(), CommandKind::Update);
}
