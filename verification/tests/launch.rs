use epp_extensions::element::{attribute, Element};
use epp_extensions::error::DecodeError;
use epp_extensions::extensions::launch::{
    Check, CheckData, CheckDomainData, CheckName, CodeMark, Create, EncodedSignedMark, Notice, Phase,
    PhaseData, PhaseType, SMD_XMLNS, XMLNS,
};
use epp_extensions::request::{decode_document, Extension, ExtensionKind, Response, ToElement};
use epp_extensions::time::Timestamp;

#[test]
fn launch_namespaces_are_fixed() {
    assert_eq!(XMLNS, "urn:ietf:params:xml:ns:launch-1.0");
    assert_eq!(SMD_XMLNS, "urn:ietf:params:xml:ns:signedMark-1.0");
}

#[test]
fn phase_token_reads_back() {
    let known = [
        (PhaseType::Sunrise, "sunrise"),
        (PhaseType::Landrush, "landrush"),
        (PhaseType::Claims, "claims"),
        (PhaseType::Open, "open"),
        (PhaseType::Custom, "custom"),
    ];
    for (p, token) in known {
        assert_eq!(p.as_token(), Some(token));
        assert_eq!(PhaseType::decode(Some(token)), p);
    }
}

#[test]
fn phase_keeps_an_unknown_token() {
    let p = PhaseType::decode(Some("quiet"));
    assert_eq!(p, PhaseType::Unknown(String::from("quiet")));
    assert_eq!(p.as_token(), Some("quiet"));
    assert_eq!(PhaseType::decode(Some("Open")), PhaseType::Unknown(String::from("Open")));
}

#[test]
fn phase_without_text_is_empty() {
    assert_eq!(PhaseType::decode(None), PhaseType::Empty);
    assert_eq!(PhaseType::decode(Some("")), PhaseType::Empty);
    assert_eq!(PhaseType::Empty.as_token(), None);
}

#[test]
fn phase_new_and_custom() {
    assert_eq!(
        Phase::new(PhaseType::Claims, None),
        Phase { name: None, value: PhaseType::Claims }
    );
    assert_eq!(
        Phase::new(PhaseType::Custom, Some("early")),
        Phase { name: Some("early"), value: PhaseType::Custom }
    );
    assert_eq!(Phase::custom("early"), Phase { name: Some("early"), value: PhaseType::Custom });
}

#[test]
fn phase_is_written_as_attribute_and_text() {
    assert_eq!(
        Phase::custom("early").to_element(),
        Element::new(
            XMLNS,
            "phase",
            vec![attribute("name", "early")],
            Some(String::from("custom")),
            vec![],
        )
    );
    assert_eq!(
        Phase::new(PhaseType::Empty, None).to_element(),
        Element::new(XMLNS, "phase", vec![], None, vec![])
    );
}

#[test]
fn phase_reads_back_what_was_written() {
    for (value, name) in [
        (PhaseType::Sunrise, None),
        (PhaseType::Custom, Some("early")),
        (PhaseType::Unknown(String::from("quiet")), None),
        (PhaseType::Empty, None),
    ] {
        let e = Phase::new(value.clone(), name).to_element();
        assert_eq!(
            PhaseData::from_element(&e),
            Ok(PhaseData { name: name.map(String::from), value })
        );
    }
}

#[test]
fn launch_check_new_and_wire() {
    let c = Check::new(Some(Phase::new(PhaseType::Claims, None)));
    assert_eq!(c.phase, Some(Phase { name: None, value: PhaseType::Claims }));
    assert_eq!(
        c.to_element(),
        Element::new(XMLNS, "check", vec![], None, vec![Element::leaf(XMLNS, "phase", "claims")])
    );
    assert_eq!(Check::new(None).to_element(), Element::new(XMLNS, "check", vec![], None, vec![]));
    assert_eq!(Check::kind(), ExtensionKind::LaunchCheck);
    assert!(c.do_send());
}

#[test]
fn launch_create_new_has_only_a_phase() {
    let c = Create::new(Phase::new(PhaseType::Sunrise, None));
    assert_eq!(c.phase, Phase { name: None, value: PhaseType::Sunrise });
    assert_eq!(c.encoded_signed_mark, None);
    assert_eq!(c.code_mark, None);
    assert_eq!(c.notice, None);
    assert_eq!(c.application_id, None);
    assert_eq!(Create::kind(), ExtensionKind::LaunchCreate);
}

#[test]
fn signed_mark_and_code_mark_exclude_each_other() {
    let c = Create::new(Phase::new(PhaseType::Sunrise, None)).with_code_mark("CODE");
    assert_eq!(c.code_mark, Some(CodeMark { code: "CODE" }));
    assert_eq!(c.encoded_signed_mark, None);
    let c = c.with_encoded_signed_mark("BASE64");
    assert_eq!(c.encoded_signed_mark, Some(EncodedSignedMark { value: "BASE64" }));
    assert_eq!(c.code_mark, None);
    assert_eq!(c.phase, Phase { name: None, value: PhaseType::Sunrise });
    let c = c.with_code_mark("CODE2");
    assert_eq!(c.code_mark, Some(CodeMark { code: "CODE2" }));
    assert_eq!(c.encoded_signed_mark, None);
}

#[test]
fn launch_create_is_written_in_field_order() {
    let mut c = Create::new(Phase::new(PhaseType::Claims, None)).with_encoded_signed_mark("BASE64");
    c.code_mark = Some(CodeMark { code: "CODE" });
    c.notice = Some(Notice {
        notice_id: "abc123",
        not_after: Timestamp::new(1_700_000_000, 0).unwrap(),
        accepted_date: Timestamp::new(1_600_000_000, 500_000_000).unwrap(),
    });
    c.application_id = Some("app-1");
    assert_eq!(
        c.to_element(),
        Element::new(
            XMLNS,
            "create",
            vec![],
            None,
            vec![
                Element::leaf(XMLNS, "phase", "claims"),
                Element::leaf(SMD_XMLNS, "encodedSignedMark", "BASE64"),
                Element::new(
                    XMLNS,
                    "codeMark",
                    vec![],
                    None,
                    vec![Element::leaf(XMLNS, "code", "CODE")],
                ),
                Element::new(
                    XMLNS,
                    "notice",
                    vec![],
                    None,
                    vec![
                        Element::leaf(XMLNS, "noticeID", "abc123"),
                        Element::leaf(XMLNS, "notAfter", "2023-11-14T22:13:20+00:00"),
                        Element::leaf(XMLNS, "acceptedDate", "2020-09-13T12:26:40.500+00:00"),
                    ],
                ),
                Element::leaf(XMLNS, "applicationID", "app-1"),
            ],
        )
    );
}

#[test]
fn launch_check_reply_reads_every_field() {
    let xml = r#"<launch:chkData xmlns:launch="urn:ietf:params:xml:ns:launch-1.0">
      <launch:phase name="early">custom</launch:phase>
      <launch:cd>
        <launch:name exists="0">a.example</launch:name>
      </launch:cd>
      <launch:cd>
        <launch:name exists="1">b.example</launch:name>
        <launch:claimKey>2013041500/2/6/9/rJ1Nr</launch:claimKey>
      </launch:cd>
    </launch:chkData>"#;
    let reply: CheckData = decode_document(xml).unwrap();
    assert_eq!(
        reply,
        CheckData {
            phase: Some(PhaseData { name: Some(String::from("early")), value: PhaseType::Custom }),
            list: vec![
                CheckDomainData {
                    name: CheckName { exists: Some(false), value: String::from("a.example") },
                    claim_key: None,
                },
                CheckDomainData {
                    name: CheckName { exists: Some(true), value: String::from("b.example") },
                    claim_key: Some(String::from("2013041500/2/6/9/rJ1Nr")),
                },
            ],
        }
    );
}

#[test]
fn launch_check_reply_with_an_unknown_phase_is_read() {
    let xml = r#"<chkData xmlns="urn:ietf:params:xml:ns:launch-1.0"><phase>quiet</phase></chkData>"#;
    let reply: CheckData = decode_document(xml).unwrap();
    assert_eq!(
        reply.phase,
        Some(PhaseData { name: None, value: PhaseType::Unknown(String::from("quiet")) })
    );
    let xml = r#"<chkData xmlns="urn:ietf:params:xml:ns:launch-1.0"><phase/></chkData>"#;
    let reply: CheckData = decode_document(xml).unwrap();
    assert_eq!(reply.phase, Some(PhaseData { name: None, value: PhaseType::Empty }));
}

#[test]
fn launch_check_reply_reports_errors() {
    let xml = r#"<chkData xmlns="urn:ietf:params:xml:ns:launch-1.0"><cd/></chkData>"#;
    let r: Result<CheckData, DecodeError> = decode_document(xml);
    assert_eq!(r, Err(DecodeError::MissingValue("CheckDomainData::name")));
    let xml = r#"<chkData xmlns="urn:ietf:params:xml:ns:launch-1.0"><phase/><phase/></chkData>"#;
    let r: Result<CheckData, DecodeError> = decode_document(xml);
    assert_eq!(r, Err(DecodeError::DuplicateValue("CheckData::phase")));
    let xml = r#"<chkData xmlns="urn:ietf:params:xml:ns:launch-1.0"><cd><name exists="2">x</name></cd></chkData>"#;
    let r: Result<CheckData, DecodeError> = decode_document(xml);
    assert_eq!(r, Err(DecodeError::UnexpectedValue("CheckName::exists")));
}

#[test]
fn timestamp_is_written_as_chrono_writes_it() {
    let t = Timestamp::new(0, 0).unwrap();
    assert_eq!(t.as_str(), "1970-01-01T00:00:00+00:00");
    assert_eq!(t.secs(), 0);
    assert_eq!(t.nanos(), 0);
    let t = Timestamp::new(1_431_648_000, 123_000_000).unwrap();
    assert_eq!(t.as_str(), "2015-05-15T00:00:00.123+00:00");
    assert_eq!(t.secs(), 1_431_648_000);
    assert_eq!(t.nanos(), 123_000_000);
    assert_eq!(t.clone(), t);
    assert_eq!(
        t.as_str(),
        chrono::DateTime::from_timestamp(1_431_648_000, 123_000_000).unwrap().to_rfc3339()
    );
}

#[test]
fn timestamp_out_of_range_is_refused() {
    assert!(Timestamp::new(i64::MAX, 0).is_none());
    assert!(Timestamp::new(0, 2_000_000_000).is_none());
    assert!(Timestamp::new(0, 1_500_000_000).is_none());
    assert!(Timestamp::new(59, 1_500_000_000).is_some());
}
