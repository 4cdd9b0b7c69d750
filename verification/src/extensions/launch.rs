//! The launch phase extension (RFC 8334).

use crate::element::{
    attribute_models,
    attribute_of,
    element_models,
    lemma_values_named_push,
    leaf_of,
    optional_attribute_of,
    optional_leaf_of,
    owned,
    push_child,
    push_optional_attribute,
    push_optional_leaf,
    str_model,
    text_model,
    Attribute,
    AttributeModel,
    Element,
    ElementModel,
};
use crate::error::{error_of, first_error, value_of, DecodeError};
use crate::request::{
    all_error,
    all_represent,
    child_error,
    decode_all,
    decode_optional,
    optional_represents,
    optional_wire,
    push_optional,
    required_error,
    serialize_one,
    Accompanies,
    DomainCheck,
    DomainCreate,
    Extension,
    ExtensionKind,
    NoExtension,
    Response,
    ToElement,
};
use crate::text::text_eq;
use crate::time::Timestamp;
use vstd::prelude::*;
use vstd::string::StrSliceExecFns;

verus! {

/// The namespace of the extension.
pub const XMLNS: &'static str = "urn:ietf:params:xml:ns:launch-1.0";

/// The namespace of signed marks, which an encoded signed mark carries.
pub const SMD_XMLNS: &'static str = "urn:ietf:params:xml:ns:signedMark-1.0";

/// The phase of a launch. A token that names none of the known phases is
/// kept as it came.
#[derive(Debug, PartialEq, Eq)]
pub enum PhaseType {
    Sunrise,
    Landrush,
    Claims,
    Open,
    Custom,
    /// No token at all.
    Empty,
    /// A token that is not known, kept as it came.
    Unknown(String),
}

impl PhaseType {
    /// The phase that the token `t` names, if it is a known one.
    pub open spec fn known(t: Seq<char>) -> Option<PhaseType> {
        if t == "sunrise"@ {
            Some(PhaseType::Sunrise)
        } else if t == "landrush"@ {
            Some(PhaseType::Landrush)
        } else if t == "claims"@ {
            Some(PhaseType::Claims)
        } else if t == "open"@ {
            Some(PhaseType::Open)
        } else if t == "custom"@ {
            Some(PhaseType::Custom)
        } else {
            None
        }
    }

    /// Whether the value is one of the known phases.
    pub open spec fn is_known(&self) -> bool {
        self is Sunrise || self is Landrush || self is Claims || self is Open || self is Custom
    }

    /// Whether the value is one that decoding gives: a catch-all carries a
    /// text that is not empty and names no known phase.
    pub open spec fn is_canonical(&self) -> bool {
        self matches PhaseType::Unknown(s) ==> s@.len() > 0 && Self::known(s@) is None
    }

    /// The token of the phase: none for [`PhaseType::Empty`].
    pub open spec fn token(&self) -> Option<Seq<char>> {
        match self {
            PhaseType::Sunrise => Some("sunrise"@),
            PhaseType::Landrush => Some("landrush"@),
            PhaseType::Claims => Some("claims"@),
            PhaseType::Open => Some("open"@),
            PhaseType::Custom => Some("custom"@),
            PhaseType::Empty => None,
            PhaseType::Unknown(s) => Some(s@),
        }
    }

    /// Whether `self` is what the text `text` decodes to: the empty variant
    /// for absent or empty text, the phase that a known token names, and for
    /// any other text the catch-all that carries it.
    pub open spec fn decoded_from(&self, text: Option<Seq<char>>) -> bool {
        match text {
            None => *self == PhaseType::Empty,
            Some(t) => if t.len() == 0 {
                *self == PhaseType::Empty
            } else {
                match Self::known(t) {
                    Some(k) => *self == k,
                    None => self matches PhaseType::Unknown(s) && s@ == t,
                }
            },
        }
    }

    /// Decodes a phase from its text.
    pub fn decode(text: Option<&str>) -> (r: PhaseType)
        ensures
            r.decoded_from(str_model(text)),
    {
        match text {
            None => PhaseType::Empty,
            Some(t) => {
                if t.unicode_len() == 0 {
                    PhaseType::Empty
                } else if text_eq(t, "sunrise") {
                    PhaseType::Sunrise
                } else if text_eq(t, "landrush") {
                    PhaseType::Landrush
                } else if text_eq(t, "claims") {
                    PhaseType::Claims
                } else if text_eq(t, "open") {
                    PhaseType::Open
                } else if text_eq(t, "custom") {
                    PhaseType::Custom
                } else {
                    PhaseType::Unknown(t.to_owned())
                }
            },
        }
    }

    /// The token of the phase: none for [`PhaseType::Empty`].
    pub fn as_token(&self) -> (r: Option<&str>)
        ensures
            str_model(r) == self.token(),
    {
        match self {
            PhaseType::Sunrise => Some("sunrise"),
            PhaseType::Landrush => Some("landrush"),
            PhaseType::Claims => Some("claims"),
            PhaseType::Open => Some("open"),
            PhaseType::Custom => Some("custom"),
            PhaseType::Empty => None,
            PhaseType::Unknown(s) => Some(s.as_str()),
        }
    }
}

impl Clone for PhaseType {
    fn clone(&self) -> (r: PhaseType)
        ensures
            match self {
                PhaseType::Unknown(s) => r matches PhaseType::Unknown(t) && t@ == s@,
                _ => r == *self,
            },
    {
        match self {
            PhaseType::Sunrise => PhaseType::Sunrise,
            PhaseType::Landrush => PhaseType::Landrush,
            PhaseType::Claims => PhaseType::Claims,
            PhaseType::Open => PhaseType::Open,
            PhaseType::Custom => PhaseType::Custom,
            PhaseType::Empty => PhaseType::Empty,
            PhaseType::Unknown(s) => PhaseType::Unknown(s.clone()),
        }
    }
}

/// The five tokens are not empty, and no two of them are the same text:
/// every one of them names its own phase and no other.
pub proof fn lemma_phase_tokens()
    ensures
        PhaseType::known("sunrise"@) == Some(PhaseType::Sunrise),
        PhaseType::known("landrush"@) == Some(PhaseType::Landrush),
        PhaseType::known("claims"@) == Some(PhaseType::Claims),
        PhaseType::known("open"@) == Some(PhaseType::Open),
        PhaseType::known("custom"@) == Some(PhaseType::Custom),
        "sunrise"@.len() > 0,
        "landrush"@.len() > 0,
        "claims"@.len() > 0,
        "open"@.len() > 0,
        "custom"@.len() > 0,
{
    reveal_strlit("sunrise");
    reveal_strlit("landrush");
    reveal_strlit("claims");
    reveal_strlit("open");
    reveal_strlit("custom");
    assert("sunrise"@.len() == 7);
    assert("landrush"@.len() == 8);
    assert("claims"@.len() == 6);
    assert("open"@.len() == 4);
    assert("custom"@.len() == 6);
    assert("claims"@[1] == 'l');
    assert("custom"@[1] == 'u');
}

/// The token of a known phase decodes to that phase and to no other value.
pub proof fn lemma_phase_round_trip(p: PhaseType, r: PhaseType)
    requires
        p.is_known(),
        r.decoded_from(p.token()),
    ensures
        r == p,
{
    lemma_phase_tokens();
}

/// A text that is not empty and names no known phase decodes to the
/// catch-all that carries it, and the token of that catch-all is the text
/// again.
pub proof fn lemma_phase_unknown_kept(p: PhaseType, text: Seq<char>)
    requires
        text.len() > 0,
        PhaseType::known(text) is None,
        p.decoded_from(Some(text)),
    ensures
        p is Unknown,
        p.token() == Some(text),
{
}

/// Absent text decodes to the empty variant, which is neither a known phase
/// nor a catch-all.
pub proof fn lemma_phase_absent_is_empty(p: PhaseType)
    requires
        p.decoded_from(None),
    ensures
        p == PhaseType::Empty,
        !p.is_known(),
        !(p is Unknown),
        p.token() is None,
{
}

/// A phase in a request: `<launch:phase name="…">custom</launch:phase>`.
#[derive(Debug, PartialEq, Eq)]
pub struct Phase<'a> {
    /// The name of a custom phase.
    pub name: Option<&'a str>,
    pub value: PhaseType,
}

impl<'a> Phase<'a> {
    /// The phase `value`, with the name `name` where one is given.
    pub fn new(value: PhaseType, name: Option<&'a str>) -> (r: Phase<'a>)
        ensures
            r.name == name,
            r.value == value,
    {
        Phase { name, value }
    }

    /// The custom phase called `name`.
    pub fn custom(name: &'a str) -> (r: Phase<'a>)
        ensures
            r.name == Some(name),
            r.value == PhaseType::Custom,
    {
        Phase { name: Some(name), value: PhaseType::Custom }
    }
}

impl<'a> ToElement for Phase<'a> {
    open spec fn wire(&self) -> ElementModel {
        ElementModel {
            ns: XMLNS@,
            name: "phase"@,
            attributes: optional_attribute_of("name"@, str_model(self.name)),
            text: self.value.token(),
            children: Seq::empty(),
        }
    }

    fn to_element(&self) -> (e: Element) {
        let mut attributes: Vec<Attribute> = Vec::new();
        assert(attribute_models(attributes@) =~= Seq::empty());
        push_optional_attribute(&mut attributes, "name", self.name);
        let e = Element::new(XMLNS, "phase", attributes, owned(self.value.as_token()), Vec::new());
        assert(e@.attributes =~= self.wire().attributes);
        assert(e@.children =~= self.wire().children);
        e
    }
}

/// A phase in a reply: `<launch:phase name="…">custom</launch:phase>`.
#[derive(Debug, PartialEq, Eq)]
pub struct PhaseData {
    /// The name of a custom phase.
    pub name: Option<String>,
    pub value: PhaseType,
}

impl Response for PhaseData {
    open spec fn bound_to(e: ElementModel) -> bool {
        e.ns == XMLNS@ && e.name == "phase"@
    }

    open spec fn decode_error(e: ElementModel) -> Option<DecodeError> {
        error_of(e.optional_attribute("name"@, "PhaseData::name"))
    }

    open spec fn represents(&self, e: ElementModel) -> bool {
        &&& text_model(self.name) == value_of(e.optional_attribute("name"@, "PhaseData::name"))
        &&& self.value.decoded_from(e.text)
    }

    fn matches(e: &Element) -> (r: bool) {
        e.is_named(XMLNS, "phase")
    }

    fn from_element(e: &Element) -> (r: Result<Self, DecodeError>) {
        let name = owned(e.optional_attribute("name", "PhaseData::name")?);
        let text: Option<&str> = match &e.text {
            Some(t) => Some(t.as_str()),
            None => None,
        };
        let value = PhaseType::decode(text);
        Ok(PhaseData { name, value })
    }
}

/// A phase that was written reads back as itself: the element of a phase
/// with a canonical value decodes without error to a reply of the same name
/// and value.
pub proof fn lemma_phase_read_back(p: Phase<'_>, d: PhaseData)
    requires
        p.value.is_canonical(),
        text_model(d.name) == str_model(p.name),
        d.value == p.value,
    ensures
        PhaseData::bound_to(p.wire()),
        PhaseData::decode_error(p.wire()) is None,
        d.represents(p.wire()),
{
    lemma_phase_tokens();
    let e = p.wire();
    let none = Seq::<AttributeModel>::empty();
    match p.name {
        Some(n) => {
            let a = attribute_of("name"@, n@);
            assert(e.attributes =~= none.push(a));
            lemma_values_named_push(none, a, "name"@);
        },
        None => {
            assert(e.attributes =~= none);
        },
    }
}

/// The launch extension of a check: `<launch:check>…</launch:check>`.
#[derive(Debug, PartialEq, Eq)]
pub struct Check<'a> {
    /// The phase to check against.
    pub phase: Option<Phase<'a>>,
}

impl<'a> Check<'a> {
    /// The check against `phase`, where one is given.
    pub fn new(phase: Option<Phase<'a>>) -> (r: Check<'a>)
        ensures
            r.phase == phase,
    {
        Check { phase }
    }
}

impl<'a> ToElement for Check<'a> {
    open spec fn wire(&self) -> ElementModel {
        ElementModel {
            ns: XMLNS@,
            name: "check"@,
            attributes: Seq::empty(),
            text: None,
            children: optional_wire(&self.phase),
        }
    }

    fn to_element(&self) -> (e: Element) {
        let mut children: Vec<Element> = Vec::new();
        assert(element_models(children@) =~= Seq::empty());
        push_optional(&mut children, &self.phase);
        let e = Element::new(XMLNS, "check", Vec::new(), None, children);
        assert(e@.attributes =~= self.wire().attributes);
        assert(e@.children =~= self.wire().children);
        e
    }
}

impl<'a> Extension for Check<'a> {
    type Response = CheckData;

    open spec fn spec_kind() -> ExtensionKind {
        ExtensionKind::LaunchCheck
    }

    open spec fn spec_namespace() -> Option<Seq<char>> {
        Some(XMLNS@)
    }

    open spec fn spec_do_send(&self) -> bool {
        true
    }

    open spec fn elements(&self) -> Seq<ElementModel> {
        seq![self.wire()]
    }

    fn kind() -> (k: ExtensionKind) {
        ExtensionKind::LaunchCheck
    }

    fn namespace() -> (ns: Option<&'static str>) {
        Some(XMLNS)
    }

    fn do_send(&self) -> (b: bool) {
        true
    }

    fn serialize(&self, out: &mut Vec<Element>) {
        serialize_one(self, out);
    }
}

/// A signed mark in its encoded form:
/// `<smd:encodedSignedMark>…</smd:encodedSignedMark>`.
#[derive(Clone, Copy, Debug, PartialEq, Eq)]
pub struct EncodedSignedMark<'a> {
    pub value: &'a str,
}

impl<'a> ToElement for EncodedSignedMark<'a> {
    open spec fn wire(&self) -> ElementModel {
        leaf_of(SMD_XMLNS@, "encodedSignedMark"@, self.value@)
    }

    fn to_element(&self) -> (e: Element) {
        Element::leaf(SMD_XMLNS, "encodedSignedMark", self.value)
    }
}

/// A mark given by its code: `<launch:codeMark>…</launch:codeMark>`.
#[derive(Clone, Copy, Debug, PartialEq, Eq)]
pub struct CodeMark<'a> {
    pub code: &'a str,
}

impl<'a> ToElement for CodeMark<'a> {
    open spec fn wire(&self) -> ElementModel {
        ElementModel {
            ns: XMLNS@,
            name: "codeMark"@,
            attributes: Seq::empty(),
            text: None,
            children: seq![leaf_of(XMLNS@, "code"@, self.code@)],
        }
    }

    fn to_element(&self) -> (e: Element) {
        let mut children: Vec<Element> = Vec::new();
        assert(element_models(children@) =~= Seq::empty());
        push_child(&mut children, Element::leaf(XMLNS, "code", self.code));
        let e = Element::new(XMLNS, "codeMark", Vec::new(), None, children);
        assert(e@.attributes =~= self.wire().attributes);
        assert(e@.children =~= self.wire().children);
        e
    }
}

/// The acceptance of a claims notice: `<launch:notice>…</launch:notice>`.
#[derive(Debug, PartialEq, Eq)]
pub struct Notice<'a> {
    pub notice_id: &'a str,
    pub not_after: Timestamp,
    pub accepted_date: Timestamp,
}

impl<'a> ToElement for Notice<'a> {
    open spec fn wire(&self) -> ElementModel {
        ElementModel {
            ns: XMLNS@,
            name: "notice"@,
            attributes: Seq::empty(),
            text: None,
            children: seq![
                leaf_of(XMLNS@, "noticeID"@, self.notice_id@),
                leaf_of(XMLNS@, "notAfter"@, self.not_after@),
                leaf_of(XMLNS@, "acceptedDate"@, self.accepted_date@),
            ],
        }
    }

    fn to_element(&self) -> (e: Element) {
        let mut children: Vec<Element> = Vec::new();
        assert(element_models(children@) =~= Seq::empty());
        push_child(&mut children, Element::leaf(XMLNS, "noticeID", self.notice_id));
        push_child(&mut children, Element::leaf(XMLNS, "notAfter", self.not_after.as_str()));
        push_child(
            &mut children,
            Element::leaf(XMLNS, "acceptedDate", self.accepted_date.as_str()),
        );
        let e = Element::new(XMLNS, "notice", Vec::new(), None, children);
        assert(e@.attributes =~= self.wire().attributes);
        assert(e@.children =~= self.wire().children);
        e
    }
}

/// The launch extension of a create: `<launch:create>…</launch:create>`.
#[derive(Debug, PartialEq, Eq)]
pub struct Create<'a> {
    pub phase: Phase<'a>,
    /// The signed mark that a sunrise registration rests on.
    pub encoded_signed_mark: Option<EncodedSignedMark<'a>>,
    /// The mark, where the registry takes it by its code.
    pub code_mark: Option<CodeMark<'a>>,
    /// The claims notice that was accepted.
    pub notice: Option<Notice<'a>>,
    pub application_id: Option<&'a str>,
}

impl<'a> Create<'a> {
    /// The create in the phase `phase`, with nothing else.
    pub fn new(phase: Phase<'a>) -> (r: Create<'a>)
        ensures
            r.phase == phase,
            r.encoded_signed_mark is None,
            r.code_mark is None,
            r.notice is None,
            r.application_id is None,
    {
        Create {
            phase,
            encoded_signed_mark: None,
            code_mark: None,
            notice: None,
            application_id: None,
        }
    }

    /// The same create with the signed mark `smd_b64`; a code mark is taken
    /// out, so that only one of the two is sent.
    pub fn with_encoded_signed_mark(self, smd_b64: &'a str) -> (r: Create<'a>)
        ensures
            r.encoded_signed_mark == Some(EncodedSignedMark { value: smd_b64 }),
            r.code_mark is None,
            r.phase == self.phase,
            r.notice == self.notice,
            r.application_id == self.application_id,
    {
        let mut r = self;
        r.encoded_signed_mark = Some(EncodedSignedMark { value: smd_b64 });
        r.code_mark = None;
        r
    }

    /// The same create with the code mark `smd_b64`; a signed mark is taken
    /// out, so that only one of the two is sent.
    pub fn with_code_mark(self, smd_b64: &'a str) -> (r: Create<'a>)
        ensures
            r.code_mark == Some(CodeMark { code: smd_b64 }),
            r.encoded_signed_mark is None,
            r.phase == self.phase,
            r.notice == self.notice,
            r.application_id == self.application_id,
    {
        let mut r = self;
        r.code_mark = Some(CodeMark { code: smd_b64 });
        r.encoded_signed_mark = None;
        r
    }
}

impl<'a> ToElement for Create<'a> {
    open spec fn wire(&self) -> ElementModel {
        ElementModel {
            ns: XMLNS@,
            name: "create"@,
            attributes: Seq::empty(),
            text: None,
            children: seq![self.phase.wire()] + optional_wire(&self.encoded_signed_mark)
                + optional_wire(&self.code_mark) + optional_wire(&self.notice) + optional_leaf_of(
                XMLNS@,
                "applicationID"@,
                str_model(self.application_id),
            ),
        }
    }

    fn to_element(&self) -> (e: Element) {
        let mut children: Vec<Element> = Vec::new();
        assert(element_models(children@) =~= Seq::empty());
        push_child(&mut children, self.phase.to_element());
        push_optional(&mut children, &self.encoded_signed_mark);
        push_optional(&mut children, &self.code_mark);
        push_optional(&mut children, &self.notice);
        push_optional_leaf(&mut children, XMLNS, "applicationID", self.application_id);
        let e = Element::new(XMLNS, "create", Vec::new(), None, children);
        assert(e@.attributes =~= self.wire().attributes);
        assert(e@.children =~= self.wire().children);
        e
    }
}

impl<'a> Extension for Create<'a> {
    type Response = NoExtension;

    open spec fn spec_kind() -> ExtensionKind {
        ExtensionKind::LaunchCreate
    }

    open spec fn spec_namespace() -> Option<Seq<char>> {
        Some(XMLNS@)
    }

    open spec fn spec_do_send(&self) -> bool {
        true
    }

    open spec fn elements(&self) -> Seq<ElementModel> {
        seq![self.wire()]
    }

    fn kind() -> (k: ExtensionKind) {
        ExtensionKind::LaunchCreate
    }

    fn namespace() -> (ns: Option<&'static str>) {
        Some(XMLNS)
    }

    fn do_send(&self) -> (b: bool) {
        true
    }

    fn serialize(&self, out: &mut Vec<Element>) {
        serialize_one(self, out);
    }
}

/// The name that a check was made of:
/// `<launch:name exists="1">example.com</launch:name>`.
#[derive(Clone, Debug, PartialEq, Eq)]
pub struct CheckName {
    /// Whether a mark exists that matches the name.
    pub exists: Option<bool>,
    pub value: String,
}

impl Response for CheckName {
    open spec fn bound_to(e: ElementModel) -> bool {
        e.ns == XMLNS@ && e.name == "name"@
    }

    open spec fn decode_error(e: ElementModel) -> Option<DecodeError> {
        error_of(e.optional_bool_attribute("exists"@, "CheckName::exists"))
    }

    open spec fn represents(&self, e: ElementModel) -> bool {
        &&& self.exists == value_of(e.optional_bool_attribute("exists"@, "CheckName::exists"))
        &&& self.value@ == e.direct_text()
    }

    fn matches(e: &Element) -> (r: bool) {
        e.is_named(XMLNS, "name")
    }

    fn from_element(e: &Element) -> (r: Result<Self, DecodeError>) {
        let exists = e.optional_bool_attribute("exists", "CheckName::exists")?;
        let value = e.direct_text().to_owned();
        Ok(CheckName { exists, value })
    }
}

/// The result of the check of one name: `<launch:cd>…</launch:cd>`.
#[derive(Debug, PartialEq, Eq)]
pub struct CheckDomainData {
    pub name: CheckName,
    /// The key under which the claims notice is found.
    pub claim_key: Option<String>,
}

impl Response for CheckDomainData {
    open spec fn bound_to(e: ElementModel) -> bool {
        e.ns == XMLNS@ && e.name == "cd"@
    }

    open spec fn decode_error(e: ElementModel) -> Option<DecodeError> {
        first_error(
            required_error::<CheckName>(e.required_child(XMLNS@, "name"@, "CheckDomainData::name")),
            error_of(e.optional_child_text(XMLNS@, "claimKey"@, "CheckDomainData::claim_key")),
        )
    }

    open spec fn represents(&self, e: ElementModel) -> bool {
        &&& self.name.represents(
            value_of(e.required_child(XMLNS@, "name"@, "CheckDomainData::name")),
        )
        &&& text_model(self.claim_key) == value_of(
            e.optional_child_text(XMLNS@, "claimKey"@, "CheckDomainData::claim_key"),
        )
    }

    fn matches(e: &Element) -> (r: bool) {
        e.is_named(XMLNS, "cd")
    }

    fn from_element(e: &Element) -> (r: Result<Self, DecodeError>) {
        let name = CheckName::from_element(
            e.required_child(XMLNS, "name", "CheckDomainData::name")?,
        )?;
        let claim_key = owned(
            e.optional_child_text(XMLNS, "claimKey", "CheckDomainData::claim_key")?,
        );
        Ok(CheckDomainData { name, claim_key })
    }
}

/// The reply to the launch extension of a check:
/// `<launch:chkData>…</launch:chkData>`.
#[derive(Debug, PartialEq, Eq)]
pub struct CheckData {
    pub phase: Option<PhaseData>,
    pub list: Vec<CheckDomainData>,
}

impl Response for CheckData {
    open spec fn bound_to(e: ElementModel) -> bool {
        e.ns == XMLNS@ && e.name == "chkData"@
    }

    open spec fn decode_error(e: ElementModel) -> Option<DecodeError> {
        first_error(
            child_error::<PhaseData>(e.optional_child(XMLNS@, "phase"@, "CheckData::phase")),
            all_error::<CheckDomainData>(e.children_named(XMLNS@, "cd"@)),
        )
    }

    open spec fn represents(&self, e: ElementModel) -> bool {
        &&& optional_represents(
            &self.phase,
            value_of(e.optional_child(XMLNS@, "phase"@, "CheckData::phase")),
        )
        &&& all_represent(self.list@, e.children_named(XMLNS@, "cd"@))
    }

    fn matches(e: &Element) -> (r: bool) {
        e.is_named(XMLNS, "chkData")
    }

    fn from_element(e: &Element) -> (r: Result<Self, DecodeError>) {
        let phase = decode_optional::<PhaseData>(
            e.optional_child(XMLNS, "phase", "CheckData::phase")?,
        )?;
        let list = decode_all::<CheckDomainData>(&e.children_named(XMLNS, "cd"))?;
        Ok(CheckData { phase, list })
    }
}

/// The launch extension of a check may accompany the check of a domain.
impl<'a> Accompanies<DomainCheck> for Check<'a> {
    proof fn declared() {
    }
}

/// The launch extension of a create may accompany the creation of a domain.
impl<'a> Accompanies<DomainCreate> for Create<'a> {
    proof fn declared() {
    }
}

} // verus!
