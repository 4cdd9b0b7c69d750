//! The charge extension: premium charges disclosed by a check, and the
//! agreement to one in a create or a renew.

use crate::amount::Amount;
use crate::element::{
    attribute_models,
    attribute_of,
    element_models,
    leaf_of,
    optional_attribute_of,
    owned,
    push_attribute,
    push_child,
    push_optional_attribute,
    str_model,
    text_model,
    Attribute,
    Element,
    ElementModel,
    Id,
};
use crate::error::{error_of, first_error, value_of, DecodeError, ReadError};
use crate::request::{
    all_error,
    all_represent,
    decode_all,
    required_error,
    serialize_one,
    Accompanies,
    DomainCheck,
    DomainCreate,
    DomainRenew,
    Extension,
    ExtensionKind,
    NoExtension,
    Response,
    ToElement,
};
use crate::text::text_eq;
use crate::xml::{next_text, take_text};
use vstd::prelude::*;
use vstd::string::StrSliceExecFns;

verus! {

/// The namespace of the extension.
pub const XMLNS: &'static str = "http://www.unitedtld.com/epp/charge-1.0";

/// Asks that the reply to a check disclose the charges. It is attached to the
/// command but never written.
#[derive(Clone, Copy, Debug, PartialEq, Eq)]
pub struct ChargeExtension;

impl ToElement for ChargeExtension {
    open spec fn wire(&self) -> ElementModel {
        ElementModel {
            ns: Seq::empty(),
            name: "ChargeExtension"@,
            attributes: Seq::empty(),
            text: None,
            children: Seq::empty(),
        }
    }

    fn to_element(&self) -> (e: Element) {
        proof {
            reveal_strlit("");
        }
        assert(""@ =~= Seq::<char>::empty());
        let e = Element::new("", "ChargeExtension", Vec::new(), None, Vec::new());
        assert(e@.attributes =~= self.wire().attributes);
        assert(e@.children =~= self.wire().children);
        e
    }
}

impl Extension for ChargeExtension {
    type Response = CheckData;

    open spec fn spec_kind() -> ExtensionKind {
        ExtensionKind::Charge
    }

    open spec fn spec_namespace() -> Option<Seq<char>> {
        Some(XMLNS@)
    }

    open spec fn spec_do_send(&self) -> bool {
        false
    }

    open spec fn elements(&self) -> Seq<ElementModel> {
        seq![self.wire()]
    }

    fn kind() -> (k: ExtensionKind) {
        ExtensionKind::Charge
    }

    fn namespace() -> (ns: Option<&'static str>) {
        Some(XMLNS)
    }

    fn do_send(&self) -> (b: bool) {
        false
    }

    fn serialize(&self, out: &mut Vec<Element>) {
        serialize_one(self, out);
    }
}

/// The command that a charge applies to. A token that names none of the
/// known commands is kept as it came.
#[derive(Debug, PartialEq, Eq)]
pub enum ChargeCommand {
    Create,
    Renew,
    Transfer,
    Update,
    /// No token at all.
    Empty,
    /// A token that is not known, kept as it came.
    Unknown(String),
}

impl ChargeCommand {
    /// The command that the token `t` names, if it is a known one.
    pub open spec fn known(t: Seq<char>) -> Option<ChargeCommand> {
        if t == "create"@ {
            Some(ChargeCommand::Create)
        } else if t == "renew"@ {
            Some(ChargeCommand::Renew)
        } else if t == "transfer"@ {
            Some(ChargeCommand::Transfer)
        } else if t == "update"@ {
            Some(ChargeCommand::Update)
        } else {
            None
        }
    }

    /// Whether the value is one of the known commands.
    pub open spec fn is_known(&self) -> bool {
        self is Create || self is Renew || self is Transfer || self is Update
    }

    /// The token of the command: none for [`ChargeCommand::Empty`].
    pub open spec fn token(&self) -> Option<Seq<char>> {
        match self {
            ChargeCommand::Create => Some("create"@),
            ChargeCommand::Renew => Some("renew"@),
            ChargeCommand::Transfer => Some("transfer"@),
            ChargeCommand::Update => Some("update"@),
            ChargeCommand::Empty => None,
            ChargeCommand::Unknown(s) => Some(s@),
        }
    }

    /// Whether `self` is what the text `text` decodes to: the empty variant
    /// for absent or empty text, the command that a known token names, and
    /// for any other text the catch-all that carries it.
    pub open spec fn decoded_from(&self, text: Option<Seq<char>>) -> bool {
        match text {
            None => *self == ChargeCommand::Empty,
            Some(t) => if t.len() == 0 {
                *self == ChargeCommand::Empty
            } else {
                match Self::known(t) {
                    Some(k) => *self == k,
                    None => self matches ChargeCommand::Unknown(s) && s@ == t,
                }
            },
        }
    }

    /// Decodes a command from its text.
    pub fn decode(text: Option<&str>) -> (r: ChargeCommand)
        ensures
            r.decoded_from(str_model(text)),
    {
        match text {
            None => ChargeCommand::Empty,
            Some(t) => {
                if t.unicode_len() == 0 {
                    ChargeCommand::Empty
                } else if text_eq(t, "create") {
                    ChargeCommand::Create
                } else if text_eq(t, "renew") {
                    ChargeCommand::Renew
                } else if text_eq(t, "transfer") {
                    ChargeCommand::Transfer
                } else if text_eq(t, "update") {
                    ChargeCommand::Update
                } else {
                    ChargeCommand::Unknown(t.to_owned())
                }
            },
        }
    }

    /// The token of the command: none for [`ChargeCommand::Empty`].
    pub fn as_token(&self) -> (r: Option<&str>)
        ensures
            str_model(r) == self.token(),
    {
        match self {
            ChargeCommand::Create => Some("create"),
            ChargeCommand::Renew => Some("renew"),
            ChargeCommand::Transfer => Some("transfer"),
            ChargeCommand::Update => Some("update"),
            ChargeCommand::Empty => None,
            ChargeCommand::Unknown(s) => Some(s.as_str()),
        }
    }

    /// Whether the node `id` is the one that the field `field` is bound to.
    /// A command is a scalar: it has no identity of its own.
    pub fn matches(id: Id<'_>, field: Option<Id<'_>>) -> (r: bool)
        ensures
            r == (field matches Some(f) && id.ns@ == f.ns@ && id.name@ == f.name@),
    {
        match field {
            Some(f) => text_eq(id.ns, f.ns) && text_eq(id.name, f.name),
            None => false,
        }
    }

    /// Decodes one occurrence of the field `field` into the slot `into`,
    /// from the text that `deserializer` gives next. A slot that is already
    /// filled is left as it is, and the occurrence is reported as a
    /// duplicate without anything being read. Where the reader gives an
    /// error, the slot stays empty and the error is handed on as it came.
    pub fn deserialize(
        into: &mut Option<ChargeCommand>,
        field: &'static str,
        deserializer: &mut instant_xml::Deserializer<'_, '_>,
    ) -> (r: Result<(), ReadError>)
        ensures
            match r {
                Ok(_) => {
                    &&& *old(into) is None
                    &&& next_text(*old(deserializer)) matches Ok(text)
                    &&& *final(into) matches Some(v)
                    &&& v.decoded_from(text)
                },
                Err(e) => {
                    &&& *final(into) == *old(into)
                    &&& if *old(into) is Some {
                        &&& e == ReadError::DuplicateValue(field)
                        &&& *final(deserializer) == *old(deserializer)
                    } else {
                        &&& next_text(*old(deserializer)) matches Err(x)
                        &&& e == ReadError::Reader(x)
                    }
                },
            },
    {
        if into.is_some() {
            return Err(ReadError::DuplicateValue(field));
        }
        match take_text(deserializer) {
            Ok(Some(text)) => {
                *into = Some(ChargeCommand::decode(Some(text.as_str())));
                Ok(())
            },
            Ok(None) => {
                *into = Some(ChargeCommand::decode(None));
                Ok(())
            },
            Err(e) => Err(ReadError::Reader(e)),
        }
    }

    /// Decodes one occurrence of the field `field`, whose text is `text`,
    /// into the slot `into`. A slot that is already filled is left as it is,
    /// and the occurrence is reported as a duplicate.
    pub fn fill(
        into: &mut Option<ChargeCommand>,
        field: &'static str,
        text: Option<&str>,
    ) -> (r: Result<(), DecodeError>)
        ensures
            match r {
                Ok(_) => {
                    &&& *old(into) is None
                    &&& *final(into) matches Some(v)
                    &&& v.decoded_from(str_model(text))
                },
                Err(e) => {
                    &&& *old(into) is Some
                    &&& *final(into) == *old(into)
                    &&& e == DecodeError::DuplicateValue(field)
                },
            },
    {
        if into.is_some() {
            return Err(DecodeError::DuplicateValue(field));
        }
        *into = Some(ChargeCommand::decode(text));
        Ok(())
    }
}

impl Clone for ChargeCommand {
    fn clone(&self) -> (r: ChargeCommand)
        ensures
            match self {
                ChargeCommand::Unknown(s) => r matches ChargeCommand::Unknown(t) && t@ == s@,
                _ => r == *self,
            },
    {
        match self {
            ChargeCommand::Create => ChargeCommand::Create,
            ChargeCommand::Renew => ChargeCommand::Renew,
            ChargeCommand::Transfer => ChargeCommand::Transfer,
            ChargeCommand::Update => ChargeCommand::Update,
            ChargeCommand::Empty => ChargeCommand::Empty,
            ChargeCommand::Unknown(s) => ChargeCommand::Unknown(s.clone()),
        }
    }
}

/// The token of a known command decodes to that command and to no other
/// value.
pub proof fn lemma_command_round_trip(c: ChargeCommand, r: ChargeCommand)
    requires
        c.is_known(),
        r.decoded_from(c.token()),
    ensures
        r == c,
{
    reveal_strlit("create");
    reveal_strlit("renew");
    reveal_strlit("transfer");
    reveal_strlit("update");
    assert("create"@.len() == 6);
    assert("renew"@.len() == 5);
    assert("transfer"@.len() == 8);
    assert("update"@[0] == 'u');
    assert("create"@[0] == 'c');
}

/// A text that is not empty and names no known command decodes to the
/// catch-all that carries it, and the token of that catch-all is the text
/// again.
pub proof fn lemma_command_unknown_kept(c: ChargeCommand, text: Seq<char>)
    requires
        text.len() > 0,
        ChargeCommand::known(text) is None,
        c.decoded_from(Some(text)),
    ensures
        c is Unknown,
        c.token() == Some(text),
{
}

/// Absent text decodes to the empty variant, which is neither a known
/// command nor a catch-all.
pub proof fn lemma_command_absent_is_empty(c: ChargeCommand)
    requires
        c.decoded_from(None),
    ensures
        c == ChargeCommand::Empty,
        !c.is_known(),
        !(c is Unknown),
        c.token() is None,
{
}

/// The category of a charge: `<charge:category name="AAAA">premium</charge:category>`.
#[derive(Clone, Debug, PartialEq, Eq)]
pub struct ChargeCategory {
    pub name: String,
    pub value: String,
}

impl Response for ChargeCategory {
    open spec fn bound_to(e: ElementModel) -> bool {
        e.ns == XMLNS@ && e.name == "category"@
    }

    open spec fn decode_error(e: ElementModel) -> Option<DecodeError> {
        error_of(e.required_attribute("name"@, "ChargeCategory::name"))
    }

    open spec fn represents(&self, e: ElementModel) -> bool {
        &&& self.name@ == value_of(e.required_attribute("name"@, "ChargeCategory::name"))
        &&& self.value@ == e.direct_text()
    }

    fn matches(e: &Element) -> (r: bool) {
        e.is_named(XMLNS, "category")
    }

    fn from_element(e: &Element) -> (r: Result<Self, DecodeError>) {
        let name = e.required_attribute("name", "ChargeCategory::name")?.to_owned();
        let value = e.direct_text().to_owned();
        Ok(ChargeCategory { name, value })
    }
}

/// The amount charged for one command:
/// `<charge:amount command="create">99.00</charge:amount>`.
#[derive(Clone, Debug, PartialEq, Eq)]
pub struct ChargeAmount {
    pub command: ChargeCommand,
    /// A further name, such as `restore` beside the command `update`.
    pub name: Option<String>,
    pub amount: Amount,
}

impl Response for ChargeAmount {
    open spec fn bound_to(e: ElementModel) -> bool {
        e.ns == XMLNS@ && e.name == "amount"@
    }

    open spec fn decode_error(e: ElementModel) -> Option<DecodeError> {
        first_error(
            error_of(e.required_attribute("command"@, "ChargeAmount::command")),
            first_error(
                error_of(e.optional_attribute("name"@, "ChargeAmount::name")),
                error_of(e.direct_amount("ChargeAmount::amount")),
            ),
        )
    }

    open spec fn represents(&self, e: ElementModel) -> bool {
        &&& self.command.decoded_from(
            Some(value_of(e.required_attribute("command"@, "ChargeAmount::command"))),
        )
        &&& text_model(self.name) == value_of(e.optional_attribute("name"@, "ChargeAmount::name"))
        &&& self.amount@ == value_of(e.direct_amount("ChargeAmount::amount"))
    }

    fn matches(e: &Element) -> (r: bool) {
        e.is_named(XMLNS, "amount")
    }

    fn from_element(e: &Element) -> (r: Result<Self, DecodeError>) {
        let command = ChargeCommand::decode(
            Some(e.required_attribute("command", "ChargeAmount::command")?),
        );
        let name = owned(e.optional_attribute("name", "ChargeAmount::name")?);
        let amount = e.direct_amount("ChargeAmount::amount")?;
        Ok(ChargeAmount { command, name, amount })
    }
}

/// The charges of one category: `<charge:set>…</charge:set>`.
#[derive(Clone, Debug, PartialEq, Eq)]
pub struct ChargeSet {
    pub category: ChargeCategory,
    /// The type of the charge, such as `price`.
    pub charge_type: String,
    pub amounts: Vec<ChargeAmount>,
}

impl Response for ChargeSet {
    open spec fn bound_to(e: ElementModel) -> bool {
        e.ns == XMLNS@ && e.name == "set"@
    }

    open spec fn decode_error(e: ElementModel) -> Option<DecodeError> {
        first_error(
            required_error::<ChargeCategory>(
                e.required_child(XMLNS@, "category"@, "ChargeSet::category"),
            ),
            first_error(
                error_of(e.required_child_text(XMLNS@, "type"@, "ChargeSet::charge_type")),
                all_error::<ChargeAmount>(e.children_named(XMLNS@, "amount"@)),
            ),
        )
    }

    open spec fn represents(&self, e: ElementModel) -> bool {
        &&& self.category.represents(
            value_of(e.required_child(XMLNS@, "category"@, "ChargeSet::category")),
        )
        &&& self.charge_type@ == value_of(
            e.required_child_text(XMLNS@, "type"@, "ChargeSet::charge_type"),
        )
        &&& all_represent(self.amounts@, e.children_named(XMLNS@, "amount"@))
    }

    fn matches(e: &Element) -> (r: bool) {
        e.is_named(XMLNS, "set")
    }

    fn from_element(e: &Element) -> (r: Result<Self, DecodeError>) {
        let category = ChargeCategory::from_element(
            e.required_child(XMLNS, "category", "ChargeSet::category")?,
        )?;
        let charge_type = e.required_child_text(
            XMLNS,
            "type",
            "ChargeSet::charge_type",
        )?.to_owned();
        let amounts = decode_all::<ChargeAmount>(&e.children_named(XMLNS, "amount"))?;
        Ok(ChargeSet { category, charge_type, amounts })
    }
}

/// The charges of one name: `<charge:cd>…</charge:cd>`.
#[derive(Clone, Debug, PartialEq, Eq)]
pub struct ChargeCd {
    pub name: String,
    pub set: ChargeSet,
}

impl Response for ChargeCd {
    open spec fn bound_to(e: ElementModel) -> bool {
        e.ns == XMLNS@ && e.name == "cd"@
    }

    open spec fn decode_error(e: ElementModel) -> Option<DecodeError> {
        first_error(
            error_of(e.required_child_text(XMLNS@, "name"@, "ChargeCd::name")),
            required_error::<ChargeSet>(e.required_child(XMLNS@, "set"@, "ChargeCd::set")),
        )
    }

    open spec fn represents(&self, e: ElementModel) -> bool {
        &&& self.name@ == value_of(e.required_child_text(XMLNS@, "name"@, "ChargeCd::name"))
        &&& self.set.represents(value_of(e.required_child(XMLNS@, "set"@, "ChargeCd::set")))
    }

    fn matches(e: &Element) -> (r: bool) {
        e.is_named(XMLNS, "cd")
    }

    fn from_element(e: &Element) -> (r: Result<Self, DecodeError>) {
        let name = e.required_child_text(XMLNS, "name", "ChargeCd::name")?.to_owned();
        let set = ChargeSet::from_element(e.required_child(XMLNS, "set", "ChargeCd::set")?)?;
        Ok(ChargeCd { name, set })
    }
}

/// The charges disclosed by the reply to a check:
/// `<charge:chkData>…</charge:chkData>`.
#[derive(Debug, PartialEq, Eq)]
pub struct CheckData {
    pub list: Vec<ChargeCd>,
}

impl Response for CheckData {
    open spec fn bound_to(e: ElementModel) -> bool {
        e.ns == XMLNS@ && e.name == "chkData"@
    }

    open spec fn decode_error(e: ElementModel) -> Option<DecodeError> {
        all_error::<ChargeCd>(e.children_named(XMLNS@, "cd"@))
    }

    open spec fn represents(&self, e: ElementModel) -> bool {
        all_represent(self.list@, e.children_named(XMLNS@, "cd"@))
    }

    fn matches(e: &Element) -> (r: bool) {
        e.is_named(XMLNS, "chkData")
    }

    fn from_element(e: &Element) -> (r: Result<Self, DecodeError>) {
        let list = decode_all::<ChargeCd>(&e.children_named(XMLNS, "cd"))?;
        Ok(CheckData { list })
    }
}

/// The category of the charge agreed to:
/// `<charge:category name="AAAA">premium</charge:category>`.
#[derive(Debug, PartialEq, Eq)]
pub struct AgreementCategory {
    /// The code of the category, as the check disclosed it.
    pub name: Option<String>,
    /// `premium` or `standard`.
    pub value: String,
}

impl ToElement for AgreementCategory {
    open spec fn wire(&self) -> ElementModel {
        ElementModel {
            ns: XMLNS@,
            name: "category"@,
            attributes: optional_attribute_of("name"@, text_model(self.name)),
            text: Some(self.value@),
            children: Seq::empty(),
        }
    }

    fn to_element(&self) -> (e: Element) {
        let mut attributes: Vec<Attribute> = Vec::new();
        assert(attribute_models(attributes@) =~= Seq::empty());
        let name: Option<&str> = match &self.name {
            Some(n) => Some(n.as_str()),
            None => None,
        };
        push_optional_attribute(&mut attributes, "name", name);
        let e = Element::new(XMLNS, "category", attributes, Some(self.value.clone()), Vec::new());
        assert(e@.attributes =~= self.wire().attributes);
        assert(e@.children =~= self.wire().children);
        e
    }
}

/// The amount agreed to: `<charge:amount command="create">99.00</charge:amount>`.
#[derive(Debug, PartialEq, Eq)]
pub struct AgreementAmount {
    /// `create`, `renew`, …
    pub command: &'static str,
    pub amount: Amount,
}

impl ToElement for AgreementAmount {
    open spec fn wire(&self) -> ElementModel {
        ElementModel {
            ns: XMLNS@,
            name: "amount"@,
            attributes: seq![attribute_of("command"@, self.command@)],
            text: Some(self.amount@),
            children: Seq::empty(),
        }
    }

    fn to_element(&self) -> (e: Element) {
        let mut attributes: Vec<Attribute> = Vec::new();
        assert(attribute_models(attributes@) =~= Seq::empty());
        push_attribute(&mut attributes, "command", self.command);
        let e = Element::new(
            XMLNS,
            "amount",
            attributes,
            Some(self.amount.as_str().to_owned()),
            Vec::new(),
        );
        assert(e@.attributes =~= self.wire().attributes);
        assert(e@.children =~= self.wire().children);
        e
    }
}

/// The charge agreed to: `<charge:set>…</charge:set>`.
#[derive(Debug, PartialEq, Eq)]
pub struct AgreementSet {
    pub category: AgreementCategory,
    /// The type of the charge, such as `price`.
    pub charge_type: String,
    pub amount: AgreementAmount,
}

impl ToElement for AgreementSet {
    open spec fn wire(&self) -> ElementModel {
        ElementModel {
            ns: XMLNS@,
            name: "set"@,
            attributes: Seq::empty(),
            text: None,
            children: seq![
                self.category.wire(),
                leaf_of(XMLNS@, "type"@, self.charge_type@),
                self.amount.wire(),
            ],
        }
    }

    fn to_element(&self) -> (e: Element) {
        let mut children: Vec<Element> = Vec::new();
        assert(element_models(children@) =~= Seq::empty());
        push_child(&mut children, self.category.to_element());
        push_child(&mut children, Element::leaf(XMLNS, "type", self.charge_type.as_str()));
        push_child(&mut children, self.amount.to_element());
        let e = Element::new(XMLNS, "set", Vec::new(), None, children);
        assert(e@.attributes =~= self.wire().attributes);
        assert(e@.children =~= self.wire().children);
        e
    }
}

/// The agreement to a charge, sent with a create or a renew:
/// `<charge:agreement>…</charge:agreement>`.
#[derive(Debug, PartialEq, Eq)]
pub struct Agreement {
    pub set: AgreementSet,
}

impl Agreement {
    /// Whether `self` is the agreement of the command `command` to the
    /// charge described by the other arguments.
    pub open spec fn agrees(
        &self,
        command: Seq<char>,
        category_name: Option<String>,
        category_value: String,
        charge_type: String,
        amount: Amount,
    ) -> bool {
        &&& self.set.category.name == category_name
        &&& self.set.category.value == category_value
        &&& self.set.charge_type == charge_type
        &&& self.set.amount.command@ == command
        &&& self.set.amount.amount == amount
    }

    fn new_with_command(
        command: &'static str,
        category_name: Option<String>,
        category_value: String,
        charge_type: String,
        amount: Amount,
    ) -> (r: Agreement)
        ensures
            r.agrees(command@, category_name, category_value, charge_type, amount),
    {
        Agreement {
            set: AgreementSet {
                category: AgreementCategory { name: category_name, value: category_value },
                charge_type,
                amount: AgreementAmount { command, amount },
            },
        }
    }

    /// The agreement of a create to a charge.
    pub fn create(
        category_name: Option<String>,
        category_value: String,
        charge_type: String,
        amount: Amount,
    ) -> (r: Agreement)
        ensures
            r.agrees("create"@, category_name, category_value, charge_type, amount),
    {
        Self::new_with_command("create", category_name, category_value, charge_type, amount)
    }

    /// The agreement of a renew to a charge.
    pub fn renew(
        category_name: Option<String>,
        category_value: String,
        charge_type: String,
        amount: Amount,
    ) -> (r: Agreement)
        ensures
            r.agrees("renew"@, category_name, category_value, charge_type, amount),
    {
        Self::new_with_command("renew", category_name, category_value, charge_type, amount)
    }
}

impl ToElement for Agreement {
    open spec fn wire(&self) -> ElementModel {
        ElementModel {
            ns: XMLNS@,
            name: "agreement"@,
            attributes: Seq::empty(),
            text: None,
            children: seq![self.set.wire()],
        }
    }

    fn to_element(&self) -> (e: Element) {
        let mut children: Vec<Element> = Vec::new();
        assert(element_models(children@) =~= Seq::empty());
        push_child(&mut children, self.set.to_element());
        let e = Element::new(XMLNS, "agreement", Vec::new(), None, children);
        assert(e@.attributes =~= self.wire().attributes);
        assert(e@.children =~= self.wire().children);
        e
    }
}

impl Extension for Agreement {
    type Response = NoExtension;

    open spec fn spec_kind() -> ExtensionKind {
        ExtensionKind::ChargeAgreement
    }

    open spec fn spec_namespace() -> Option<Seq<char>> {
        Some(XMLNS@)
    }

    open spec fn spec_do_send(&self) -> bool {
        true
    }

    open spec fn elements(&self) -> Seq<ElementModel> {
        seq![self.wire()]
    }

    fn kind() -> (k: ExtensionKind) {
        ExtensionKind::ChargeAgreement
    }

    fn namespace() -> (ns: Option<&'static str>) {
        Some(XMLNS)
    }

    fn do_send(&self) -> (b: bool) {
        true
    }

    fn serialize(&self, out: &mut Vec<Element>) {
        serialize_one(self, out);
    }
}

/// The request to disclose charges may accompany the check of a domain.
impl Accompanies<DomainCheck> for ChargeExtension {
    proof fn declared() {
    }
}

/// The agreement to a charge may accompany the creation of a domain.
impl Accompanies<DomainCreate> for Agreement {
    proof fn declared() {
    }
}

/// The agreement to a charge may accompany the renewal of a domain.
impl Accompanies<DomainRenew> for Agreement {
    proof fn declared() {
    }
}

} // verus!
