//! The fee extension, version 1.0 (RFC 8748).

use crate::amount::Amount;
use crate::element::{
    attribute_models,
    attribute_of,
    bool_model,
    element_models,
    optional_attribute_of,
    optional_leaf_of,
    owned,
    push_attribute,
    push_child,
    push_optional_attribute,
    push_optional_bool_attribute,
    push_optional_leaf,
    str_model,
    text_model,
    values_named,
    lemma_values_named_push,
    Attribute,
    AttributeModel,
    Element,
    ElementModel,
};
use crate::error::{error_of, first_error, value_of, DecodeError};
use crate::request::{
    all_error,
    all_represent,
    child_error,
    decode_all,
    decode_optional,
    optional_represents,
    optional_wire,
    push_all,
    push_optional,
    serialize_one,
    wires,
    Accompanies,
    DomainCheck,
    DomainCreate,
    DomainRenew,
    Extension,
    ExtensionKind,
    Response,
    ToElement,
};
use crate::text::{decimal, lemma_trim_decimal, lemma_u16_round_trip, text_eq, u16_text};
use vstd::prelude::*;
use vstd::string::StrSliceExecFns;

verus! {

/// The namespace of the extension.
pub const XMLNS: &'static str = "urn:ietf:params:xml:ns:epp:fee-1.0";

/// The unit of a period: `y` for years, `m` for months. A token that is
/// neither is kept as it came.
#[derive(Debug, PartialEq, Eq)]
pub enum PeriodUnit {
    Years,
    Months,
    /// No token at all.
    Empty,
    /// A token that is not known, kept as it came.
    Unknown(String),
}

impl PeriodUnit {
    /// The unit that the token `t` names, if it is a known one.
    pub open spec fn known(t: Seq<char>) -> Option<PeriodUnit> {
        if t == "y"@ {
            Some(PeriodUnit::Years)
        } else if t == "m"@ {
            Some(PeriodUnit::Months)
        } else {
            None
        }
    }

    /// The token of the unit: none for [`PeriodUnit::Empty`].
    pub open spec fn token(&self) -> Option<Seq<char>> {
        match self {
            PeriodUnit::Years => Some("y"@),
            PeriodUnit::Months => Some("m"@),
            PeriodUnit::Empty => None,
            PeriodUnit::Unknown(s) => Some(s@),
        }
    }

    /// Whether `self` is what the text `text` decodes to: the empty variant
    /// for absent or empty text, the unit that a known token names, and for
    /// any other text the catch-all that carries it.
    pub open spec fn decoded_from(&self, text: Option<Seq<char>>) -> bool {
        match text {
            None => *self == PeriodUnit::Empty,
            Some(t) => if t.len() == 0 {
                *self == PeriodUnit::Empty
            } else {
                match Self::known(t) {
                    Some(k) => *self == k,
                    None => self matches PeriodUnit::Unknown(s) && s@ == t,
                }
            },
        }
    }

    /// Decodes a unit from its text.
    pub fn decode(text: Option<&str>) -> (r: PeriodUnit)
        ensures
            r.decoded_from(str_model(text)),
    {
        match text {
            None => PeriodUnit::Empty,
            Some(t) => {
                if t.unicode_len() == 0 {
                    PeriodUnit::Empty
                } else if text_eq(t, "y") {
                    PeriodUnit::Years
                } else if text_eq(t, "m") {
                    PeriodUnit::Months
                } else {
                    PeriodUnit::Unknown(t.to_owned())
                }
            },
        }
    }

    /// The token of the unit: none for [`PeriodUnit::Empty`].
    pub fn as_token(&self) -> (r: Option<&str>)
        ensures
            str_model(r) == self.token(),
    {
        match self {
            PeriodUnit::Years => Some("y"),
            PeriodUnit::Months => Some("m"),
            PeriodUnit::Empty => None,
            PeriodUnit::Unknown(s) => Some(s.as_str()),
        }
    }

    /// Whether the value is one that decoding gives: a catch-all carries a
    /// text that is not empty and names no known unit.
    pub open spec fn is_canonical(&self) -> bool {
        self matches PeriodUnit::Unknown(s) ==> s@.len() > 0 && Self::known(s@) is None
    }
}

impl Clone for PeriodUnit {
    fn clone(&self) -> (r: PeriodUnit)
        ensures
            match self {
                PeriodUnit::Unknown(s) => r matches PeriodUnit::Unknown(t) && t@ == s@,
                _ => r == *self,
            },
    {
        match self {
            PeriodUnit::Years => PeriodUnit::Years,
            PeriodUnit::Months => PeriodUnit::Months,
            PeriodUnit::Empty => PeriodUnit::Empty,
            PeriodUnit::Unknown(s) => PeriodUnit::Unknown(s.clone()),
        }
    }
}

/// The two tokens are not empty and are not the same text: each names its
/// own unit and no other.
pub proof fn lemma_unit_tokens()
    ensures
        PeriodUnit::known("y"@) == Some(PeriodUnit::Years),
        PeriodUnit::known("m"@) == Some(PeriodUnit::Months),
        "y"@.len() > 0,
        "m"@.len() > 0,
{
    reveal_strlit("y");
    reveal_strlit("m");
    assert("y"@[0] != "m"@[0]);
}

/// The token of a known unit decodes to that unit and to no other value.
pub proof fn lemma_unit_round_trip(u: PeriodUnit, r: PeriodUnit)
    requires
        u == PeriodUnit::Years || u == PeriodUnit::Months,
        r.decoded_from(u.token()),
    ensures
        r == u,
{
    lemma_unit_tokens();
}

/// A text that is not empty and names no known unit decodes to the catch-all
/// that carries it, and the token of that catch-all is the text again.
pub proof fn lemma_unit_unknown_kept(u: PeriodUnit, text: Seq<char>)
    requires
        text.len() > 0,
        PeriodUnit::known(text) is None,
        u.decoded_from(Some(text)),
    ensures
        u is Unknown,
        u.token() == Some(text),
{
}

/// Absent text decodes to the empty variant, which is neither a known unit
/// nor a catch-all.
pub proof fn lemma_unit_absent_is_empty(u: PeriodUnit)
    requires
        u.decoded_from(None),
    ensures
        u == PeriodUnit::Empty,
        u != PeriodUnit::Years,
        u != PeriodUnit::Months,
        !(u is Unknown),
        u.token() is None,
{
}

/// A period of time: `<fee:period unit="y">1</fee:period>`.
#[derive(Debug, PartialEq, Eq)]
pub struct Period {
    pub unit: PeriodUnit,
    pub value: u16,
}

/// The text of an optional token: empty where there is none.
pub open spec fn token_text(token: Option<Seq<char>>) -> Seq<char> {
    match token {
        Some(t) => t,
        None => Seq::empty(),
    }
}

fn text_of(token: Option<&str>) -> (r: &str)
    ensures
        r@ == token_text(str_model(token)),
{
    match token {
        Some(t) => t,
        None => {
            proof {
                reveal_strlit("");
            }
            assert(""@ =~= Seq::<char>::empty());
            ""
        },
    }
}

impl Period {
    /// A period of `v` years.
    pub fn years(v: u16) -> (r: Period)
        ensures
            r == (Period { unit: PeriodUnit::Years, value: v }),
    {
        Period { unit: PeriodUnit::Years, value: v }
    }
}

impl Clone for Period {
    fn clone(&self) -> (r: Period)
        ensures
            r.value == self.value,
            match self.unit {
                PeriodUnit::Unknown(s) => r.unit matches PeriodUnit::Unknown(t) && t@ == s@,
                _ => r.unit == self.unit,
            },
            r.wire() == self.wire(),
    {
        Period { unit: self.unit.clone(), value: self.value }
    }
}

impl ToElement for Period {
    open spec fn wire(&self) -> ElementModel {
        ElementModel {
            ns: XMLNS@,
            name: "period"@,
            attributes: seq![attribute_of("unit"@, token_text(self.unit.token()))],
            text: Some(decimal(self.value as nat)),
            children: Seq::empty(),
        }
    }

    fn to_element(&self) -> (e: Element) {
        let mut attributes: Vec<Attribute> = Vec::new();
        assert(attribute_models(attributes@) =~= Seq::empty());
        push_attribute(&mut attributes, "unit", text_of(self.unit.as_token()));
        let e = Element::new(XMLNS, "period", attributes, Some(u16_text(self.value)), Vec::new());
        assert(e@.attributes =~= self.wire().attributes);
        assert(e@.children =~= self.wire().children);
        e
    }
}

/// A period that was written reads back as itself: the element of a period
/// with a canonical unit decodes without error to that period.
pub proof fn lemma_period_round_trip(p: Period)
    requires
        p.unit.is_canonical(),
    ensures
        Period::bound_to(p.wire()),
        Period::decode_error(p.wire()) is None,
        p.represents(p.wire()),
{
    lemma_unit_tokens();
    let e = p.wire();
    let a = attribute_of("unit"@, token_text(p.unit.token()));
    assert(e.attributes =~= Seq::<AttributeModel>::empty().push(a));
    lemma_values_named_push(Seq::empty(), a, "unit"@);
    assert(values_named(e.attributes, "unit"@) =~= seq![a.value]);
    lemma_trim_decimal(p.value as nat);
    lemma_u16_round_trip(p.value);
}

impl Response for Period {
    open spec fn bound_to(e: ElementModel) -> bool {
        e.ns == XMLNS@ && e.name == "period"@
    }

    open spec fn decode_error(e: ElementModel) -> Option<DecodeError> {
        first_error(
            error_of(e.required_attribute("unit"@, "Period::unit")),
            error_of(e.direct_u16("Period::value")),
        )
    }

    open spec fn represents(&self, e: ElementModel) -> bool {
        &&& self.unit.decoded_from(Some(value_of(e.required_attribute("unit"@, "Period::unit"))))
        &&& self.value == value_of(e.direct_u16("Period::value"))
    }

    fn matches(e: &Element) -> (r: bool) {
        e.is_named(XMLNS, "period")
    }

    fn from_element(e: &Element) -> (r: Result<Self, DecodeError>) {
        let unit = PeriodUnit::decode(Some(e.required_attribute("unit", "Period::unit")?));
        let value = e.direct_u16("Period::value")?;
        Ok(Period { unit, value })
    }
}

/// One command of a fee check: `<fee:command name="create">…</fee:command>`.
#[derive(Debug, PartialEq, Eq)]
pub struct Command<'a> {
    /// `create`, `renew`, `transfer`, `restore`, …
    pub name: &'a str,
    pub phase: Option<&'a str>,
    pub subphase: Option<&'a str>,
    pub period: Option<Period>,
}

impl<'a> ToElement for Command<'a> {
    open spec fn wire(&self) -> ElementModel {
        ElementModel {
            ns: XMLNS@,
            name: "command"@,
            attributes: seq![attribute_of("name"@, self.name@)] + optional_attribute_of(
                "phase"@,
                str_model(self.phase),
            ) + optional_attribute_of("subphase"@, str_model(self.subphase)),
            text: None,
            children: optional_wire(&self.period),
        }
    }

    fn to_element(&self) -> (e: Element) {
        let mut attributes: Vec<Attribute> = Vec::new();
        assert(attribute_models(attributes@) =~= Seq::empty());
        push_attribute(&mut attributes, "name", self.name);
        push_optional_attribute(&mut attributes, "phase", self.phase);
        push_optional_attribute(&mut attributes, "subphase", self.subphase);
        let mut children: Vec<Element> = Vec::new();
        assert(element_models(children@) =~= Seq::empty());
        push_optional(&mut children, &self.period);
        let e = Element::new(XMLNS, "command", attributes, None, children);
        assert(e@.attributes =~= self.wire().attributes);
        assert(e@.children =~= self.wire().children);
        e
    }
}

/// The request of a fee check: `<fee:check>…</fee:check>`.
#[derive(Debug, PartialEq, Eq)]
pub struct Check<'a> {
    /// The currency of the whole check, such as `USD`.
    pub currency: Option<&'a str>,
    /// The commands whose fees are asked for.
    pub commands: Vec<Command<'a>>,
}

/// The command `name` of a check for an optional number of years.
pub open spec fn command_for_years(name: Seq<char>, years: Option<u16>, c: Command<'_>) -> bool {
    &&& c.name@ == name
    &&& c.phase is None
    &&& c.subphase is None
    &&& match years {
        Some(v) => c.period == Some(Period { unit: PeriodUnit::Years, value: v }),
        None => c.period is None,
    }
}

fn years_of(period_years: Option<u16>) -> (r: Option<Period>)
    ensures
        match period_years {
            Some(v) => r == Some(Period { unit: PeriodUnit::Years, value: v }),
            None => r is None,
        },
{
    match period_years {
        Some(v) => Some(Period::years(v)),
        None => None,
    }
}

impl<'a> Check<'a> {
    /// The usual check: the fees of `create`, `renew` and `transfer`, in that
    /// order, each for `period_years` years where a number is given.
    pub fn new(currency: Option<&'a str>, period_years: Option<u16>) -> (r: Check<'a>)
        ensures
            r.currency == currency,
            r.commands@.len() == 3,
            command_for_years("create"@, period_years, r.commands@[0]),
            command_for_years("renew"@, period_years, r.commands@[1]),
            command_for_years("transfer"@, period_years, r.commands@[2]),
    {
        let mut commands: Vec<Command<'a>> = Vec::new();
        commands.push(
            Command { name: "create", phase: None, subphase: None, period: years_of(period_years) },
        );
        commands.push(
            Command { name: "renew", phase: None, subphase: None, period: years_of(period_years) },
        );
        commands.push(
            Command {
                name: "transfer",
                phase: None,
                subphase: None,
                period: years_of(period_years),
            },
        );
        Check { currency, commands }
    }
}

impl<'a> ToElement for Check<'a> {
    open spec fn wire(&self) -> ElementModel {
        ElementModel {
            ns: XMLNS@,
            name: "check"@,
            attributes: Seq::empty(),
            text: None,
            children: optional_leaf_of(XMLNS@, "currency"@, str_model(self.currency)) + wires(
                self.commands@,
            ),
        }
    }

    fn to_element(&self) -> (e: Element) {
        let mut children: Vec<Element> = Vec::new();
        assert(element_models(children@) =~= Seq::empty());
        push_optional_leaf(&mut children, XMLNS, "currency", self.currency);
        push_all(&mut children, &self.commands);
        let e = Element::new(XMLNS, "check", Vec::new(), None, children);
        assert(e@.attributes =~= self.wire().attributes);
        assert(e@.children =~= self.wire().children);
        e
    }
}

impl<'a> Extension for Check<'a> {
    type Response = CheckData;

    open spec fn spec_kind() -> ExtensionKind {
        ExtensionKind::FeeCheck
    }

    open spec fn spec_namespace() -> Option<Seq<char>> {
        Some(XMLNS@)
    }

    open spec fn spec_do_send(&self) -> bool {
        true
    }

    open spec fn elements(&self) -> Seq<ElementModel> {
        seq![self.wire()]
    }

    fn kind() -> (k: ExtensionKind) {
        ExtensionKind::FeeCheck
    }

    fn namespace() -> (ns: Option<&'static str>) {
        Some(XMLNS)
    }

    fn do_send(&self) -> (b: bool) {
        true
    }

    fn serialize(&self, out: &mut Vec<Element>) {
        serialize_one(self, out);
    }
}

/// A fee in a reply: `<fee:fee description="…">10.00</fee:fee>`.
#[derive(Debug, PartialEq, Eq)]
pub struct Fee {
    pub description: Option<String>,
    pub refundable: Option<bool>,
    /// A duration, as the server wrote it.
    pub grace_period: Option<String>,
    pub amount: Amount,
}

impl Response for Fee {
    open spec fn bound_to(e: ElementModel) -> bool {
        e.ns == XMLNS@ && e.name == "fee"@
    }

    open spec fn decode_error(e: ElementModel) -> Option<DecodeError> {
        first_error(
            error_of(e.optional_attribute("description"@, "Fee::description")),
            first_error(
                error_of(e.optional_bool_attribute("refundable"@, "Fee::refundable")),
                first_error(
                    error_of(e.optional_attribute("grace-period"@, "Fee::grace_period")),
                    error_of(e.direct_amount("Fee::amount")),
                ),
            ),
        )
    }

    open spec fn represents(&self, e: ElementModel) -> bool {
        &&& text_model(self.description) == value_of(
            e.optional_attribute("description"@, "Fee::description"),
        )
        &&& self.refundable == value_of(
            e.optional_bool_attribute("refundable"@, "Fee::refundable"),
        )
        &&& text_model(self.grace_period) == value_of(
            e.optional_attribute("grace-period"@, "Fee::grace_period"),
        )
        &&& self.amount@ == value_of(e.direct_amount("Fee::amount"))
    }

    fn matches(e: &Element) -> (r: bool) {
        e.is_named(XMLNS, "fee")
    }

    fn from_element(e: &Element) -> (r: Result<Self, DecodeError>) {
        let description = owned(e.optional_attribute("description", "Fee::description")?);
        let refundable = e.optional_bool_attribute("refundable", "Fee::refundable")?;
        let grace_period = owned(e.optional_attribute("grace-period", "Fee::grace_period")?);
        let amount = e.direct_amount("Fee::amount")?;
        Ok(Fee { description, refundable, grace_period, amount })
    }
}

/// A credit in a reply: `<fee:credit description="…">-5.00</fee:credit>`.
#[derive(Debug, PartialEq, Eq)]
pub struct Credit {
    pub description: Option<String>,
    pub amount: Amount,
}

impl Response for Credit {
    open spec fn bound_to(e: ElementModel) -> bool {
        e.ns == XMLNS@ && e.name == "credit"@
    }

    open spec fn decode_error(e: ElementModel) -> Option<DecodeError> {
        first_error(
            error_of(e.optional_attribute("description"@, "Credit::description")),
            error_of(e.direct_amount("Credit::amount")),
        )
    }

    open spec fn represents(&self, e: ElementModel) -> bool {
        &&& text_model(self.description) == value_of(
            e.optional_attribute("description"@, "Credit::description"),
        )
        &&& self.amount@ == value_of(e.direct_amount("Credit::amount"))
    }

    fn matches(e: &Element) -> (r: bool) {
        e.is_named(XMLNS, "credit")
    }

    fn from_element(e: &Element) -> (r: Result<Self, DecodeError>) {
        let description = owned(e.optional_attribute("description", "Credit::description")?);
        let amount = e.direct_amount("Credit::amount")?;
        Ok(Credit { description, amount })
    }
}

/// The fees of one command in a reply:
/// `<fee:command name="create" standard="1">…</fee:command>`.
#[derive(Debug, PartialEq, Eq)]
pub struct CommandResp {
    pub name: String,
    pub phase: Option<String>,
    pub subphase: Option<String>,
    /// Whether the price is the standard one, not a premium.
    pub standard: Option<bool>,
    pub period: Option<Period>,
    pub fees: Vec<Fee>,
    pub credits: Vec<Credit>,
    pub reason: Option<String>,
}

impl Response for CommandResp {
    open spec fn bound_to(e: ElementModel) -> bool {
        e.ns == XMLNS@ && e.name == "command"@
    }

    open spec fn decode_error(e: ElementModel) -> Option<DecodeError> {
        first_error(
            error_of(e.required_attribute("name"@, "CommandResp::name")),
            first_error(
                error_of(e.optional_attribute("phase"@, "CommandResp::phase")),
                first_error(
                    error_of(e.optional_attribute("subphase"@, "CommandResp::subphase")),
                    first_error(
                        error_of(e.optional_bool_attribute("standard"@, "CommandResp::standard")),
                        first_error(
                            child_error::<Period>(
                                e.optional_child(XMLNS@, "period"@, "CommandResp::period"),
                            ),
                            first_error(
                                all_error::<Fee>(e.children_named(XMLNS@, "fee"@)),
                                first_error(
                                    all_error::<Credit>(e.children_named(XMLNS@, "credit"@)),
                                    error_of(
                                        e.optional_child_text(
                                            XMLNS@,
                                            "reason"@,
                                            "CommandResp::reason",
                                        ),
                                    ),
                                ),
                            ),
                        ),
                    ),
                ),
            ),
        )
    }

    open spec fn represents(&self, e: ElementModel) -> bool {
        &&& self.name@ == value_of(e.required_attribute("name"@, "CommandResp::name"))
        &&& text_model(self.phase) == value_of(
            e.optional_attribute("phase"@, "CommandResp::phase"),
        )
        &&& text_model(self.subphase) == value_of(
            e.optional_attribute("subphase"@, "CommandResp::subphase"),
        )
        &&& self.standard == value_of(
            e.optional_bool_attribute("standard"@, "CommandResp::standard"),
        )
        &&& optional_represents(
            &self.period,
            value_of(e.optional_child(XMLNS@, "period"@, "CommandResp::period")),
        )
        &&& all_represent(self.fees@, e.children_named(XMLNS@, "fee"@))
        &&& all_represent(self.credits@, e.children_named(XMLNS@, "credit"@))
        &&& text_model(self.reason) == value_of(
            e.optional_child_text(XMLNS@, "reason"@, "CommandResp::reason"),
        )
    }

    fn matches(e: &Element) -> (r: bool) {
        e.is_named(XMLNS, "command")
    }

    fn from_element(e: &Element) -> (r: Result<Self, DecodeError>) {
        let name = e.required_attribute("name", "CommandResp::name")?.to_owned();
        let phase = owned(e.optional_attribute("phase", "CommandResp::phase")?);
        let subphase = owned(e.optional_attribute("subphase", "CommandResp::subphase")?);
        let standard = e.optional_bool_attribute("standard", "CommandResp::standard")?;
        let period = decode_optional::<Period>(
            e.optional_child(XMLNS, "period", "CommandResp::period")?,
        )?;
        let fees = decode_all::<Fee>(&e.children_named(XMLNS, "fee"))?;
        let credits = decode_all::<Credit>(&e.children_named(XMLNS, "credit"))?;
        let reason = owned(e.optional_child_text(XMLNS, "reason", "CommandResp::reason")?);
        Ok(CommandResp { name, phase, subphase, standard, period, fees, credits, reason })
    }
}

/// The fees of one object in the reply to a check:
/// `<fee:cd avail="1"><fee:objID>example.com</fee:objID>…</fee:cd>`.
#[derive(Debug, PartialEq, Eq)]
pub struct CheckDomainData {
    pub avail: Option<bool>,
    pub obj_id: String,
    /// The class of the object, such as `Premium`.
    pub class: Option<String>,
    pub commands: Vec<CommandResp>,
}

impl Response for CheckDomainData {
    open spec fn bound_to(e: ElementModel) -> bool {
        e.ns == XMLNS@ && e.name == "cd"@
    }

    open spec fn decode_error(e: ElementModel) -> Option<DecodeError> {
        first_error(
            error_of(e.optional_bool_attribute("avail"@, "CheckDomainData::avail")),
            first_error(
                error_of(e.required_child_text(XMLNS@, "objID"@, "CheckDomainData::obj_id")),
                first_error(
                    error_of(e.optional_child_text(XMLNS@, "class"@, "CheckDomainData::class")),
                    all_error::<CommandResp>(e.children_named(XMLNS@, "command"@)),
                ),
            ),
        )
    }

    open spec fn represents(&self, e: ElementModel) -> bool {
        &&& self.avail == value_of(e.optional_bool_attribute("avail"@, "CheckDomainData::avail"))
        &&& self.obj_id@ == value_of(
            e.required_child_text(XMLNS@, "objID"@, "CheckDomainData::obj_id"),
        )
        &&& text_model(self.class) == value_of(
            e.optional_child_text(XMLNS@, "class"@, "CheckDomainData::class"),
        )
        &&& all_represent(self.commands@, e.children_named(XMLNS@, "command"@))
    }

    fn matches(e: &Element) -> (r: bool) {
        e.is_named(XMLNS, "cd")
    }

    fn from_element(e: &Element) -> (r: Result<Self, DecodeError>) {
        let avail = e.optional_bool_attribute("avail", "CheckDomainData::avail")?;
        let obj_id = e.required_child_text(XMLNS, "objID", "CheckDomainData::obj_id")?.to_owned();
        let class = owned(e.optional_child_text(XMLNS, "class", "CheckDomainData::class")?);
        let commands = decode_all::<CommandResp>(&e.children_named(XMLNS, "command"))?;
        Ok(CheckDomainData { avail, obj_id, class, commands })
    }
}

/// The reply to a fee check: `<fee:chkData>…</fee:chkData>`.
#[derive(Debug, PartialEq, Eq)]
pub struct CheckData {
    pub currency: String,
    pub list: Vec<CheckDomainData>,
}

impl Response for CheckData {
    open spec fn bound_to(e: ElementModel) -> bool {
        e.ns == XMLNS@ && e.name == "chkData"@
    }

    open spec fn decode_error(e: ElementModel) -> Option<DecodeError> {
        first_error(
            error_of(e.required_child_text(XMLNS@, "currency"@, "CheckData::currency")),
            all_error::<CheckDomainData>(e.children_named(XMLNS@, "cd"@)),
        )
    }

    open spec fn represents(&self, e: ElementModel) -> bool {
        &&& self.currency@ == value_of(
            e.required_child_text(XMLNS@, "currency"@, "CheckData::currency"),
        )
        &&& all_represent(self.list@, e.children_named(XMLNS@, "cd"@))
    }

    fn matches(e: &Element) -> (r: bool) {
        e.is_named(XMLNS, "chkData")
    }

    fn from_element(e: &Element) -> (r: Result<Self, DecodeError>) {
        let currency = e.required_child_text(XMLNS, "currency", "CheckData::currency")?.to_owned();
        let list = decode_all::<CheckDomainData>(&e.children_named(XMLNS, "cd"))?;
        Ok(CheckData { currency, list })
    }
}

/// The fee that a create agrees to: `<fee:fee>10.00</fee:fee>`.
#[derive(Debug, PartialEq, Eq)]
pub struct CreateFee<'a> {
    pub description: Option<&'a str>,
    pub refundable: Option<bool>,
    /// A duration.
    pub grace_period: Option<&'a str>,
    pub amount: Amount,
}

impl<'a> ToElement for CreateFee<'a> {
    open spec fn wire(&self) -> ElementModel {
        ElementModel {
            ns: XMLNS@,
            name: "fee"@,
            attributes: optional_attribute_of("description"@, str_model(self.description))
                + optional_attribute_of("refundable"@, bool_model(self.refundable))
                + optional_attribute_of("grace-period"@, str_model(self.grace_period)),
            text: Some(self.amount@),
            children: Seq::empty(),
        }
    }

    fn to_element(&self) -> (e: Element) {
        let mut attributes: Vec<Attribute> = Vec::new();
        assert(attribute_models(attributes@) =~= Seq::empty());
        push_optional_attribute(&mut attributes, "description", self.description);
        push_optional_bool_attribute(&mut attributes, "refundable", self.refundable);
        push_optional_attribute(&mut attributes, "grace-period", self.grace_period);
        let e = Element::new(
            XMLNS,
            "fee",
            attributes,
            Some(self.amount.as_str().to_owned()),
            Vec::new(),
        );
        assert(e@.attributes =~= self.wire().attributes);
        assert(e@.children =~= self.wire().children);
        e
    }
}

/// The fee extension of a create: `<fee:create>…</fee:create>`.
#[derive(Debug, PartialEq, Eq)]
pub struct Create<'a> {
    /// The currency, such as `USD`.
    pub currency: Option<&'a str>,
    /// The fee that the client expects to pay.
    pub fee: CreateFee<'a>,
}

impl<'a> Create<'a> {
    /// The request that agrees to the fee `amount`, with nothing else said
    /// of it.
    pub fn new(currency: Option<&'a str>, amount: Amount) -> (r: Create<'a>)
        ensures
            r.currency == currency,
            r.fee.description is None,
            r.fee.refundable is None,
            r.fee.grace_period is None,
            r.fee.amount == amount,
    {
        Create {
            currency,
            fee: CreateFee { description: None, refundable: None, grace_period: None, amount },
        }
    }
}

impl<'a> ToElement for Create<'a> {
    open spec fn wire(&self) -> ElementModel {
        ElementModel {
            ns: XMLNS@,
            name: "create"@,
            attributes: Seq::empty(),
            text: None,
            children: optional_leaf_of(XMLNS@, "currency"@, str_model(self.currency)).push(
                self.fee.wire(),
            ),
        }
    }

    fn to_element(&self) -> (e: Element) {
        let mut children: Vec<Element> = Vec::new();
        assert(element_models(children@) =~= Seq::empty());
        push_optional_leaf(&mut children, XMLNS, "currency", self.currency);
        push_child(&mut children, self.fee.to_element());
        let e = Element::new(XMLNS, "create", Vec::new(), None, children);
        assert(e@.attributes =~= self.wire().attributes);
        assert(e@.children =~= self.wire().children);
        e
    }
}

impl<'a> Extension for Create<'a> {
    type Response = CreateData;

    open spec fn spec_kind() -> ExtensionKind {
        ExtensionKind::FeeCreate
    }

    open spec fn spec_namespace() -> Option<Seq<char>> {
        Some(XMLNS@)
    }

    open spec fn spec_do_send(&self) -> bool {
        true
    }

    open spec fn elements(&self) -> Seq<ElementModel> {
        seq![self.wire()]
    }

    fn kind() -> (k: ExtensionKind) {
        ExtensionKind::FeeCreate
    }

    fn namespace() -> (ns: Option<&'static str>) {
        Some(XMLNS)
    }

    fn do_send(&self) -> (b: bool) {
        true
    }

    fn serialize(&self, out: &mut Vec<Element>) {
        serialize_one(self, out);
    }
}

/// The reply to the fee extension of a create: `<fee:creData>…</fee:creData>`.
#[derive(Debug, PartialEq, Eq)]
pub struct CreateData {
    pub currency: String,
    pub fees: Vec<Fee>,
}

impl Response for CreateData {
    open spec fn bound_to(e: ElementModel) -> bool {
        e.ns == XMLNS@ && e.name == "creData"@
    }

    open spec fn decode_error(e: ElementModel) -> Option<DecodeError> {
        first_error(
            error_of(e.required_child_text(XMLNS@, "currency"@, "CreateData::currency")),
            all_error::<Fee>(e.children_named(XMLNS@, "fee"@)),
        )
    }

    open spec fn represents(&self, e: ElementModel) -> bool {
        &&& self.currency@ == value_of(
            e.required_child_text(XMLNS@, "currency"@, "CreateData::currency"),
        )
        &&& all_represent(self.fees@, e.children_named(XMLNS@, "fee"@))
    }

    fn matches(e: &Element) -> (r: bool) {
        e.is_named(XMLNS, "creData")
    }

    fn from_element(e: &Element) -> (r: Result<Self, DecodeError>) {
        let currency = e.required_child_text(XMLNS, "currency", "CreateData::currency")?.to_owned();
        let fees = decode_all::<Fee>(&e.children_named(XMLNS, "fee"))?;
        Ok(CreateData { currency, fees })
    }
}

/// The fee that a renew agrees to: `<fee:fee>10.00</fee:fee>`.
#[derive(Debug, PartialEq, Eq)]
pub struct RenewFee<'a> {
    pub description: Option<&'a str>,
    pub refundable: Option<bool>,
    /// A duration.
    pub grace_period: Option<&'a str>,
    pub amount: Amount,
}

impl<'a> ToElement for RenewFee<'a> {
    open spec fn wire(&self) -> ElementModel {
        ElementModel {
            ns: XMLNS@,
            name: "fee"@,
            attributes: optional_attribute_of("description"@, str_model(self.description))
                + optional_attribute_of("refundable"@, bool_model(self.refundable))
                + optional_attribute_of("grace-period"@, str_model(self.grace_period)),
            text: Some(self.amount@),
            children: Seq::empty(),
        }
    }

    fn to_element(&self) -> (e: Element) {
        let mut attributes: Vec<Attribute> = Vec::new();
        assert(attribute_models(attributes@) =~= Seq::empty());
        push_optional_attribute(&mut attributes, "description", self.description);
        push_optional_bool_attribute(&mut attributes, "refundable", self.refundable);
        push_optional_attribute(&mut attributes, "grace-period", self.grace_period);
        let e = Element::new(
            XMLNS,
            "fee",
            attributes,
            Some(self.amount.as_str().to_owned()),
            Vec::new(),
        );
        assert(e@.attributes =~= self.wire().attributes);
        assert(e@.children =~= self.wire().children);
        e
    }
}

/// The fee extension of a renew: `<fee:renew>…</fee:renew>`.
#[derive(Debug, PartialEq, Eq)]
pub struct Renew<'a> {
    /// The currency, such as `USD`.
    pub currency: Option<&'a str>,
    /// The fee that the client expects to pay.
    pub fee: RenewFee<'a>,
}

impl<'a> Renew<'a> {
    /// The request that agrees to the fee `amount`, with nothing else said
    /// of it.
    pub fn new(currency: Option<&'a str>, amount: Amount) -> (r: Renew<'a>)
        ensures
            r.currency == currency,
            r.fee.description is None,
            r.fee.refundable is None,
            r.fee.grace_period is None,
            r.fee.amount == amount,
    {
        Renew {
            currency,
            fee: RenewFee { description: None, refundable: None, grace_period: None, amount },
        }
    }
}

impl<'a> ToElement for Renew<'a> {
    open spec fn wire(&self) -> ElementModel {
        ElementModel {
            ns: XMLNS@,
            name: "renew"@,
            attributes: Seq::empty(),
            text: None,
            children: optional_leaf_of(XMLNS@, "currency"@, str_model(self.currency)).push(
                self.fee.wire(),
            ),
        }
    }

    fn to_element(&self) -> (e: Element) {
        let mut children: Vec<Element> = Vec::new();
        assert(element_models(children@) =~= Seq::empty());
        push_optional_leaf(&mut children, XMLNS, "currency", self.currency);
        push_child(&mut children, self.fee.to_element());
        let e = Element::new(XMLNS, "renew", Vec::new(), None, children);
        assert(e@.attributes =~= self.wire().attributes);
        assert(e@.children =~= self.wire().children);
        e
    }
}

impl<'a> Extension for Renew<'a> {
    type Response = RenewData;

    open spec fn spec_kind() -> ExtensionKind {
        ExtensionKind::FeeRenew
    }

    open spec fn spec_namespace() -> Option<Seq<char>> {
        Some(XMLNS@)
    }

    open spec fn spec_do_send(&self) -> bool {
        true
    }

    open spec fn elements(&self) -> Seq<ElementModel> {
        seq![self.wire()]
    }

    fn kind() -> (k: ExtensionKind) {
        ExtensionKind::FeeRenew
    }

    fn namespace() -> (ns: Option<&'static str>) {
        Some(XMLNS)
    }

    fn do_send(&self) -> (b: bool) {
        true
    }

    fn serialize(&self, out: &mut Vec<Element>) {
        serialize_one(self, out);
    }
}

/// The reply to the fee extension of a renew: `<fee:renData>…</fee:renData>`.
#[derive(Debug, PartialEq, Eq)]
pub struct RenewData {
    pub currency: String,
    pub fees: Vec<Fee>,
}

impl Response for RenewData {
    open spec fn bound_to(e: ElementModel) -> bool {
        e.ns == XMLNS@ && e.name == "renData"@
    }

    open spec fn decode_error(e: ElementModel) -> Option<DecodeError> {
        first_error(
            error_of(e.required_child_text(XMLNS@, "currency"@, "RenewData::currency")),
            all_error::<Fee>(e.children_named(XMLNS@, "fee"@)),
        )
    }

    open spec fn represents(&self, e: ElementModel) -> bool {
        &&& self.currency@ == value_of(
            e.required_child_text(XMLNS@, "currency"@, "RenewData::currency"),
        )
        &&& all_represent(self.fees@, e.children_named(XMLNS@, "fee"@))
    }

    fn matches(e: &Element) -> (r: bool) {
        e.is_named(XMLNS, "renData")
    }

    fn from_element(e: &Element) -> (r: Result<Self, DecodeError>) {
        let currency = e.required_child_text(XMLNS, "currency", "RenewData::currency")?.to_owned();
        let fees = decode_all::<Fee>(&e.children_named(XMLNS, "fee"))?;
        Ok(RenewData { currency, fees })
    }
}

/// A fee check may accompany the check of a domain.
impl<'a> Accompanies<DomainCheck> for Check<'a> {
    proof fn declared() {
    }
}

/// The fee extension of a create may accompany the creation of a domain.
impl<'a> Accompanies<DomainCreate> for Create<'a> {
    proof fn declared() {
    }
}

/// The fee extension of a renew may accompany the renewal of a domain.
impl<'a> Accompanies<DomainRenew> for Renew<'a> {
    proof fn declared() {
    }
}

} // verus!
