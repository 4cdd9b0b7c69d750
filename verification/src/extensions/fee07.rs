//! The fee extension, version 0.7, as it was drafted before RFC 8748.

use crate::amount::Amount;
use crate::element::{
    amount_model,
    attribute_models,
    attribute_of,
    bool_model,
    element_models,
    leaf_of,
    optional_attribute_of,
    optional_leaf_of,
    owned,
    push_attribute,
    push_child,
    push_optional_attribute,
    push_optional_bool_attribute,
    push_optional_leaf,
    str_model,
    text_model,
    values_named,
    lemma_values_named_push,
    Attribute,
    AttributeModel,
    Element,
    ElementModel,
};
use crate::error::{error_of, first_error, value_of, DecodeError};
use crate::request::{
    all_error,
    all_represent,
    child_error,
    decode_all,
    decode_optional,
    optional_represents,
    optional_wire,
    push_all,
    push_optional,
    required_error,
    serialize_one,
    wires,
    Accompanies,
    DomainCheck,
    DomainCreate,
    DomainRenew,
    DomainTransfer,
    Extension,
    ExtensionKind,
    Response,
    ToElement,
};
use crate::text::{decimal, lemma_trim_decimal, lemma_u16_round_trip, text_eq, u16_text};
use vstd::prelude::*;
use vstd::string::StrSliceExecFns;

verus! {

/// The namespace of the extension.
pub const XMLNS: &'static str = "urn:ietf:params:xml:ns:fee-0.7";

/// The unit of a period: `y` for years, `m` for months. A token that is
/// neither is kept as it came.
#[derive(Debug, PartialEq, Eq)]
pub enum PeriodUnit {
    Years,
    Months,
    /// No token at all.
    Empty,
    /// A token that is not known, kept as it came.
    Unknown(String),
}

impl PeriodUnit {
    /// The unit that the token `t` names, if it is a known one.
    pub open spec fn known(t: Seq<char>) -> Option<PeriodUnit> {
        if t == "y"@ {
            Some(PeriodUnit::Years)
        } else if t == "m"@ {
            Some(PeriodUnit::Months)
        } else {
            None
        }
    }

    /// The token of the unit: none for [`PeriodUnit::Empty`].
    pub open spec fn token(&self) -> Option<Seq<char>> {
        match self {
            PeriodUnit::Years => Some("y"@),
            PeriodUnit::Months => Some("m"@),
            PeriodUnit::Empty => None,
            PeriodUnit::Unknown(s) => Some(s@),
        }
    }

    /// Whether `self` is what the text `text` decodes to: the empty variant
    /// for absent or empty text, the unit that a known token names, and for
    /// any other text the catch-all that carries it.
    pub open spec fn decoded_from(&self, text: Option<Seq<char>>) -> bool {
        match text {
            None => *self == PeriodUnit::Empty,
            Some(t) => if t.len() == 0 {
                *self == PeriodUnit::Empty
            } else {
                match Self::known(t) {
                    Some(k) => *self == k,
                    None => self matches PeriodUnit::Unknown(s) && s@ == t,
                }
            },
        }
    }

    /// Decodes a unit from its text.
    pub fn decode(text: Option<&str>) -> (r: PeriodUnit)
        ensures
            r.decoded_from(str_model(text)),
    {
        match text {
            None => PeriodUnit::Empty,
            Some(t) => {
                if t.unicode_len() == 0 {
                    PeriodUnit::Empty
                } else if text_eq(t, "y") {
                    PeriodUnit::Years
                } else if text_eq(t, "m") {
                    PeriodUnit::Months
                } else {
                    PeriodUnit::Unknown(t.to_owned())
                }
            },
        }
    }

    /// The token of the unit: none for [`PeriodUnit::Empty`].
    pub fn as_token(&self) -> (r: Option<&str>)
        ensures
            str_model(r) == self.token(),
    {
        match self {
            PeriodUnit::Years => Some("y"),
            PeriodUnit::Months => Some("m"),
            PeriodUnit::Empty => None,
            PeriodUnit::Unknown(s) => Some(s.as_str()),
        }
    }

    /// Whether the value is one that decoding gives: a catch-all carries a
    /// text that is not empty and names no known unit.
    pub open spec fn is_canonical(&self) -> bool {
        self matches PeriodUnit::Unknown(s) ==> s@.len() > 0 && Self::known(s@) is None
    }
}

impl Clone for PeriodUnit {
    fn clone(&self) -> (r: PeriodUnit)
        ensures
            match self {
                PeriodUnit::Unknown(s) => r matches PeriodUnit::Unknown(t) && t@ == s@,
                _ => r == *self,
            },
    {
        match self {
            PeriodUnit::Years => PeriodUnit::Years,
            PeriodUnit::Months => PeriodUnit::Months,
            PeriodUnit::Empty => PeriodUnit::Empty,
            PeriodUnit::Unknown(s) => PeriodUnit::Unknown(s.clone()),
        }
    }
}

/// The two tokens are not empty and are not the same text: each names its
/// own unit and no other.
pub proof fn lemma_unit_tokens()
    ensures
        PeriodUnit::known("y"@) == Some(PeriodUnit::Years),
        PeriodUnit::known("m"@) == Some(PeriodUnit::Months),
        "y"@.len() > 0,
        "m"@.len() > 0,
{
    reveal_strlit("y");
    reveal_strlit("m");
    assert("y"@[0] != "m"@[0]);
}

/// The token of a known unit decodes to that unit and to no other value.
pub proof fn lemma_unit_round_trip(u: PeriodUnit, r: PeriodUnit)
    requires
        u == PeriodUnit::Years || u == PeriodUnit::Months,
        r.decoded_from(u.token()),
    ensures
        r == u,
{
    lemma_unit_tokens();
}

/// A text that is not empty and names no known unit decodes to the catch-all
/// that carries it, and the token of that catch-all is the text again.
pub proof fn lemma_unit_unknown_kept(u: PeriodUnit, text: Seq<char>)
    requires
        text.len() > 0,
        PeriodUnit::known(text) is None,
        u.decoded_from(Some(text)),
    ensures
        u is Unknown,
        u.token() == Some(text),
{
}

/// Absent text decodes to the empty variant, which is neither a known unit
/// nor a catch-all.
pub proof fn lemma_unit_absent_is_empty(u: PeriodUnit)
    requires
        u.decoded_from(None),
    ensures
        u == PeriodUnit::Empty,
        u != PeriodUnit::Years,
        u != PeriodUnit::Months,
        !(u is Unknown),
        u.token() is None,
{
}

/// A period of time: `<fee:period unit="y">1</fee:period>`.
#[derive(Debug, PartialEq, Eq)]
pub struct Period {
    pub unit: PeriodUnit,
    pub value: u16,
}

/// The text of an optional token: empty where there is none.
pub open spec fn token_text(token: Option<Seq<char>>) -> Seq<char> {
    match token {
        Some(t) => t,
        None => Seq::empty(),
    }
}

fn text_of(token: Option<&str>) -> (r: &str)
    ensures
        r@ == token_text(str_model(token)),
{
    match token {
        Some(t) => t,
        None => {
            proof {
                reveal_strlit("");
            }
            assert(""@ =~= Seq::<char>::empty());
            ""
        },
    }
}

impl Period {
    /// A period of `v` years.
    pub fn years(v: u16) -> (r: Period)
        ensures
            r == (Period { unit: PeriodUnit::Years, value: v }),
    {
        Period { unit: PeriodUnit::Years, value: v }
    }
}

impl Clone for Period {
    fn clone(&self) -> (r: Period)
        ensures
            r.value == self.value,
            match self.unit {
                PeriodUnit::Unknown(s) => r.unit matches PeriodUnit::Unknown(t) && t@ == s@,
                _ => r.unit == self.unit,
            },
            r.wire() == self.wire(),
    {
        Period { unit: self.unit.clone(), value: self.value }
    }
}

impl ToElement for Period {
    open spec fn wire(&self) -> ElementModel {
        ElementModel {
            ns: XMLNS@,
            name: "period"@,
            attributes: seq![attribute_of("unit"@, token_text(self.unit.token()))],
            text: Some(decimal(self.value as nat)),
            children: Seq::empty(),
        }
    }

    fn to_element(&self) -> (e: Element) {
        let mut attributes: Vec<Attribute> = Vec::new();
        assert(attribute_models(attributes@) =~= Seq::empty());
        push_attribute(&mut attributes, "unit", text_of(self.unit.as_token()));
        let e = Element::new(XMLNS, "period", attributes, Some(u16_text(self.value)), Vec::new());
        assert(e@.attributes =~= self.wire().attributes);
        assert(e@.children =~= self.wire().children);
        e
    }
}

/// A period that was written reads back as itself: the element of a period
/// with a canonical unit decodes without error to that period.
pub proof fn lemma_period_round_trip(p: Period)
    requires
        p.unit.is_canonical(),
    ensures
        Period::bound_to(p.wire()),
        Period::decode_error(p.wire()) is None,
        p.represents(p.wire()),
{
    lemma_unit_tokens();
    let e = p.wire();
    let a = attribute_of("unit"@, token_text(p.unit.token()));
    assert(e.attributes =~= Seq::<AttributeModel>::empty().push(a));
    lemma_values_named_push(Seq::empty(), a, "unit"@);
    assert(values_named(e.attributes, "unit"@) =~= seq![a.value]);
    lemma_trim_decimal(p.value as nat);
    lemma_u16_round_trip(p.value);
}

impl Response for Period {
    open spec fn bound_to(e: ElementModel) -> bool {
        e.ns == XMLNS@ && e.name == "period"@
    }

    open spec fn decode_error(e: ElementModel) -> Option<DecodeError> {
        first_error(
            error_of(e.required_attribute("unit"@, "Period::unit")),
            error_of(e.direct_u16("Period::value")),
        )
    }

    open spec fn represents(&self, e: ElementModel) -> bool {
        &&& self.unit.decoded_from(Some(value_of(e.required_attribute("unit"@, "Period::unit"))))
        &&& self.value == value_of(e.direct_u16("Period::value"))
    }

    fn matches(e: &Element) -> (r: bool) {
        e.is_named(XMLNS, "period")
    }

    fn from_element(e: &Element) -> (r: Result<Self, DecodeError>) {
        let unit = PeriodUnit::decode(Some(e.required_attribute("unit", "Period::unit")?));
        let value = e.direct_u16("Period::value")?;
        Ok(Period { unit, value })
    }
}

/// The command whose fee is asked for, as the text of the element:
/// `<fee:command phase="sunrise">create</fee:command>`.
#[derive(Clone, Debug, PartialEq, Eq)]
pub struct Command {
    pub phase: Option<String>,
    pub subphase: Option<String>,
    /// `create`, `renew`, `transfer`, …
    pub value: String,
}

fn borrowed(t: &Option<String>) -> (r: Option<&str>)
    ensures
        str_model(r) == text_model(*t),
{
    match t {
        Some(s) => Some(s.as_str()),
        None => None,
    }
}

impl ToElement for Command {
    open spec fn wire(&self) -> ElementModel {
        ElementModel {
            ns: XMLNS@,
            name: "command"@,
            attributes: optional_attribute_of("phase"@, text_model(self.phase))
                + optional_attribute_of("subphase"@, text_model(self.subphase)),
            text: Some(self.value@),
            children: Seq::empty(),
        }
    }

    fn to_element(&self) -> (e: Element) {
        let mut attributes: Vec<Attribute> = Vec::new();
        assert(attribute_models(attributes@) =~= Seq::empty());
        push_optional_attribute(&mut attributes, "phase", borrowed(&self.phase));
        push_optional_attribute(&mut attributes, "subphase", borrowed(&self.subphase));
        let e = Element::new(XMLNS, "command", attributes, Some(self.value.clone()), Vec::new());
        assert(e@.attributes =~= self.wire().attributes);
        assert(e@.children =~= self.wire().children);
        e
    }
}

/// A command that was written reads back as itself: its element decodes
/// without error to that command.
pub proof fn lemma_command_read_back(c: Command)
    ensures
        Command::bound_to(c.wire()),
        Command::decode_error(c.wire()) is None,
        c.represents(c.wire()),
{
    reveal_strlit("phase");
    reveal_strlit("subphase");
    assert("phase"@.len() != "subphase"@.len());
    let e = c.wire();
    let none = Seq::<AttributeModel>::empty();
    match (c.phase, c.subphase) {
        (Some(p), Some(q)) => {
            let a = attribute_of("phase"@, p@);
            let b = attribute_of("subphase"@, q@);
            assert(e.attributes =~= none.push(a).push(b));
            lemma_values_named_push(none, a, "phase"@);
            lemma_values_named_push(none.push(a), b, "phase"@);
            lemma_values_named_push(none, a, "subphase"@);
            lemma_values_named_push(none.push(a), b, "subphase"@);
        },
        (Some(p), None) => {
            let a = attribute_of("phase"@, p@);
            assert(e.attributes =~= none.push(a));
            lemma_values_named_push(none, a, "phase"@);
            lemma_values_named_push(none, a, "subphase"@);
        },
        (None, Some(q)) => {
            let b = attribute_of("subphase"@, q@);
            assert(e.attributes =~= none.push(b));
            lemma_values_named_push(none, b, "phase"@);
            lemma_values_named_push(none, b, "subphase"@);
        },
        (None, None) => {
            assert(e.attributes =~= none);
        },
    }
}

impl Response for Command {
    open spec fn bound_to(e: ElementModel) -> bool {
        e.ns == XMLNS@ && e.name == "command"@
    }

    open spec fn decode_error(e: ElementModel) -> Option<DecodeError> {
        first_error(
            error_of(e.optional_attribute("phase"@, "Command::phase")),
            error_of(e.optional_attribute("subphase"@, "Command::subphase")),
        )
    }

    open spec fn represents(&self, e: ElementModel) -> bool {
        &&& text_model(self.phase) == value_of(e.optional_attribute("phase"@, "Command::phase"))
        &&& text_model(self.subphase) == value_of(
            e.optional_attribute("subphase"@, "Command::subphase"),
        )
        &&& self.value@ == e.direct_text()
    }

    fn matches(e: &Element) -> (r: bool) {
        e.is_named(XMLNS, "command")
    }

    fn from_element(e: &Element) -> (r: Result<Self, DecodeError>) {
        let phase = owned(e.optional_attribute("phase", "Command::phase")?);
        let subphase = owned(e.optional_attribute("subphase", "Command::subphase")?);
        let value = e.direct_text().to_owned();
        Ok(Command { phase, subphase, value })
    }
}

/// The command that a reply speaks of:
/// `<fee:command phase="sunrise">create</fee:command>`.
#[derive(Clone, Debug, PartialEq, Eq)]
pub struct CommandResp {
    pub phase: Option<String>,
    pub subphase: Option<String>,
    pub value: String,
}

impl Response for CommandResp {
    open spec fn bound_to(e: ElementModel) -> bool {
        e.ns == XMLNS@ && e.name == "command"@
    }

    open spec fn decode_error(e: ElementModel) -> Option<DecodeError> {
        first_error(
            error_of(e.optional_attribute("phase"@, "CommandResp::phase")),
            error_of(e.optional_attribute("subphase"@, "CommandResp::subphase")),
        )
    }

    open spec fn represents(&self, e: ElementModel) -> bool {
        &&& text_model(self.phase) == value_of(
            e.optional_attribute("phase"@, "CommandResp::phase"),
        )
        &&& text_model(self.subphase) == value_of(
            e.optional_attribute("subphase"@, "CommandResp::subphase"),
        )
        &&& self.value@ == e.direct_text()
    }

    fn matches(e: &Element) -> (r: bool) {
        e.is_named(XMLNS, "command")
    }

    fn from_element(e: &Element) -> (r: Result<Self, DecodeError>) {
        let phase = owned(e.optional_attribute("phase", "CommandResp::phase")?);
        let subphase = owned(e.optional_attribute("subphase", "CommandResp::subphase")?);
        let value = e.direct_text().to_owned();
        Ok(CommandResp { phase, subphase, value })
    }
}

/// A fee in a reply: `<fee:fee applied="immediate">10.00</fee:fee>`.
#[derive(Clone, Debug, PartialEq, Eq)]
pub struct Fee {
    pub description: Option<String>,
    pub refundable: Option<bool>,
    /// A duration, as the server wrote it.
    pub grace_period: Option<String>,
    /// When the fee is applied, such as `immediate`.
    pub applied: Option<String>,
    pub amount: Amount,
}

impl Response for Fee {
    open spec fn bound_to(e: ElementModel) -> bool {
        e.ns == XMLNS@ && e.name == "fee"@
    }

    open spec fn decode_error(e: ElementModel) -> Option<DecodeError> {
        first_error(
            error_of(e.optional_attribute("description"@, "Fee::description")),
            first_error(
                error_of(e.optional_bool_attribute("refundable"@, "Fee::refundable")),
                first_error(
                    error_of(e.optional_attribute("grace-period"@, "Fee::grace_period")),
                    first_error(
                        error_of(e.optional_attribute("applied"@, "Fee::applied")),
                        error_of(e.direct_amount("Fee::amount")),
                    ),
                ),
            ),
        )
    }

    open spec fn represents(&self, e: ElementModel) -> bool {
        &&& text_model(self.description) == value_of(
            e.optional_attribute("description"@, "Fee::description"),
        )
        &&& self.refundable == value_of(
            e.optional_bool_attribute("refundable"@, "Fee::refundable"),
        )
        &&& text_model(self.grace_period) == value_of(
            e.optional_attribute("grace-period"@, "Fee::grace_period"),
        )
        &&& text_model(self.applied) == value_of(e.optional_attribute("applied"@, "Fee::applied"))
        &&& self.amount@ == value_of(e.direct_amount("Fee::amount"))
    }

    fn matches(e: &Element) -> (r: bool) {
        e.is_named(XMLNS, "fee")
    }

    fn from_element(e: &Element) -> (r: Result<Self, DecodeError>) {
        let description = owned(e.optional_attribute("description", "Fee::description")?);
        let refundable = e.optional_bool_attribute("refundable", "Fee::refundable")?;
        let grace_period = owned(e.optional_attribute("grace-period", "Fee::grace_period")?);
        let applied = owned(e.optional_attribute("applied", "Fee::applied")?);
        let amount = e.direct_amount("Fee::amount")?;
        Ok(Fee { description, refundable, grace_period, applied, amount })
    }
}

/// A credit in a reply: `<fee:credit description="…">-5.00</fee:credit>`.
#[derive(Clone, Debug, PartialEq, Eq)]
pub struct Credit {
    pub description: Option<String>,
    pub amount: Amount,
}

impl Response for Credit {
    open spec fn bound_to(e: ElementModel) -> bool {
        e.ns == XMLNS@ && e.name == "credit"@
    }

    open spec fn decode_error(e: ElementModel) -> Option<DecodeError> {
        first_error(
            error_of(e.optional_attribute("description"@, "Credit::description")),
            error_of(e.direct_amount("Credit::amount")),
        )
    }

    open spec fn represents(&self, e: ElementModel) -> bool {
        &&& text_model(self.description) == value_of(
            e.optional_attribute("description"@, "Credit::description"),
        )
        &&& self.amount@ == value_of(e.direct_amount("Credit::amount"))
    }

    fn matches(e: &Element) -> (r: bool) {
        e.is_named(XMLNS, "credit")
    }

    fn from_element(e: &Element) -> (r: Result<Self, DecodeError>) {
        let description = owned(e.optional_attribute("description", "Credit::description")?);
        let amount = e.direct_amount("Credit::amount")?;
        Ok(Credit { description, amount })
    }
}

/// The fee of one command on one name, asked for in a check:
/// `<fee:domain>…</fee:domain>`.
#[derive(Debug, PartialEq, Eq)]
pub struct Domain<'a> {
    pub name: &'a str,
    /// The currency; the server chooses where none is given.
    pub currency: Option<&'a str>,
    pub command: Command,
    pub period: Option<Period>,
}

impl<'a> ToElement for Domain<'a> {
    open spec fn wire(&self) -> ElementModel {
        ElementModel {
            ns: XMLNS@,
            name: "domain"@,
            attributes: Seq::empty(),
            text: None,
            children: seq![leaf_of(XMLNS@, "name"@, self.name@)] + optional_leaf_of(
                XMLNS@,
                "currency"@,
                str_model(self.currency),
            ) + seq![self.command.wire()] + optional_wire(&self.period),
        }
    }

    fn to_element(&self) -> (e: Element) {
        let mut children: Vec<Element> = Vec::new();
        assert(element_models(children@) =~= Seq::empty());
        push_child(&mut children, Element::leaf(XMLNS, "name", self.name));
        push_optional_leaf(&mut children, XMLNS, "currency", self.currency);
        push_child(&mut children, self.command.to_element());
        push_optional(&mut children, &self.period);
        let e = Element::new(XMLNS, "domain", Vec::new(), None, children);
        assert(e@.attributes =~= self.wire().attributes);
        assert(e@.children =~= self.wire().children);
        e
    }
}

/// The request of a fee check: `<fee:check>…</fee:check>`.
#[derive(Debug, PartialEq, Eq)]
pub struct Check<'a> {
    pub domains: Vec<Domain<'a>>,
}

/// The three commands that a check asks about, in order.
pub open spec fn checked_command(j: int) -> Seq<char> {
    if j == 0 {
        "create"@
    } else if j == 1 {
        "renew"@
    } else {
        "transfer"@
    }
}

/// Whether `d` asks for the fee of `command` on `name`, for an optional
/// number of years.
pub open spec fn asks_for(
    d: Domain<'_>,
    name: &str,
    currency: Option<&str>,
    command: Seq<char>,
    years: Option<u16>,
) -> bool {
    &&& d.name == name
    &&& d.currency == currency
    &&& d.command.phase is None
    &&& d.command.subphase is None
    &&& d.command.value@ == command
    &&& match years {
        Some(v) => d.period == Some(Period { unit: PeriodUnit::Years, value: v }),
        None => d.period is None,
    }
}

fn years_of(period_years: Option<u16>) -> (r: Option<Period>)
    ensures
        match period_years {
            Some(v) => r == Some(Period { unit: PeriodUnit::Years, value: v }),
            None => r is None,
        },
{
    match period_years {
        Some(v) => Some(Period::years(v)),
        None => None,
    }
}

fn domain_for<'a>(
    name: &'a str,
    currency: Option<&'a str>,
    command: &str,
    period_years: Option<u16>,
) -> (d: Domain<'a>)
    ensures
        asks_for(d, name, currency, command@, period_years),
{
    Domain {
        name,
        currency,
        command: Command { phase: None, subphase: None, value: command.to_owned() },
        period: years_of(period_years),
    }
}

impl<'a> Check<'a> {
    /// The usual check: for each of `names`, in order, the fees of `create`,
    /// `renew` and `transfer`, in that order, each for `period_years` years
    /// where a number is given.
    pub fn new(
        names: &[&'a str],
        currency: Option<&'a str>,
        period_years: Option<u16>,
    ) -> (r: Check<'a>)
        ensures
            r.domains@.len() == 3 * names@.len(),
            forall|k: int|
                0 <= k < r.domains@.len() ==> asks_for(
                    #[trigger] r.domains@[k],
                    names@[k / 3],
                    currency,
                    checked_command(k % 3),
                    period_years,
                ),
    {
        let mut domains: Vec<Domain<'a>> = Vec::new();
        let mut i: usize = 0;
        while i < names.len()
            invariant
                i <= names@.len(),
                domains@.len() == 3 * i,
                forall|k: int|
                    0 <= k < domains@.len() ==> asks_for(
                        #[trigger] domains@[k],
                        names@[k / 3],
                        currency,
                        checked_command(k % 3),
                        period_years,
                    ),
            decreases names@.len() - i,
        {
            let name = names[i];
            domains.push(domain_for(name, currency, "create", period_years));
            domains.push(domain_for(name, currency, "renew", period_years));
            domains.push(domain_for(name, currency, "transfer", period_years));
            i = i + 1;
        }
        Check { domains }
    }
}

impl<'a> ToElement for Check<'a> {
    open spec fn wire(&self) -> ElementModel {
        ElementModel {
            ns: XMLNS@,
            name: "check"@,
            attributes: Seq::empty(),
            text: None,
            children: wires(self.domains@),
        }
    }

    fn to_element(&self) -> (e: Element) {
        let mut children: Vec<Element> = Vec::new();
        assert(element_models(children@) =~= Seq::empty());
        push_all(&mut children, &self.domains);
        let e = Element::new(XMLNS, "check", Vec::new(), None, children);
        assert(e@.attributes =~= self.wire().attributes);
        assert(e@.children =~= self.wire().children);
        e
    }
}

impl<'a> Extension for Check<'a> {
    type Response = CheckData;

    open spec fn spec_kind() -> ExtensionKind {
        ExtensionKind::Fee07Check
    }

    open spec fn spec_namespace() -> Option<Seq<char>> {
        Some(XMLNS@)
    }

    open spec fn spec_do_send(&self) -> bool {
        true
    }

    open spec fn elements(&self) -> Seq<ElementModel> {
        seq![self.wire()]
    }

    fn kind() -> (k: ExtensionKind) {
        ExtensionKind::Fee07Check
    }

    fn namespace() -> (ns: Option<&'static str>) {
        Some(XMLNS)
    }

    fn do_send(&self) -> (b: bool) {
        true
    }

    fn serialize(&self, out: &mut Vec<Element>) {
        serialize_one(self, out);
    }
}

/// The fee of one command on one name, in the reply to a check:
/// `<fee:cd>…</fee:cd>`.
#[derive(Debug, PartialEq, Eq)]
pub struct CheckDomainData {
    pub name: String,
    pub currency: String,
    pub command: CommandResp,
    pub period: Option<Period>,
    pub fees: Vec<Fee>,
    pub credits: Vec<Credit>,
    pub class: Option<String>,
}

impl Response for CheckDomainData {
    open spec fn bound_to(e: ElementModel) -> bool {
        e.ns == XMLNS@ && e.name == "cd"@
    }

    open spec fn decode_error(e: ElementModel) -> Option<DecodeError> {
        first_error(
            error_of(e.required_child_text(XMLNS@, "name"@, "CheckDomainData::name")),
            first_error(
                error_of(e.required_child_text(XMLNS@, "currency"@, "CheckDomainData::currency")),
                first_error(
                    required_error::<CommandResp>(
                        e.required_child(XMLNS@, "command"@, "CheckDomainData::command"),
                    ),
                    first_error(
                        child_error::<Period>(
                            e.optional_child(XMLNS@, "period"@, "CheckDomainData::period"),
                        ),
                        first_error(
                            all_error::<Fee>(e.children_named(XMLNS@, "fee"@)),
                            first_error(
                                all_error::<Credit>(e.children_named(XMLNS@, "credit"@)),
                                error_of(
                                    e.optional_child_text(
                                        XMLNS@,
                                        "class"@,
                                        "CheckDomainData::class",
                                    ),
                                ),
                            ),
                        ),
                    ),
                ),
            ),
        )
    }

    open spec fn represents(&self, e: ElementModel) -> bool {
        &&& self.name@ == value_of(
            e.required_child_text(XMLNS@, "name"@, "CheckDomainData::name"),
        )
        &&& self.currency@ == value_of(
            e.required_child_text(XMLNS@, "currency"@, "CheckDomainData::currency"),
        )
        &&& self.command.represents(
            value_of(e.required_child(XMLNS@, "command"@, "CheckDomainData::command")),
        )
        &&& optional_represents(
            &self.period,
            value_of(e.optional_child(XMLNS@, "period"@, "CheckDomainData::period")),
        )
        &&& all_represent(self.fees@, e.children_named(XMLNS@, "fee"@))
        &&& all_represent(self.credits@, e.children_named(XMLNS@, "credit"@))
        &&& text_model(self.class) == value_of(
            e.optional_child_text(XMLNS@, "class"@, "CheckDomainData::class"),
        )
    }

    fn matches(e: &Element) -> (r: bool) {
        e.is_named(XMLNS, "cd")
    }

    fn from_element(e: &Element) -> (r: Result<Self, DecodeError>) {
        let name = e.required_child_text(XMLNS, "name", "CheckDomainData::name")?.to_owned();
        let currency = e.required_child_text(
            XMLNS,
            "currency",
            "CheckDomainData::currency",
        )?.to_owned();
        let command = CommandResp::from_element(
            e.required_child(XMLNS, "command", "CheckDomainData::command")?,
        )?;
        let period = decode_optional::<Period>(
            e.optional_child(XMLNS, "period", "CheckDomainData::period")?,
        )?;
        let fees = decode_all::<Fee>(&e.children_named(XMLNS, "fee"))?;
        let credits = decode_all::<Credit>(&e.children_named(XMLNS, "credit"))?;
        let class = owned(e.optional_child_text(XMLNS, "class", "CheckDomainData::class")?);
        Ok(CheckDomainData { name, currency, command, period, fees, credits, class })
    }
}

/// The reply to a fee check: `<fee:chkData>…</fee:chkData>`.
#[derive(Debug, PartialEq, Eq)]
pub struct CheckData {
    pub list: Vec<CheckDomainData>,
}

impl Response for CheckData {
    open spec fn bound_to(e: ElementModel) -> bool {
        e.ns == XMLNS@ && e.name == "chkData"@
    }

    open spec fn decode_error(e: ElementModel) -> Option<DecodeError> {
        all_error::<CheckDomainData>(e.children_named(XMLNS@, "cd"@))
    }

    open spec fn represents(&self, e: ElementModel) -> bool {
        all_represent(self.list@, e.children_named(XMLNS@, "cd"@))
    }

    fn matches(e: &Element) -> (r: bool) {
        e.is_named(XMLNS, "chkData")
    }

    fn from_element(e: &Element) -> (r: Result<Self, DecodeError>) {
        let list = decode_all::<CheckDomainData>(&e.children_named(XMLNS, "cd"))?;
        Ok(CheckData { list })
    }
}

/// A fee that a request agrees to: `<fee:fee>10.00</fee:fee>`.
#[derive(Debug, PartialEq, Eq)]
pub struct FeeReq<'a> {
    pub description: Option<&'a str>,
    pub refundable: Option<bool>,
    /// A duration.
    pub grace_period: Option<&'a str>,
    /// When the fee is applied, such as `immediate`.
    pub applied: Option<&'a str>,
    pub amount: Amount,
}

impl<'a> ToElement for FeeReq<'a> {
    open spec fn wire(&self) -> ElementModel {
        ElementModel {
            ns: XMLNS@,
            name: "fee"@,
            attributes: optional_attribute_of("description"@, str_model(self.description))
                + optional_attribute_of("refundable"@, bool_model(self.refundable))
                + optional_attribute_of("grace-period"@, str_model(self.grace_period))
                + optional_attribute_of("applied"@, str_model(self.applied)),
            text: Some(self.amount@),
            children: Seq::empty(),
        }
    }

    fn to_element(&self) -> (e: Element) {
        let mut attributes: Vec<Attribute> = Vec::new();
        assert(attribute_models(attributes@) =~= Seq::empty());
        push_optional_attribute(&mut attributes, "description", self.description);
        push_optional_bool_attribute(&mut attributes, "refundable", self.refundable);
        push_optional_attribute(&mut attributes, "grace-period", self.grace_period);
        push_optional_attribute(&mut attributes, "applied", self.applied);
        let e = Element::new(
            XMLNS,
            "fee",
            attributes,
            Some(self.amount.as_str().to_owned()),
            Vec::new(),
        );
        assert(e@.attributes =~= self.wire().attributes);
        assert(e@.children =~= self.wire().children);
        e
    }
}

/// A credit that a request agrees to: `<fee:credit>-5.00</fee:credit>`.
#[derive(Debug, PartialEq, Eq)]
pub struct CreditReq<'a> {
    pub description: Option<&'a str>,
    pub amount: Amount,
}

impl<'a> ToElement for CreditReq<'a> {
    open spec fn wire(&self) -> ElementModel {
        ElementModel {
            ns: XMLNS@,
            name: "credit"@,
            attributes: optional_attribute_of("description"@, str_model(self.description)),
            text: Some(self.amount@),
            children: Seq::empty(),
        }
    }

    fn to_element(&self) -> (e: Element) {
        let mut attributes: Vec<Attribute> = Vec::new();
        assert(attribute_models(attributes@) =~= Seq::empty());
        push_optional_attribute(&mut attributes, "description", self.description);
        let e = Element::new(
            XMLNS,
            "credit",
            attributes,
            Some(self.amount.as_str().to_owned()),
            Vec::new(),
        );
        assert(e@.attributes =~= self.wire().attributes);
        assert(e@.children =~= self.wire().children);
        e
    }
}

/// Whether `fees` holds the one fee `amount`, with nothing else said of it.
pub open spec fn one_plain_fee(fees: Seq<FeeReq<'_>>, amount: Amount) -> bool {
    &&& fees.len() == 1
    &&& fees[0].description is None
    &&& fees[0].refundable is None
    &&& fees[0].grace_period is None
    &&& fees[0].applied is None
    &&& fees[0].amount == amount
}

fn plain_fee<'a>(amount: Amount) -> (fees: Vec<FeeReq<'a>>)
    ensures
        one_plain_fee(fees@, amount),
{
    let mut fees: Vec<FeeReq<'a>> = Vec::new();
    fees.push(
        FeeReq { description: None, refundable: None, grace_period: None, applied: None, amount },
    );
    fees
}

/// The fee extension of a create: `<fee:create>…</fee:create>`.
#[derive(Debug, PartialEq, Eq)]
pub struct Create<'a> {
    pub currency: Option<&'a str>,
    pub fees: Vec<FeeReq<'a>>,
    pub credits: Vec<CreditReq<'a>>,
}

impl<'a> Create<'a> {
    /// The request that agrees to the one fee `amount`, with nothing else
    /// said of it and no credit.
    pub fn new(currency: Option<&'a str>, amount: Amount) -> (r: Create<'a>)
        ensures
            r.currency == currency,
            one_plain_fee(r.fees@, amount),
            r.credits@.len() == 0,
    {
        Create { currency, fees: plain_fee(amount), credits: Vec::new() }
    }
}

impl<'a> ToElement for Create<'a> {
    open spec fn wire(&self) -> ElementModel {
        ElementModel {
            ns: XMLNS@,
            name: "create"@,
            attributes: Seq::empty(),
            text: None,
            children: optional_leaf_of(XMLNS@, "currency"@, str_model(self.currency)) + wires(
                self.fees@,
            ) + wires(self.credits@),
        }
    }

    fn to_element(&self) -> (e: Element) {
        let mut children: Vec<Element> = Vec::new();
        assert(element_models(children@) =~= Seq::empty());
        push_optional_leaf(&mut children, XMLNS, "currency", self.currency);
        push_all(&mut children, &self.fees);
        push_all(&mut children, &self.credits);
        let e = Element::new(XMLNS, "create", Vec::new(), None, children);
        assert(e@.attributes =~= self.wire().attributes);
        assert(e@.children =~= self.wire().children);
        e
    }
}

impl<'a> Extension for Create<'a> {
    type Response = CreateData;

    open spec fn spec_kind() -> ExtensionKind {
        ExtensionKind::Fee07Create
    }

    open spec fn spec_namespace() -> Option<Seq<char>> {
        Some(XMLNS@)
    }

    open spec fn spec_do_send(&self) -> bool {
        true
    }

    open spec fn elements(&self) -> Seq<ElementModel> {
        seq![self.wire()]
    }

    fn kind() -> (k: ExtensionKind) {
        ExtensionKind::Fee07Create
    }

    fn namespace() -> (ns: Option<&'static str>) {
        Some(XMLNS)
    }

    fn do_send(&self) -> (b: bool) {
        true
    }

    fn serialize(&self, out: &mut Vec<Element>) {
        serialize_one(self, out);
    }
}

/// The fee extension of a renew: `<fee:renew>…</fee:renew>`.
#[derive(Debug, PartialEq, Eq)]
pub struct Renew<'a> {
    pub currency: Option<&'a str>,
    pub fees: Vec<FeeReq<'a>>,
    pub credits: Vec<CreditReq<'a>>,
}

impl<'a> Renew<'a> {
    /// The request that agrees to the one fee `amount`, with nothing else
    /// said of it and no credit.
    pub fn new(currency: Option<&'a str>, amount: Amount) -> (r: Renew<'a>)
        ensures
            r.currency == currency,
            one_plain_fee(r.fees@, amount),
            r.credits@.len() == 0,
    {
        Renew { currency, fees: plain_fee(amount), credits: Vec::new() }
    }
}

impl<'a> ToElement for Renew<'a> {
    open spec fn wire(&self) -> ElementModel {
        ElementModel {
            ns: XMLNS@,
            name: "renew"@,
            attributes: Seq::empty(),
            text: None,
            children: optional_leaf_of(XMLNS@, "currency"@, str_model(self.currency)) + wires(
                self.fees@,
            ) + wires(self.credits@),
        }
    }

    fn to_element(&self) -> (e: Element) {
        let mut children: Vec<Element> = Vec::new();
        assert(element_models(children@) =~= Seq::empty());
        push_optional_leaf(&mut children, XMLNS, "currency", self.currency);
        push_all(&mut children, &self.fees);
        push_all(&mut children, &self.credits);
        let e = Element::new(XMLNS, "renew", Vec::new(), None, children);
        assert(e@.attributes =~= self.wire().attributes);
        assert(e@.children =~= self.wire().children);
        e
    }
}

impl<'a> Extension for Renew<'a> {
    type Response = RenewData;

    open spec fn spec_kind() -> ExtensionKind {
        ExtensionKind::Fee07Renew
    }

    open spec fn spec_namespace() -> Option<Seq<char>> {
        Some(XMLNS@)
    }

    open spec fn spec_do_send(&self) -> bool {
        true
    }

    open spec fn elements(&self) -> Seq<ElementModel> {
        seq![self.wire()]
    }

    fn kind() -> (k: ExtensionKind) {
        ExtensionKind::Fee07Renew
    }

    fn namespace() -> (ns: Option<&'static str>) {
        Some(XMLNS)
    }

    fn do_send(&self) -> (b: bool) {
        true
    }

    fn serialize(&self, out: &mut Vec<Element>) {
        serialize_one(self, out);
    }
}

/// The fee extension of a transfer: `<fee:transfer>…</fee:transfer>`.
#[derive(Debug, PartialEq, Eq)]
pub struct Transfer<'a> {
    pub currency: Option<&'a str>,
    pub fees: Vec<FeeReq<'a>>,
    pub credits: Vec<CreditReq<'a>>,
}

impl<'a> Transfer<'a> {
    /// The request that agrees to the one fee `amount`, with nothing else
    /// said of it and no credit.
    pub fn new(currency: Option<&'a str>, amount: Amount) -> (r: Transfer<'a>)
        ensures
            r.currency == currency,
            one_plain_fee(r.fees@, amount),
            r.credits@.len() == 0,
    {
        Transfer { currency, fees: plain_fee(amount), credits: Vec::new() }
    }
}

impl<'a> ToElement for Transfer<'a> {
    open spec fn wire(&self) -> ElementModel {
        ElementModel {
            ns: XMLNS@,
            name: "transfer"@,
            attributes: Seq::empty(),
            text: None,
            children: optional_leaf_of(XMLNS@, "currency"@, str_model(self.currency)) + wires(
                self.fees@,
            ) + wires(self.credits@),
        }
    }

    fn to_element(&self) -> (e: Element) {
        let mut children: Vec<Element> = Vec::new();
        assert(element_models(children@) =~= Seq::empty());
        push_optional_leaf(&mut children, XMLNS, "currency", self.currency);
        push_all(&mut children, &self.fees);
        push_all(&mut children, &self.credits);
        let e = Element::new(XMLNS, "transfer", Vec::new(), None, children);
        assert(e@.attributes =~= self.wire().attributes);
        assert(e@.children =~= self.wire().children);
        e
    }
}

impl<'a> Extension for Transfer<'a> {
    type Response = TransferData;

    open spec fn spec_kind() -> ExtensionKind {
        ExtensionKind::Fee07Transfer
    }

    open spec fn spec_namespace() -> Option<Seq<char>> {
        Some(XMLNS@)
    }

    open spec fn spec_do_send(&self) -> bool {
        true
    }

    open spec fn elements(&self) -> Seq<ElementModel> {
        seq![self.wire()]
    }

    fn kind() -> (k: ExtensionKind) {
        ExtensionKind::Fee07Transfer
    }

    fn namespace() -> (ns: Option<&'static str>) {
        Some(XMLNS)
    }

    fn do_send(&self) -> (b: bool) {
        true
    }

    fn serialize(&self, out: &mut Vec<Element>) {
        serialize_one(self, out);
    }
}

/// The reply to the fee extension of a create: `<fee:creData>…</fee:creData>`.
#[derive(Debug, PartialEq, Eq)]
pub struct CreateData {
    pub currency: String,
    pub fees: Vec<Fee>,
    pub credits: Vec<Credit>,
    pub balance: Option<Amount>,
    pub credit_limit: Option<Amount>,
}

impl Response for CreateData {
    open spec fn bound_to(e: ElementModel) -> bool {
        e.ns == XMLNS@ && e.name == "creData"@
    }

    open spec fn decode_error(e: ElementModel) -> Option<DecodeError> {
        first_error(
            error_of(e.required_child_text(XMLNS@, "currency"@, "CreateData::currency")),
            first_error(
                all_error::<Fee>(e.children_named(XMLNS@, "fee"@)),
                first_error(
                    all_error::<Credit>(e.children_named(XMLNS@, "credit"@)),
                    first_error(
                        error_of(
                            e.optional_child_amount(XMLNS@, "balance"@, "CreateData::balance"),
                        ),
                        error_of(
                            e.optional_child_amount(
                                XMLNS@,
                                "creditLimit"@,
                                "CreateData::credit_limit",
                            ),
                        ),
                    ),
                ),
            ),
        )
    }

    open spec fn represents(&self, e: ElementModel) -> bool {
        &&& self.currency@ == value_of(
            e.required_child_text(XMLNS@, "currency"@, "CreateData::currency"),
        )
        &&& all_represent(self.fees@, e.children_named(XMLNS@, "fee"@))
        &&& all_represent(self.credits@, e.children_named(XMLNS@, "credit"@))
        &&& amount_model(self.balance) == value_of(
            e.optional_child_amount(XMLNS@, "balance"@, "CreateData::balance"),
        )
        &&& amount_model(self.credit_limit) == value_of(
            e.optional_child_amount(XMLNS@, "creditLimit"@, "CreateData::credit_limit"),
        )
    }

    fn matches(e: &Element) -> (r: bool) {
        e.is_named(XMLNS, "creData")
    }

    fn from_element(e: &Element) -> (r: Result<Self, DecodeError>) {
        let currency = e.required_child_text(XMLNS, "currency", "CreateData::currency")?.to_owned();
        let fees = decode_all::<Fee>(&e.children_named(XMLNS, "fee"))?;
        let credits = decode_all::<Credit>(&e.children_named(XMLNS, "credit"))?;
        let balance = e.optional_child_amount(XMLNS, "balance", "CreateData::balance")?;
        let credit_limit = e.optional_child_amount(
            XMLNS,
            "creditLimit",
            "CreateData::credit_limit",
        )?;
        Ok(CreateData { currency, fees, credits, balance, credit_limit })
    }
}

/// The reply to the fee extension of a renew: `<fee:renData>…</fee:renData>`.
#[derive(Debug, PartialEq, Eq)]
pub struct RenewData {
    pub currency: String,
    pub fees: Vec<Fee>,
    pub credits: Vec<Credit>,
    pub balance: Option<Amount>,
    pub credit_limit: Option<Amount>,
}

impl Response for RenewData {
    open spec fn bound_to(e: ElementModel) -> bool {
        e.ns == XMLNS@ && e.name == "renData"@
    }

    open spec fn decode_error(e: ElementModel) -> Option<DecodeError> {
        first_error(
            error_of(e.required_child_text(XMLNS@, "currency"@, "RenewData::currency")),
            first_error(
                all_error::<Fee>(e.children_named(XMLNS@, "fee"@)),
                first_error(
                    all_error::<Credit>(e.children_named(XMLNS@, "credit"@)),
                    first_error(
                        error_of(e.optional_child_amount(XMLNS@, "balance"@, "RenewData::balance")),
                        error_of(
                            e.optional_child_amount(
                                XMLNS@,
                                "creditLimit"@,
                                "RenewData::credit_limit",
                            ),
                        ),
                    ),
                ),
            ),
        )
    }

    open spec fn represents(&self, e: ElementModel) -> bool {
        &&& self.currency@ == value_of(
            e.required_child_text(XMLNS@, "currency"@, "RenewData::currency"),
        )
        &&& all_represent(self.fees@, e.children_named(XMLNS@, "fee"@))
        &&& all_represent(self.credits@, e.children_named(XMLNS@, "credit"@))
        &&& amount_model(self.balance) == value_of(
            e.optional_child_amount(XMLNS@, "balance"@, "RenewData::balance"),
        )
        &&& amount_model(self.credit_limit) == value_of(
            e.optional_child_amount(XMLNS@, "creditLimit"@, "RenewData::credit_limit"),
        )
    }

    fn matches(e: &Element) -> (r: bool) {
        e.is_named(XMLNS, "renData")
    }

    fn from_element(e: &Element) -> (r: Result<Self, DecodeError>) {
        let currency = e.required_child_text(XMLNS, "currency", "RenewData::currency")?.to_owned();
        let fees = decode_all::<Fee>(&e.children_named(XMLNS, "fee"))?;
        let credits = decode_all::<Credit>(&e.children_named(XMLNS, "credit"))?;
        let balance = e.optional_child_amount(XMLNS, "balance", "RenewData::balance")?;
        let credit_limit = e.optional_child_amount(
            XMLNS,
            "creditLimit",
            "RenewData::credit_limit",
        )?;
        Ok(RenewData { currency, fees, credits, balance, credit_limit })
    }
}

/// The reply to the fee extension of a transfer: `<fee:trnData>…</fee:trnData>`.
#[derive(Debug, PartialEq, Eq)]
pub struct TransferData {
    pub currency: String,
    pub period: Option<Period>,
    pub fees: Vec<Fee>,
    pub credits: Vec<Credit>,
    pub balance: Option<Amount>,
    pub credit_limit: Option<Amount>,
}

impl Response for TransferData {
    open spec fn bound_to(e: ElementModel) -> bool {
        e.ns == XMLNS@ && e.name == "trnData"@
    }

    open spec fn decode_error(e: ElementModel) -> Option<DecodeError> {
        first_error(
            error_of(e.required_child_text(XMLNS@, "currency"@, "TransferData::currency")),
            first_error(
                child_error::<Period>(e.optional_child(XMLNS@, "period"@, "TransferData::period")),
                first_error(
                    all_error::<Fee>(e.children_named(XMLNS@, "fee"@)),
                    first_error(
                        all_error::<Credit>(e.children_named(XMLNS@, "credit"@)),
                        first_error(
                            error_of(
                                e.optional_child_amount(
                                    XMLNS@,
                                    "balance"@,
                                    "TransferData::balance",
                                ),
                            ),
                            error_of(
                                e.optional_child_amount(
                                    XMLNS@,
                                    "creditLimit"@,
                                    "TransferData::credit_limit",
                                ),
                            ),
                        ),
                    ),
                ),
            ),
        )
    }

    open spec fn represents(&self, e: ElementModel) -> bool {
        &&& self.currency@ == value_of(
            e.required_child_text(XMLNS@, "currency"@, "TransferData::currency"),
        )
        &&& optional_represents(
            &self.period,
            value_of(e.optional_child(XMLNS@, "period"@, "TransferData::period")),
        )
        &&& all_represent(self.fees@, e.children_named(XMLNS@, "fee"@))
        &&& all_represent(self.credits@, e.children_named(XMLNS@, "credit"@))
        &&& amount_model(self.balance) == value_of(
            e.optional_child_amount(XMLNS@, "balance"@, "TransferData::balance"),
        )
        &&& amount_model(self.credit_limit) == value_of(
            e.optional_child_amount(XMLNS@, "creditLimit"@, "TransferData::credit_limit"),
        )
    }

    fn matches(e: &Element) -> (r: bool) {
        e.is_named(XMLNS, "trnData")
    }

    fn from_element(e: &Element) -> (r: Result<Self, DecodeError>) {
        let currency = e.required_child_text(
            XMLNS,
            "currency",
            "TransferData::currency",
        )?.to_owned();
        let period = decode_optional::<Period>(
            e.optional_child(XMLNS, "period", "TransferData::period")?,
        )?;
        let fees = decode_all::<Fee>(&e.children_named(XMLNS, "fee"))?;
        let credits = decode_all::<Credit>(&e.children_named(XMLNS, "credit"))?;
        let balance = e.optional_child_amount(XMLNS, "balance", "TransferData::balance")?;
        let credit_limit = e.optional_child_amount(
            XMLNS,
            "creditLimit",
            "TransferData::credit_limit",
        )?;
        Ok(TransferData { currency, period, fees, credits, balance, credit_limit })
    }
}

/// A fee check may accompany the check of a domain.
impl<'a> Accompanies<DomainCheck> for Check<'a> {
    proof fn declared() {
    }
}

/// The fee extension of a create may accompany the creation of a domain.
impl<'a> Accompanies<DomainCreate> for Create<'a> {
    proof fn declared() {
    }
}

/// The fee extension of a renew may accompany the renewal of a domain.
impl<'a> Accompanies<DomainRenew> for Renew<'a> {
    proof fn declared() {
    }
}

/// The fee extension of a transfer may accompany the transfer of a domain.
impl<'a> Accompanies<DomainTransfer> for Transfer<'a> {
    proof fn declared() {
    }
}

} // verus!
