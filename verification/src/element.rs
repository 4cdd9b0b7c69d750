//! The element tree that payloads are mapped to and from, and the rules by
//! which a field is found in it: as an attribute, as a child element, or as
//! the direct text of the element.

use crate::amount::{is_number_text, lemma_number_text_is_trimmed, Amount};
use crate::error::DecodeError;
use crate::text::{
    bool_text,
    parse_bool,
    parse_u16,
    spec_bool_text,
    spec_parse_bool,
    spec_parse_u16,
    spec_trim,
    text_eq,
    trim,
};
use vstd::prelude::*;
use vstd::string::StrSliceExecFns;

verus! {

/// What an [`Attribute`] stands for.
pub struct AttributeModel {
    pub ns: Seq<char>,
    pub name: Seq<char>,
    pub value: Seq<char>,
}

/// What an [`Element`] stands for.
pub struct ElementModel {
    pub ns: Seq<char>,
    pub name: Seq<char>,
    pub attributes: Seq<AttributeModel>,
    pub text: Option<Seq<char>>,
    pub children: Seq<ElementModel>,
}

/// The identity of an element or an attribute: its namespace and its name.
#[derive(Clone, Copy, Debug, PartialEq, Eq)]
pub struct Id<'a> {
    pub ns: &'a str,
    pub name: &'a str,
}

/// An attribute of an element. `ns` is empty where the name has no prefix.
#[derive(Debug, PartialEq, Eq)]
pub struct Attribute {
    pub ns: String,
    pub name: String,
    pub value: String,
}

/// An element with its namespace, attributes, direct text and children in
/// document order.
#[derive(Debug, PartialEq, Eq)]
pub struct Element {
    pub ns: String,
    pub name: String,
    pub attributes: Vec<Attribute>,
    pub text: Option<String>,
    pub children: Vec<Element>,
}

impl View for Attribute {
    type V = AttributeModel;

    open spec fn view(&self) -> AttributeModel {
        AttributeModel { ns: self.ns@, name: self.name@, value: self.value@ }
    }
}

/// The models of a sequence of attributes.
pub open spec fn attribute_models(s: Seq<Attribute>) -> Seq<AttributeModel> {
    Seq::new(s.len(), |i: int| s[i]@)
}

/// The model of an optional text.
pub open spec fn text_model(t: Option<String>) -> Option<Seq<char>> {
    match t {
        Some(t) => Some(t@),
        None => None,
    }
}

/// The model of an optional borrowed text.
pub open spec fn str_model(t: Option<&str>) -> Option<Seq<char>> {
    match t {
        Some(t) => Some(t@),
        None => None,
    }
}

/// The model of an optional amount.
pub open spec fn amount_model(a: Option<Amount>) -> Option<Seq<char>> {
    match a {
        Some(a) => Some(a@),
        None => None,
    }
}

/// An owned copy of an optional text.
pub fn owned(t: Option<&str>) -> (r: Option<String>)
    ensures
        text_model(r) == str_model(t),
{
    match t {
        Some(t) => Some(t.to_owned()),
        None => None,
    }
}

/// The model of an element, child by child.
pub open spec fn element_model(e: Element) -> ElementModel
    decreases e,
{
    ElementModel {
        ns: e.ns@,
        name: e.name@,
        attributes: attribute_models(e.attributes@),
        text: text_model(e.text),
        children: Seq::new(
            e.children@.len(),
            |i: int|
                if 0 <= i < e.children@.len() {
                    element_model(e.children@[i])
                } else {
                    arbitrary()
                },
        ),
    }
}

impl Clone for Attribute {
    fn clone(&self) -> (r: Attribute)
        ensures
            r@ == self@,
    {
        Attribute { ns: self.ns.clone(), name: self.name.clone(), value: self.value.clone() }
    }
}

impl Clone for Element {
    fn clone(&self) -> (r: Element)
        ensures
            r@ == self@,
        decreases self,
    {
        let mut attributes: Vec<Attribute> = Vec::new();
        let mut i: usize = 0;
        while i < self.attributes.len()
            invariant
                i <= self.attributes.len(),
                attribute_models(attributes@) == attribute_models(self.attributes@).take(i as int),
            decreases self.attributes.len() - i,
        {
            let a = self.attributes[i].clone();
            proof {
                lemma_attributes_push(attributes@, a);
            }
            attributes.push(a);
            assert(attribute_models(attributes@) =~= attribute_models(self.attributes@).take(
                i + 1,
            ));
            i = i + 1;
        }
        assert(attribute_models(attributes@) =~= attribute_models(self.attributes@));
        let mut children: Vec<Element> = Vec::new();
        let mut j: usize = 0;
        while j < self.children.len()
            invariant
                j <= self.children.len(),
                element_models(children@) == element_models(self.children@).take(j as int),
            decreases self.children.len() - j,
        {
            let c = self.children[j].clone();
            proof {
                lemma_models_push(children@, c);
            }
            children.push(c);
            assert(element_models(children@) =~= element_models(self.children@).take(j + 1));
            j = j + 1;
        }
        assert(element_models(children@) =~= element_models(self.children@));
        let text = match &self.text {
            Some(t) => Some(t.clone()),
            None => None,
        };
        let r = Element {
            ns: self.ns.clone(),
            name: self.name.clone(),
            attributes,
            text,
            children,
        };
        proof {
            lemma_children_models(r);
            lemma_children_models(*self);
        }
        r
    }
}

impl View for Element {
    type V = ElementModel;

    open spec fn view(&self) -> ElementModel {
        element_model(*self)
    }
}

/// The models of a sequence of elements.
pub open spec fn element_models(s: Seq<Element>) -> Seq<ElementModel> {
    Seq::new(s.len(), |i: int| s[i]@)
}

/// The models of a sequence of borrowed elements.
pub open spec fn borrowed_models(s: Seq<&Element>) -> Seq<ElementModel> {
    Seq::new(s.len(), |i: int| s[i]@)
}

/// The children of an element's model are the models of its children.
pub proof fn lemma_children_models(e: Element)
    ensures
        e@.children == element_models(e.children@),
{
    assert(e@.children =~= element_models(e.children@));
}

/// Appending an element appends its model.
pub proof fn lemma_models_push(s: Seq<Element>, e: Element)
    ensures
        element_models(s.push(e)) == element_models(s).push(e@),
{
    assert(element_models(s.push(e)) =~= element_models(s).push(e@));
}

/// Appending an attribute appends its model.
pub proof fn lemma_attributes_push(s: Seq<Attribute>, a: Attribute)
    ensures
        attribute_models(s.push(a)) == attribute_models(s).push(a@),
{
    assert(attribute_models(s.push(a)) =~= attribute_models(s).push(a@));
}

/// The values of the attributes of `attributes` that carry the unprefixed
/// name `name`, in document order.
pub open spec fn values_named(attributes: Seq<AttributeModel>, name: Seq<char>) -> Seq<Seq<char>>
    decreases attributes.len(),
{
    if attributes.len() == 0 {
        Seq::empty()
    } else {
        let rest = values_named(attributes.drop_last(), name);
        let last = attributes.last();
        if last.ns.len() == 0 && last.name == name {
            rest.push(last.value)
        } else {
            rest
        }
    }
}

/// The elements of `children` that carry the namespace `ns` and the name
/// `name`, in document order.
pub open spec fn elements_named(children: Seq<ElementModel>, ns: Seq<char>, name: Seq<char>) -> Seq<
    ElementModel,
>
    decreases children.len(),
{
    if children.len() == 0 {
        Seq::empty()
    } else {
        let rest = elements_named(children.drop_last(), ns, name);
        let last = children.last();
        if last.ns == ns && last.name == name {
            rest.push(last)
        } else {
            rest
        }
    }
}

/// Among the attributes of a sequence with one more at its end, those named
/// `name` are those of the sequence, and the one more if it is named so.
pub proof fn lemma_values_named_push(
    attributes: Seq<AttributeModel>,
    last: AttributeModel,
    name: Seq<char>,
)
    ensures
        values_named(attributes.push(last), name) == if last.ns.len() == 0 && last.name == name {
            values_named(attributes, name).push(last.value)
        } else {
            values_named(attributes, name)
        },
{
    assert(attributes.push(last).drop_last() =~= attributes);
}

/// An amount that was written as the text of an element is read back as it
/// was written, digit for digit.
pub proof fn lemma_amount_read_back(e: ElementModel, amount: Seq<char>, field: &'static str)
    requires
        is_number_text(amount),
        e.text == Some(amount),
    ensures
        e.direct_amount(field) == Ok::<_, DecodeError>(amount),
{
    lemma_number_text_is_trimmed(amount);
}

impl ElementModel {
    /// The direct text: empty where the element has none.
    pub open spec fn direct_text(self) -> Seq<char> {
        match self.text {
            Some(t) => t,
            None => Seq::empty(),
        }
    }

    /// An attribute that may occur at most once.
    pub open spec fn optional_attribute(self, name: Seq<char>, field: &'static str) -> Result<
        Option<Seq<char>>,
        DecodeError,
    > {
        let values = values_named(self.attributes, name);
        if values.len() == 0 {
            Ok(None)
        } else if values.len() == 1 {
            Ok(Some(values[0]))
        } else {
            Err(DecodeError::DuplicateValue(field))
        }
    }

    /// An attribute that occurs exactly once.
    pub open spec fn required_attribute(self, name: Seq<char>, field: &'static str) -> Result<
        Seq<char>,
        DecodeError,
    > {
        match self.optional_attribute(name, field) {
            Ok(Some(v)) => Ok(v),
            Ok(None) => Err(DecodeError::MissingValue(field)),
            Err(e) => Err(e),
        }
    }

    /// The children with a given namespace and name, in document order.
    pub open spec fn children_named(self, ns: Seq<char>, name: Seq<char>) -> Seq<ElementModel> {
        elements_named(self.children, ns, name)
    }

    /// A child element that may occur at most once.
    pub open spec fn optional_child(
        self,
        ns: Seq<char>,
        name: Seq<char>,
        field: &'static str,
    ) -> Result<Option<ElementModel>, DecodeError> {
        let found = self.children_named(ns, name);
        if found.len() == 0 {
            Ok(None)
        } else if found.len() == 1 {
            Ok(Some(found[0]))
        } else {
            Err(DecodeError::DuplicateValue(field))
        }
    }

    /// A child element that occurs exactly once.
    pub open spec fn required_child(
        self,
        ns: Seq<char>,
        name: Seq<char>,
        field: &'static str,
    ) -> Result<ElementModel, DecodeError> {
        match self.optional_child(ns, name, field) {
            Ok(Some(c)) => Ok(c),
            Ok(None) => Err(DecodeError::MissingValue(field)),
            Err(e) => Err(e),
        }
    }

    /// The direct text of a child element that may occur at most once.
    pub open spec fn optional_child_text(
        self,
        ns: Seq<char>,
        name: Seq<char>,
        field: &'static str,
    ) -> Result<Option<Seq<char>>, DecodeError> {
        match self.optional_child(ns, name, field) {
            Ok(Some(c)) => Ok(Some(c.direct_text())),
            Ok(None) => Ok(None),
            Err(e) => Err(e),
        }
    }

    /// The direct text of a child element that occurs exactly once.
    pub open spec fn required_child_text(
        self,
        ns: Seq<char>,
        name: Seq<char>,
        field: &'static str,
    ) -> Result<Seq<char>, DecodeError> {
        match self.required_child(ns, name, field) {
            Ok(c) => Ok(c.direct_text()),
            Err(e) => Err(e),
        }
    }

    /// The direct text as an amount: trimmed, it must be the text of a number.
    pub open spec fn direct_amount(self, field: &'static str) -> Result<Seq<char>, DecodeError> {
        let t = spec_trim(self.direct_text());
        if is_number_text(t) {
            Ok(t)
        } else {
            Err(DecodeError::MalformedNumber(field))
        }
    }

    /// The direct text as an unsigned 16-bit number: trimmed, it must spell
    /// one.
    pub open spec fn direct_u16(self, field: &'static str) -> Result<u16, DecodeError> {
        match spec_parse_u16(spec_trim(self.direct_text())) {
            Some(n) => Ok(n),
            None => Err(DecodeError::MalformedNumber(field)),
        }
    }

    /// A boolean attribute that may occur at most once.
    pub open spec fn optional_bool_attribute(self, name: Seq<char>, field: &'static str) -> Result<
        Option<bool>,
        DecodeError,
    > {
        match self.optional_attribute(name, field) {
            Ok(Some(v)) => match spec_parse_bool(v) {
                Some(b) => Ok(Some(b)),
                None => Err(DecodeError::UnexpectedValue(field)),
            },
            Ok(None) => Ok(None),
            Err(e) => Err(e),
        }
    }

    /// The amount in the direct text of a child element that may occur at
    /// most once.
    pub open spec fn optional_child_amount(
        self,
        ns: Seq<char>,
        name: Seq<char>,
        field: &'static str,
    ) -> Result<Option<Seq<char>>, DecodeError> {
        match self.optional_child(ns, name, field) {
            Ok(Some(c)) => match c.direct_amount(field) {
                Ok(a) => Ok(Some(a)),
                Err(e) => Err(e),
            },
            Ok(None) => Ok(None),
            Err(e) => Err(e),
        }
    }
}

/// The model of an attribute without a namespace.
pub open spec fn attribute_of(name: Seq<char>, value: Seq<char>) -> AttributeModel {
    AttributeModel { ns: Seq::empty(), name, value }
}

/// The model of an attribute that is written only where it has a value.
pub open spec fn optional_attribute_of(name: Seq<char>, value: Option<Seq<char>>) -> Seq<
    AttributeModel,
> {
    match value {
        Some(v) => seq![attribute_of(name, v)],
        None => Seq::empty(),
    }
}

/// The model of an element that holds nothing but text.
pub open spec fn leaf_of(ns: Seq<char>, name: Seq<char>, text: Seq<char>) -> ElementModel {
    ElementModel { ns, name, attributes: Seq::empty(), text: Some(text), children: Seq::empty() }
}

/// The model of a text element that is written only where it has a value.
pub open spec fn optional_leaf_of(ns: Seq<char>, name: Seq<char>, text: Option<Seq<char>>) -> Seq<
    ElementModel,
> {
    match text {
        Some(t) => seq![leaf_of(ns, name, t)],
        None => Seq::empty(),
    }
}

/// The model of an optional boolean, as its text.
pub open spec fn bool_model(b: Option<bool>) -> Option<Seq<char>> {
    match b {
        Some(b) => Some(spec_bool_text(b)),
        None => None,
    }
}

/// Appends the attribute `name` to `attributes`.
pub fn push_attribute(attributes: &mut Vec<Attribute>, name: &str, value: &str)
    ensures
        attribute_models(final(attributes)@) == attribute_models(old(attributes)@).push(
            attribute_of(name@, value@),
        ),
{
    let a = attribute(name, value);
    proof {
        lemma_attributes_push(attributes@, a);
    }
    attributes.push(a);
}

/// Appends the attribute `name` to `attributes`, where it has a value.
pub fn push_optional_attribute(attributes: &mut Vec<Attribute>, name: &str, value: Option<&str>)
    ensures
        attribute_models(final(attributes)@) == attribute_models(old(attributes)@)
            + optional_attribute_of(name@, str_model(value)),
{
    match value {
        Some(v) => {
            push_attribute(attributes, name, v);
            assert(attribute_models(attributes@) =~= attribute_models(old(attributes)@)
                + optional_attribute_of(name@, str_model(value)));
        },
        None => {
            assert(attribute_models(attributes@) =~= attribute_models(old(attributes)@)
                + optional_attribute_of(name@, str_model(value)));
        },
    }
}

/// Appends the boolean attribute `name` to `attributes`, where it has a
/// value.
pub fn push_optional_bool_attribute(
    attributes: &mut Vec<Attribute>,
    name: &str,
    value: Option<bool>,
)
    ensures
        attribute_models(final(attributes)@) == attribute_models(old(attributes)@)
            + optional_attribute_of(name@, bool_model(value)),
{
    match value {
        Some(b) => push_optional_attribute(attributes, name, Some(bool_text(b))),
        None => push_optional_attribute(attributes, name, None),
    }
}

/// Appends `child` to `children`.
pub fn push_child(children: &mut Vec<Element>, child: Element)
    ensures
        element_models(final(children)@) == element_models(old(children)@).push(child@),
{
    proof {
        lemma_models_push(children@, child);
    }
    children.push(child);
}

/// Appends a text element to `children`, where it has a value.
pub fn push_optional_leaf(children: &mut Vec<Element>, ns: &str, name: &str, text: Option<&str>)
    ensures
        element_models(final(children)@) == element_models(old(children)@) + optional_leaf_of(
            ns@,
            name@,
            str_model(text),
        ),
{
    match text {
        Some(t) => {
            push_child(children, Element::leaf(ns, name, t));
            assert(element_models(children@) =~= element_models(old(children)@)
                + optional_leaf_of(ns@, name@, str_model(text)));
        },
        None => {
            assert(element_models(children@) =~= element_models(old(children)@)
                + optional_leaf_of(ns@, name@, str_model(text)));
        },
    }
}

/// An attribute without a namespace.
pub fn attribute(name: &str, value: &str) -> (a: Attribute)
    ensures
        a@ == (AttributeModel { ns: Seq::empty(), name: name@, value: value@ }),
{
    Attribute { ns: String::new(), name: name.to_owned(), value: value.to_owned() }
}

impl Element {
    /// An element made of its parts.
    pub fn new(
        ns: &str,
        name: &str,
        attributes: Vec<Attribute>,
        text: Option<String>,
        children: Vec<Element>,
    ) -> (e: Element)
        ensures
            e@ == (ElementModel {
                ns: ns@,
                name: name@,
                attributes: attribute_models(attributes@),
                text: text_model(text),
                children: element_models(children@),
            }),
    {
        let e = Element { ns: ns.to_owned(), name: name.to_owned(), attributes, text, children };
        proof {
            lemma_children_models(e);
        }
        e
    }

    /// An element that holds nothing but text.
    pub fn leaf(ns: &str, name: &str, text: &str) -> (e: Element)
        ensures
            e@ == (ElementModel {
                ns: ns@,
                name: name@,
                attributes: Seq::empty(),
                text: Some(text@),
                children: Seq::empty(),
            }),
    {
        let e = Element::new(ns, name, Vec::new(), Some(text.to_owned()), Vec::new());
        assert(e@.attributes =~= Seq::empty());
        assert(e@.children =~= Seq::empty());
        e
    }

    /// Whether the element carries the namespace `ns` and the name `name`.
    pub fn is_named(&self, ns: &str, name: &str) -> (r: bool)
        ensures
            r == (self@.ns == ns@ && self@.name == name@),
    {
        text_eq(self.ns.as_str(), ns) && text_eq(self.name.as_str(), name)
    }

    /// The value of the attribute `name`, which may occur at most once.
    pub fn optional_attribute(&self, name: &str, field: &'static str) -> (r: Result<
        Option<&str>,
        DecodeError,
    >)
        ensures
            match r {
                Ok(v) => self@.optional_attribute(name@, field) == Ok::<_, DecodeError>(
                    str_model(v),
                ),
                Err(e) => self@.optional_attribute(name@, field) == Err::<Option<Seq<char>>, _>(e),
            },
    {
        let mut first: Option<&str> = None;
        let mut count: usize = 0;
        let mut i: usize = 0;
        let ghost all = self@.attributes;
        assert(all.take(0) =~= Seq::empty());
        while i < self.attributes.len()
            invariant
                i <= self.attributes.len(),
                all == attribute_models(self.attributes@),
                count == values_named(all.take(i as int), name@).len(),
                count <= i,
                count > 0 ==> first is Some && first->0@ == values_named(
                    all.take(i as int),
                    name@,
                )[0],
            decreases self.attributes.len() - i,
        {
            let a = &self.attributes[i];
            assert(all.take(i + 1).drop_last() =~= all.take(i as int));
            assert(all.take(i + 1).last() == a@);
            if a.ns.as_str().unicode_len() == 0 && text_eq(a.name.as_str(), name) {
                if count == 0 {
                    first = Some(a.value.as_str());
                }
                count = count + 1;
            }
            i = i + 1;
        }
        assert(all.take(i as int) =~= all);
        if count == 0 {
            Ok(None)
        } else if count == 1 {
            Ok(first)
        } else {
            Err(DecodeError::DuplicateValue(field))
        }
    }

    /// The value of the attribute `name`, which occurs exactly once.
    pub fn required_attribute(&self, name: &str, field: &'static str) -> (r: Result<
        &str,
        DecodeError,
    >)
        ensures
            match r {
                Ok(v) => self@.required_attribute(name@, field) == Ok::<_, DecodeError>(v@),
                Err(e) => self@.required_attribute(name@, field) == Err::<Seq<char>, _>(e),
            },
    {
        match self.optional_attribute(name, field) {
            Ok(Some(v)) => Ok(v),
            Ok(None) => Err(DecodeError::MissingValue(field)),
            Err(e) => Err(e),
        }
    }

    /// The children with the namespace `ns` and the name `name`, in document
    /// order.
    pub fn children_named(&self, ns: &str, name: &str) -> (r: Vec<&Element>)
        ensures
            borrowed_models(r@) == self@.children_named(ns@, name@),
    {
        let mut found: Vec<&Element> = Vec::new();
        let mut i: usize = 0;
        let ghost all = self@.children;
        proof {
            lemma_children_models(*self);
        }
        assert(all.take(0) =~= Seq::empty());
        assert(borrowed_models(found@) =~= Seq::empty());
        while i < self.children.len()
            invariant
                i <= self.children.len(),
                all == element_models(self.children@),
                borrowed_models(found@) == elements_named(all.take(i as int), ns@, name@),
            decreases self.children.len() - i,
        {
            let c = &self.children[i];
            assert(all.take(i + 1).drop_last() =~= all.take(i as int));
            assert(all.take(i + 1).last() == c@);
            if c.is_named(ns, name) {
                let ghost before = found@;
                found.push(c);
                assert(borrowed_models(found@) =~= borrowed_models(before).push(c@));
            }
            i = i + 1;
        }
        assert(all.take(i as int) =~= all);
        found
    }

    /// The child with the namespace `ns` and the name `name`, which may occur
    /// at most once.
    pub fn optional_child(&self, ns: &str, name: &str, field: &'static str) -> (r: Result<
        Option<&Element>,
        DecodeError,
    >)
        ensures
            match r {
                Ok(Some(c)) => self@.optional_child(ns@, name@, field) == Ok::<_, DecodeError>(
                    Some(c@),
                ),
                Ok(None) => self@.optional_child(ns@, name@, field) == Ok::<
                    Option<ElementModel>,
                    DecodeError,
                >(None),
                Err(e) => self@.optional_child(ns@, name@, field) == Err::<
                    Option<ElementModel>,
                    _,
                >(e),
            },
    {
        let found = self.children_named(ns, name);
        if found.len() == 0 {
            Ok(None)
        } else if found.len() == 1 {
            let c = found[0];
            assert(borrowed_models(found@)[0] == c@);
            Ok(Some(c))
        } else {
            Err(DecodeError::DuplicateValue(field))
        }
    }

    /// The child with the namespace `ns` and the name `name`, which occurs
    /// exactly once.
    pub fn required_child(&self, ns: &str, name: &str, field: &'static str) -> (r: Result<
        &Element,
        DecodeError,
    >)
        ensures
            match r {
                Ok(c) => self@.required_child(ns@, name@, field) == Ok::<_, DecodeError>(c@),
                Err(e) => self@.required_child(ns@, name@, field) == Err::<ElementModel, _>(e),
            },
    {
        match self.optional_child(ns, name, field) {
            Ok(Some(c)) => Ok(c),
            Ok(None) => Err(DecodeError::MissingValue(field)),
            Err(e) => Err(e),
        }
    }

    /// The direct text of the child with the namespace `ns` and the name
    /// `name`, which may occur at most once.
    pub fn optional_child_text(&self, ns: &str, name: &str, field: &'static str) -> (r: Result<
        Option<&str>,
        DecodeError,
    >)
        ensures
            match r {
                Ok(v) => self@.optional_child_text(ns@, name@, field) == Ok::<_, DecodeError>(
                    str_model(v),
                ),
                Err(e) => self@.optional_child_text(ns@, name@, field) == Err::<
                    Option<Seq<char>>,
                    _,
                >(e),
            },
    {
        match self.optional_child(ns, name, field) {
            Ok(Some(c)) => Ok(Some(c.direct_text())),
            Ok(None) => Ok(None),
            Err(e) => Err(e),
        }
    }

    /// The direct text of the child with the namespace `ns` and the name
    /// `name`, which occurs exactly once.
    pub fn required_child_text(&self, ns: &str, name: &str, field: &'static str) -> (r: Result<
        &str,
        DecodeError,
    >)
        ensures
            match r {
                Ok(v) => self@.required_child_text(ns@, name@, field) == Ok::<_, DecodeError>(v@),
                Err(e) => self@.required_child_text(ns@, name@, field) == Err::<Seq<char>, _>(e),
            },
    {
        match self.required_child(ns, name, field) {
            Ok(c) => Ok(c.direct_text()),
            Err(e) => Err(e),
        }
    }

    /// The direct text as an amount.
    pub fn direct_amount(&self, field: &'static str) -> (r: Result<Amount, DecodeError>)
        ensures
            match r {
                Ok(a) => self@.direct_amount(field) == Ok::<_, DecodeError>(a@),
                Err(e) => self@.direct_amount(field) == Err::<Seq<char>, _>(e),
            },
    {
        match Amount::parse(trim(self.direct_text())) {
            Some(a) => Ok(a),
            None => Err(DecodeError::MalformedNumber(field)),
        }
    }

    /// The direct text as an unsigned 16-bit number.
    pub fn direct_u16(&self, field: &'static str) -> (r: Result<u16, DecodeError>)
        ensures
            r == self@.direct_u16(field),
    {
        match parse_u16(trim(self.direct_text())) {
            Some(n) => Ok(n),
            None => Err(DecodeError::MalformedNumber(field)),
        }
    }

    /// The value of the boolean attribute `name`, which may occur at most
    /// once.
    pub fn optional_bool_attribute(&self, name: &str, field: &'static str) -> (r: Result<
        Option<bool>,
        DecodeError,
    >)
        ensures
            r == self@.optional_bool_attribute(name@, field),
    {
        match self.optional_attribute(name, field) {
            Ok(Some(v)) => match parse_bool(v) {
                Some(b) => Ok(Some(b)),
                None => Err(DecodeError::UnexpectedValue(field)),
            },
            Ok(None) => Ok(None),
            Err(e) => Err(e),
        }
    }

    /// The amount in the direct text of the child with the namespace `ns` and
    /// the name `name`, which may occur at most once.
    pub fn optional_child_amount(&self, ns: &str, name: &str, field: &'static str) -> (r: Result<
        Option<Amount>,
        DecodeError,
    >)
        ensures
            match r {
                Ok(v) => self@.optional_child_amount(ns@, name@, field) == Ok::<_, DecodeError>(
                    amount_model(v),
                ),
                Err(e) => self@.optional_child_amount(ns@, name@, field) == Err::<
                    Option<Seq<char>>,
                    _,
                >(e),
            },
    {
        match self.optional_child(ns, name, field) {
            Ok(Some(c)) => match c.direct_amount(field) {
                Ok(a) => Ok(Some(a)),
                Err(e) => Err(e),
            },
            Ok(None) => Ok(None),
            Err(e) => Err(e),
        }
    }

    /// The direct text: empty where the element has none.
    pub fn direct_text(&self) -> (r: &str)
        ensures
            r@ == self@.direct_text(),
    {
        match &self.text {
            Some(t) => t.as_str(),
            None => {
                proof {
                    reveal_strlit("");
                }
                assert(""@ =~= Seq::<char>::empty());
                ""
            },
        }
    }
}

} // verus!
