//! Two extensions that travel together in one extension section.
//!
//! A composite writes its first child, then its second, each only if that
//! child is to be sent. The children are not wrapped: their elements stand
//! side by side in the section. A child may itself be a composite. The three
//! composites differ in the reply that is read: none, that of the first
//! child, or that of the second.

use crate::element::{element_models, Element, ElementModel};
use crate::request::{
    sent,
    serialize_if_sent,
    Accompanies,
    DomainUpdate,
    Extension,
    ExtensionKind,
    NoExtension,
};
use vstd::prelude::*;

verus! {

/// What a pair of extensions writes: the first child, then the second, each
/// only if it is to be sent.
pub open spec fn pair_elements<E1: Extension, E2: Extension>(first: &E1, second: &E2) -> Seq<
    ElementModel,
> {
    sent(first) + sent(second)
}

fn serialize_pair<E1: Extension, E2: Extension>(first: &E1, second: &E2, out: &mut Vec<Element>)
    ensures
        element_models(final(out)@) == element_models(old(out)@) + pair_elements(first, second),
{
    serialize_if_sent(first, out);
    serialize_if_sent(second, out);
    assert(element_models(out@) =~= element_models(old(out)@) + pair_elements(first, second));
}

/// Two extensions sent together; the reply is not read.
#[derive(Debug)]
pub struct CompositeExt<E1: Extension, E2: Extension> {
    pub first: E1,
    pub second: E2,
}

/// Two extensions sent together; the reply is that of the first.
#[derive(Debug)]
pub struct CompositeFirst<E1: Extension, E2: Extension> {
    pub first: E1,
    pub second: E2,
}

/// Two extensions sent together; the reply is that of the second.
#[derive(Debug)]
pub struct CompositeSecond<E1: Extension, E2: Extension> {
    pub first: E1,
    pub second: E2,
}

impl<E1: Extension, E2: Extension> Extension for CompositeExt<E1, E2> {
    type Response = NoExtension;

    open spec fn spec_kind() -> ExtensionKind {
        ExtensionKind::Composite
    }

    open spec fn spec_namespace() -> Option<Seq<char>> {
        None
    }

    open spec fn spec_do_send(&self) -> bool {
        true
    }

    open spec fn elements(&self) -> Seq<ElementModel> {
        pair_elements(&self.first, &self.second)
    }

    fn kind() -> (k: ExtensionKind) {
        ExtensionKind::Composite
    }

    fn namespace() -> (ns: Option<&'static str>) {
        None
    }

    fn do_send(&self) -> (b: bool) {
        true
    }

    fn serialize(&self, out: &mut Vec<Element>) {
        serialize_pair(&self.first, &self.second, out);
    }
}

impl<E1: Extension, E2: Extension> Extension for CompositeFirst<E1, E2> {
    type Response = E1::Response;

    open spec fn spec_kind() -> ExtensionKind {
        ExtensionKind::Composite
    }

    open spec fn spec_namespace() -> Option<Seq<char>> {
        None
    }

    open spec fn spec_do_send(&self) -> bool {
        true
    }

    open spec fn elements(&self) -> Seq<ElementModel> {
        pair_elements(&self.first, &self.second)
    }

    fn kind() -> (k: ExtensionKind) {
        ExtensionKind::Composite
    }

    fn namespace() -> (ns: Option<&'static str>) {
        None
    }

    fn do_send(&self) -> (b: bool) {
        true
    }

    fn serialize(&self, out: &mut Vec<Element>) {
        serialize_pair(&self.first, &self.second, out);
    }
}

impl<E1: Extension, E2: Extension> Extension for CompositeSecond<E1, E2> {
    type Response = E2::Response;

    open spec fn spec_kind() -> ExtensionKind {
        ExtensionKind::Composite
    }

    open spec fn spec_namespace() -> Option<Seq<char>> {
        None
    }

    open spec fn spec_do_send(&self) -> bool {
        true
    }

    open spec fn elements(&self) -> Seq<ElementModel> {
        pair_elements(&self.first, &self.second)
    }

    fn kind() -> (k: ExtensionKind) {
        ExtensionKind::Composite
    }

    fn namespace() -> (ns: Option<&'static str>) {
        None
    }

    fn do_send(&self) -> (b: bool) {
        true
    }

    fn serialize(&self, out: &mut Vec<Element>) {
        serialize_pair(&self.first, &self.second, out);
    }
}

/// The three composites of the same two children write the same elements;
/// they differ only in the reply that is read.
pub proof fn lemma_policies_write_alike<E1: Extension, E2: Extension>(
    none: CompositeExt<E1, E2>,
    first: CompositeFirst<E1, E2>,
    second: CompositeSecond<E1, E2>,
)
    requires
        none.first == first.first,
        none.first == second.first,
        none.second == first.second,
        none.second == second.second,
    ensures
        first.elements() == none.elements(),
        second.elements() == none.elements(),
        first.spec_do_send() && second.spec_do_send() && none.spec_do_send(),
{
}

/// A composite whose first child is not to be sent and whose second is
/// writes the elements of the second child and nothing else.
pub proof fn lemma_only_second_sent<E1: Extension, E2: Extension>(c: CompositeExt<E1, E2>)
    requires
        !c.first.spec_do_send(),
        c.second.spec_do_send(),
    ensures
        c.elements() == c.second.elements(),
        sent(&c) == c.second.elements(),
{
    assert(Seq::<ElementModel>::empty() + c.second.elements() =~= c.second.elements());
}

/// A composite neither of whose children is to be sent is still sent itself,
/// and writes an empty extension section.
pub proof fn lemma_neither_sent<E1: Extension, E2: Extension>(c: CompositeExt<E1, E2>)
    requires
        !c.first.spec_do_send(),
        !c.second.spec_do_send(),
    ensures
        c.spec_do_send(),
        sent(&c) == Seq::<ElementModel>::empty(),
{
    assert(Seq::<ElementModel>::empty() + Seq::<ElementModel>::empty() =~= Seq::<
        ElementModel,
    >::empty());
}

/// Nesting keeps the order of the leaves: a composite whose first child is a
/// composite of `a` and `b`, and one whose second child is a composite of `b`
/// and `c`, both write `a`, then `b`, then `c`, each only if it is to be sent.
pub proof fn lemma_nesting_keeps_order<A: Extension, B: Extension, C: Extension>(
    left: CompositeExt<CompositeExt<A, B>, C>,
    right: CompositeExt<A, CompositeExt<B, C>>,
)
    ensures
        left.elements() == sent(&left.first.first) + sent(&left.first.second) + sent(&left.second),
        right.elements() == sent(&right.first) + sent(&right.second.first) + sent(
            &right.second.second,
        ),
{
    assert(right.elements() =~= sent(&right.first) + sent(&right.second.first) + sent(
        &right.second.second,
    ));
}

/// Three levels of nesting write the four leaves from left to right, each
/// only if it is to be sent.
pub proof fn lemma_three_levels_keep_order<A: Extension, B: Extension, C: Extension, D: Extension>(
    c: CompositeExt<CompositeExt<CompositeExt<A, B>, C>, D>,
)
    ensures
        c.elements() == sent(&c.first.first.first) + sent(&c.first.first.second) + sent(
            &c.first.second,
        ) + sent(&c.second),
{
}

/// A composite may accompany the update of a domain.
impl<E1: Extension, E2: Extension> Accompanies<DomainUpdate> for CompositeExt<E1, E2> {
    proof fn declared() {
    }
}

/// A composite may accompany the update of a domain.
impl<E1: Extension, E2: Extension> Accompanies<DomainUpdate> for CompositeFirst<E1, E2> {
    proof fn declared() {
    }
}

/// A composite may accompany the update of a domain.
impl<E1: Extension, E2: Extension> Accompanies<DomainUpdate> for CompositeSecond<E1, E2> {
    proof fn declared() {
    }
}

} // verus!
