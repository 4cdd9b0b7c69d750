//! What every extension has in common: how a request is written into the
//! extension section of a command, how a reply is read back, and which
//! extensions may accompany which commands.

use crate::element::{
    borrowed_models,
    element_models,
    push_child,
    str_model,
    Element,
    ElementModel,
};
use crate::error::{first_error, DecodeError};
use crate::xml::{document_tree, parse_document};
use vstd::prelude::*;

verus! {

/// The commands that an extension can accompany.
#[derive(Clone, Copy, Debug, PartialEq, Eq, Structural)]
pub enum CommandKind {
    Check,
    Create,
    Renew,
    Transfer,
    Update,
}

/// The extensions that a command can carry.
#[derive(Clone, Copy, Debug, PartialEq, Eq, Structural)]
pub enum ExtensionKind {
    FeeCheck,
    FeeCreate,
    FeeRenew,
    Fee07Check,
    Fee07Create,
    Fee07Renew,
    Fee07Transfer,
    Charge,
    ChargeAgreement,
    LaunchCheck,
    LaunchCreate,
    Composite,
}

/// The pairing relation: the pairs of command and extension that are
/// declared, and no others.
pub open spec fn paired(command: CommandKind, extension: ExtensionKind) -> bool {
    match extension {
        ExtensionKind::FeeCheck => command == CommandKind::Check,
        ExtensionKind::FeeCreate => command == CommandKind::Create,
        ExtensionKind::FeeRenew => command == CommandKind::Renew,
        ExtensionKind::Fee07Check => command == CommandKind::Check,
        ExtensionKind::Fee07Create => command == CommandKind::Create,
        ExtensionKind::Fee07Renew => command == CommandKind::Renew,
        ExtensionKind::Fee07Transfer => command == CommandKind::Transfer,
        ExtensionKind::Charge => command == CommandKind::Check,
        ExtensionKind::ChargeAgreement => command == CommandKind::Create || command
            == CommandKind::Renew,
        ExtensionKind::LaunchCheck => command == CommandKind::Check,
        ExtensionKind::LaunchCreate => command == CommandKind::Create,
        ExtensionKind::Composite => command == CommandKind::Update,
    }
}

/// Whether `extension` may accompany `command`.
pub fn is_paired(command: CommandKind, extension: ExtensionKind) -> (r: bool)
    ensures
        r == paired(command, extension),
{
    match extension {
        ExtensionKind::FeeCheck | ExtensionKind::Fee07Check | ExtensionKind::Charge
        | ExtensionKind::LaunchCheck => command == CommandKind::Check,
        ExtensionKind::FeeCreate | ExtensionKind::Fee07Create | ExtensionKind::LaunchCreate => {
            command == CommandKind::Create
        },
        ExtensionKind::FeeRenew | ExtensionKind::Fee07Renew => command == CommandKind::Renew,
        ExtensionKind::Fee07Transfer => command == CommandKind::Transfer,
        ExtensionKind::ChargeAgreement => command == CommandKind::Create || command
            == CommandKind::Renew,
        ExtensionKind::Composite => command == CommandKind::Update,
    }
}

/// A command, as a type: what [`CommandKind`] names, known when the program
/// is compiled.
pub trait Command {
    /// The kind of the command.
    spec fn spec_kind() -> CommandKind;

    /// The kind of the command.
    fn kind() -> (k: CommandKind)
        ensures
            k == Self::spec_kind(),
    ;
}

/// The check of a domain.
#[derive(Clone, Copy, Debug, PartialEq, Eq)]
pub struct DomainCheck;

/// The creation of a domain.
#[derive(Clone, Copy, Debug, PartialEq, Eq)]
pub struct DomainCreate;

/// The renewal of a domain.
#[derive(Clone, Copy, Debug, PartialEq, Eq)]
pub struct DomainRenew;

/// The transfer of a domain.
#[derive(Clone, Copy, Debug, PartialEq, Eq)]
pub struct DomainTransfer;

/// The update of a domain.
#[derive(Clone, Copy, Debug, PartialEq, Eq)]
pub struct DomainUpdate;

impl Command for DomainCheck {
    open spec fn spec_kind() -> CommandKind {
        CommandKind::Check
    }

    fn kind() -> (k: CommandKind) {
        CommandKind::Check
    }
}

impl Command for DomainCreate {
    open spec fn spec_kind() -> CommandKind {
        CommandKind::Create
    }

    fn kind() -> (k: CommandKind) {
        CommandKind::Create
    }
}

impl Command for DomainRenew {
    open spec fn spec_kind() -> CommandKind {
        CommandKind::Renew
    }

    fn kind() -> (k: CommandKind) {
        CommandKind::Renew
    }
}

impl Command for DomainTransfer {
    open spec fn spec_kind() -> CommandKind {
        CommandKind::Transfer
    }

    fn kind() -> (k: CommandKind) {
        CommandKind::Transfer
    }
}

impl Command for DomainUpdate {
    open spec fn spec_kind() -> CommandKind {
        CommandKind::Update
    }

    fn kind() -> (k: CommandKind) {
        CommandKind::Update
    }
}

/// An extension was attached to a command that it is not paired with.
#[derive(Clone, Copy, Debug, PartialEq, Eq, Structural)]
pub struct EligibilityError {
    pub command: CommandKind,
    pub extension: ExtensionKind,
}

/// A reply payload: a value that is read from one element.
pub trait Response: Sized {
    /// Whether `e` is the element that this type is bound to.
    spec fn bound_to(e: ElementModel) -> bool;

    /// The error that reading `e` gives, if it gives one.
    spec fn decode_error(e: ElementModel) -> Option<DecodeError>;

    /// Whether `self` holds, field by field, what `e` carries.
    spec fn represents(&self, e: ElementModel) -> bool;

    /// Whether `e` is the element that this type is bound to.
    fn matches(e: &Element) -> (r: bool)
        ensures
            r == Self::bound_to(e@),
    ;

    /// Reads a value from `e`.
    fn from_element(e: &Element) -> (r: Result<Self, DecodeError>)
        ensures
            match r {
                Ok(v) => Self::decode_error(e@) is None && v.represents(e@),
                Err(x) => Self::decode_error(e@) == Some(x),
            },
    ;
}

/// A value that is written as one element.
pub trait ToElement {
    /// The element that this value is written as.
    spec fn wire(&self) -> ElementModel;

    /// The element that this value is written as.
    fn to_element(&self) -> (e: Element)
        ensures
            e@ == self.wire(),
    ;
}

/// The elements that the values of `items` are written as, in order.
pub open spec fn wires<T: ToElement>(items: Seq<T>) -> Seq<ElementModel> {
    Seq::new(items.len(), |i: int| items[i].wire())
}

/// Appends the elements of `items` to `children`, in order.
pub fn push_all<T: ToElement>(children: &mut Vec<Element>, items: &Vec<T>)
    ensures
        element_models(final(children)@) == element_models(old(children)@) + wires(items@),
{
    let mut i: usize = 0;
    assert(element_models(children@) =~= element_models(old(children)@) + wires(items@).take(0));
    while i < items.len()
        invariant
            i <= items.len(),
            element_models(children@) == element_models(old(children)@) + wires(items@).take(
                i as int,
            ),
        decreases items.len() - i,
    {
        let e = items[i].to_element();
        push_child(children, e);
        assert(wires(items@).take(i + 1) =~= wires(items@).take(i as int).push(
            items@[i as int].wire(),
        ));
        assert(element_models(children@) =~= element_models(old(children)@) + wires(items@).take(
            i + 1,
        ));
        i = i + 1;
    }
    assert(wires(items@).take(i as int) =~= wires(items@));
}

/// Appends the element of `item` to `children`, where there is one.
pub fn push_optional<T: ToElement>(children: &mut Vec<Element>, item: &Option<T>)
    ensures
        element_models(final(children)@) == element_models(old(children)@) + optional_wire(item),
{
    match item {
        Some(v) => {
            push_child(children, v.to_element());
            assert(element_models(children@) =~= element_models(old(children)@) + optional_wire(
                item,
            ));
        },
        None => {
            assert(element_models(children@) =~= element_models(old(children)@) + optional_wire(
                item,
            ));
        },
    }
}

/// The element that an optional value is written as, where there is one.
pub open spec fn optional_wire<T: ToElement>(item: &Option<T>) -> Seq<ElementModel> {
    match item {
        Some(v) => seq![v.wire()],
        None => Seq::empty(),
    }
}

/// Appends the one element of `item` to the extension section `out`.
pub fn serialize_one<T: ToElement>(item: &T, out: &mut Vec<Element>)
    ensures
        element_models(final(out)@) == element_models(old(out)@) + seq![item.wire()],
{
    push_child(out, item.to_element());
    assert(element_models(out@) =~= element_models(old(out)@) + seq![item.wire()]);
}

/// A request payload: a value that is written into the extension section of
/// a command.
pub trait Extension {
    /// The payload expected in the reply.
    type Response: Response;

    /// The kind under which the pairing relation knows this type.
    spec fn spec_kind() -> ExtensionKind;

    /// The namespace that this type is bound to; none for a composite, whose
    /// children bring their own.
    spec fn spec_namespace() -> Option<Seq<char>>;

    /// Whether this value is to be written at all.
    spec fn spec_do_send(&self) -> bool;

    /// The elements that this value writes, in order.
    spec fn elements(&self) -> Seq<ElementModel>;

    /// The kind under which the pairing relation knows this type.
    fn kind() -> (k: ExtensionKind)
        ensures
            k == Self::spec_kind(),
    ;

    /// The namespace that this type is bound to; none for a composite, whose
    /// children bring their own.
    fn namespace() -> (ns: Option<&'static str>)
        ensures
            str_model(ns) == Self::spec_namespace(),
    ;

    /// Whether this value is to be written at all.
    fn do_send(&self) -> (b: bool)
        ensures
            b == self.spec_do_send(),
    ;

    /// Appends the elements of this value to the extension section `out`.
    fn serialize(&self, out: &mut Vec<Element>)
        ensures
            element_models(final(out)@) == element_models(old(out)@) + self.elements(),
    ;
}

/// The witness that an extension may accompany the command `C`. Only a pair
/// that the pairing relation holds can have one: each witness proves that
/// its pair is declared.
pub trait Accompanies<C: Command>: Extension {
    /// The pair of `C` and this extension is in the pairing relation.
    proof fn declared()
        ensures
            paired(C::spec_kind(), Self::spec_kind()),
    ;
}

/// The reply payload of an extension whose reply is not read.
#[derive(Clone, Copy, Debug, PartialEq, Eq, Structural)]
pub struct NoExtension;

impl Response for NoExtension {
    open spec fn bound_to(e: ElementModel) -> bool {
        false
    }

    open spec fn decode_error(e: ElementModel) -> Option<DecodeError> {
        None
    }

    open spec fn represents(&self, e: ElementModel) -> bool {
        true
    }

    fn matches(e: &Element) -> (r: bool) {
        false
    }

    fn from_element(e: &Element) -> (r: Result<Self, DecodeError>) {
        Ok(NoExtension)
    }
}

/// The error of reading an optional child as an `R`: that of finding it, or
/// that of reading it where it is there.
pub open spec fn child_error<R: Response>(
    child: Result<Option<ElementModel>, DecodeError>,
) -> Option<DecodeError> {
    match child {
        Err(x) => Some(x),
        Ok(None) => None,
        Ok(Some(c)) => R::decode_error(c),
    }
}

/// The error of reading a required child as an `R`: that of finding it, or
/// that of reading it.
pub open spec fn required_error<R: Response>(child: Result<ElementModel, DecodeError>) -> Option<
    DecodeError,
> {
    match child {
        Err(x) => Some(x),
        Ok(c) => R::decode_error(c),
    }
}

/// Whether `value` holds what the optional child `child` carries.
pub open spec fn optional_represents<R: Response>(
    value: &Option<R>,
    child: Option<ElementModel>,
) -> bool {
    match (value, child) {
        (Some(v), Some(c)) => v.represents(c),
        (None, None) => true,
        _ => false,
    }
}

/// Reads an optional child as an `R`, where it is there.
pub fn decode_optional<R: Response>(child: Option<&Element>) -> (r: Result<Option<R>, DecodeError>)
    ensures
        match r {
            Ok(Some(v)) => child matches Some(c) && R::decode_error(c@) is None && v.represents(
                c@,
            ),
            Ok(None) => child is None,
            Err(x) => child matches Some(c) && R::decode_error(c@) == Some(x),
        },
{
    match child {
        Some(c) => match R::from_element(c) {
            Ok(v) => Ok(Some(v)),
            Err(x) => Err(x),
        },
        None => Ok(None),
    }
}

/// The error of the first element of `items` that cannot be read as an `R`.
pub open spec fn all_error<R: Response>(items: Seq<ElementModel>) -> Option<DecodeError>
    decreases items.len(),
{
    if items.len() == 0 {
        None
    } else {
        first_error(all_error::<R>(items.drop_last()), R::decode_error(items.last()))
    }
}

/// Whether `values` holds, one for one and in order, what `items` carry.
pub open spec fn all_represent<R: Response>(values: Seq<R>, items: Seq<ElementModel>) -> bool {
    &&& values.len() == items.len()
    &&& forall|i: int| 0 <= i < values.len() ==> (#[trigger] values[i]).represents(items[i])
}

proof fn lemma_all_error_prefix<R: Response>(items: Seq<ElementModel>, k: int)
    requires
        0 <= k <= items.len(),
        all_error::<R>(items.take(k)) is Some,
    ensures
        all_error::<R>(items) == all_error::<R>(items.take(k)),
    decreases items.len(),
{
    if k == items.len() {
        assert(items.take(k) =~= items);
    } else {
        assert(items.drop_last().take(k) =~= items.take(k));
        lemma_all_error_prefix::<R>(items.drop_last(), k);
    }
}

/// Reads every element of `items` as an `R`, in order.
pub fn decode_all<R: Response>(items: &Vec<&Element>) -> (r: Result<Vec<R>, DecodeError>)
    ensures
        match r {
            Ok(v) => all_error::<R>(borrowed_models(items@)) is None && all_represent(
                v@,
                borrowed_models(items@),
            ),
            Err(x) => all_error::<R>(borrowed_models(items@)) == Some(x),
        },
{
    let mut values: Vec<R> = Vec::new();
    let mut i: usize = 0;
    let ghost models = borrowed_models(items@);
    assert(models.take(0) =~= Seq::empty());
    while i < items.len()
        invariant
            i <= items.len(),
            models == borrowed_models(items@),
            all_error::<R>(models.take(i as int)) is None,
            all_represent(values@, models.take(i as int)),
        decreases items.len() - i,
    {
        assert(models.take(i + 1).drop_last() =~= models.take(i as int));
        assert(models.take(i + 1).last() == items@[i as int]@);
        match R::from_element(items[i]) {
            Ok(v) => {
                values.push(v);
            },
            Err(x) => {
                proof {
                    lemma_all_error_prefix::<R>(models, i + 1);
                }
                return Err(x);
            },
        }
        i = i + 1;
    }
    assert(models.take(i as int) =~= models);
    Ok(values)
}

/// What an extension writes when it is asked to: its elements if it is to be
/// sent, nothing otherwise.
pub open spec fn sent<E: Extension>(extension: &E) -> Seq<ElementModel> {
    if extension.spec_do_send() {
        extension.elements()
    } else {
        Seq::empty()
    }
}

/// Appends what `extension` writes to the extension section `out`, if it is
/// to be sent.
pub fn serialize_if_sent<E: Extension>(extension: &E, out: &mut Vec<Element>)
    ensures
        element_models(final(out)@) == element_models(old(out)@) + sent(extension),
{
    if extension.do_send() {
        extension.serialize(out);
    } else {
        assert(element_models(out@) =~= element_models(out@) + Seq::empty());
    }
}

/// The elements of `items` that the reply type `R` is bound to, in order.
pub open spec fn bound_elements<R: Response>(items: Seq<ElementModel>) -> Seq<ElementModel>
    decreases items.len(),
{
    if items.len() == 0 {
        Seq::empty()
    } else {
        let rest = bound_elements::<R>(items.drop_last());
        if R::bound_to(items.last()) {
            rest.push(items.last())
        } else {
            rest
        }
    }
}

/// What reading a reply of type `R` from an extension section gives: nothing
/// where no element is bound to `R`, an error where several are or where the
/// one that is cannot be read.
pub open spec fn reply_error<R: Response>(section: Seq<ElementModel>) -> Option<DecodeError> {
    let found = bound_elements::<R>(section);
    if found.len() == 0 {
        None
    } else if found.len() == 1 {
        R::decode_error(found[0])
    } else {
        Some(DecodeError::DuplicateValue("extension"))
    }
}

/// Reads the reply of type `R` from the elements of an extension section.
pub fn decode_reply<R: Response>(section: &Vec<Element>) -> (r: Result<Option<R>, DecodeError>)
    ensures
        match r {
            Ok(Some(v)) => {
                let found = bound_elements::<R>(element_models(section@));
                found.len() == 1 && R::decode_error(found[0]) is None && v.represents(found[0])
            },
            Ok(None) => bound_elements::<R>(element_models(section@)).len() == 0,
            Err(x) => reply_error::<R>(element_models(section@)) == Some(x),
        },
{
    let mut first: Option<&Element> = None;
    let mut count: usize = 0;
    let mut i: usize = 0;
    let ghost all = element_models(section@);
    assert(all.take(0) =~= Seq::empty());
    while i < section.len()
        invariant
            i <= section.len(),
            all == element_models(section@),
            count == bound_elements::<R>(all.take(i as int)).len(),
            count <= i,
            count > 0 ==> first is Some && first->0@ == bound_elements::<R>(all.take(i as int))[0],
        decreases section.len() - i,
    {
        let e = &section[i];
        assert(all.take(i + 1).drop_last() =~= all.take(i as int));
        assert(all.take(i + 1).last() == e@);
        if R::matches(e) {
            if count == 0 {
                first = Some(e);
            }
            count = count + 1;
        }
        i = i + 1;
    }
    assert(all.take(i as int) =~= all);
    if count == 0 {
        Ok(None)
    } else if count == 1 {
        match R::from_element(first.unwrap()) {
            Ok(v) => Ok(Some(v)),
            Err(x) => Err(x),
        }
    } else {
        Err(DecodeError::DuplicateValue("extension"))
    }
}

/// Reads a reply of type `R` from a document whose root is the element that
/// `R` is bound to.
pub fn decode_document<R: Response>(input: &str) -> (r: Result<R, DecodeError>)
    ensures
        match r {
            Ok(v) => document_tree(input@) matches Ok(root) && R::bound_to(root)
                && R::decode_error(root) is None && v.represents(root),
            Err(x) => match document_tree(input@) {
                Err(error) => x == DecodeError::Malformed(error),
                Ok(root) => if R::bound_to(root) {
                    R::decode_error(root) == Some(x)
                } else {
                    x == DecodeError::UnexpectedElement
                },
            },
        },
{
    let root = parse_document(input)?;
    decode_root(&root)
}

/// Reads a reply of type `R` from the element `root`, which must be the one
/// that `R` is bound to.
pub fn decode_root<R: Response>(root: &Element) -> (r: Result<R, DecodeError>)
    ensures
        match r {
            Ok(v) => R::bound_to(root@) && R::decode_error(root@) is None && v.represents(root@),
            Err(x) => if R::bound_to(root@) {
                R::decode_error(root@) == Some(x)
            } else {
                x == DecodeError::UnexpectedElement
            },
        },
{
    if R::matches(root) {
        R::from_element(root)
    } else {
        Err(DecodeError::UnexpectedElement)
    }
}

/// An extension attached to a command that it is paired with.
#[derive(Debug)]
pub struct Transaction<E: Extension> {
    command: CommandKind,
    extension: E,
}

impl<E: Extension> Transaction<E> {
    #[verifier::type_invariant]
    closed spec fn eligible(&self) -> bool {
        paired(self.command, E::spec_kind())
    }

    /// The command.
    pub closed spec fn spec_command(&self) -> CommandKind {
        self.command
    }

    /// The extension.
    pub closed spec fn spec_extension(&self) -> &E {
        &self.extension
    }

    /// Attaches `extension` to `command`, if the two are paired.
    pub fn new(command: CommandKind, extension: E) -> (r: Result<Self, EligibilityError>)
        ensures
            match r {
                Ok(t) => paired(command, E::spec_kind()) && t.spec_command() == command
                    && *t.spec_extension() == extension,
                Err(e) => !paired(command, E::spec_kind()) && e == (EligibilityError {
                    command,
                    extension: E::spec_kind(),
                }),
            },
    {
        let kind = E::kind();
        if is_paired(command, kind) {
            Ok(Transaction { command, extension })
        } else {
            Err(EligibilityError { command, extension: kind })
        }
    }

    /// Attaches `extension` to the command `C`, which it has a witness for.
    /// Where there is no witness, the call does not compile.
    pub fn attach<C: Command>(extension: E) -> (t: Self) where E: Accompanies<C>
        ensures
            paired(C::spec_kind(), E::spec_kind()),
            t.spec_command() == C::spec_kind(),
            *t.spec_extension() == extension,
    {
        proof {
            E::declared();
        }
        Transaction { command: C::kind(), extension }
    }

    /// The command.
    pub fn command(&self) -> (c: CommandKind)
        ensures
            c == self.spec_command(),
            paired(c, E::spec_kind()),
    {
        proof {
            use_type_invariant(self);
        }
        self.command
    }

    /// The extension.
    pub fn extension(&self) -> (e: &E)
        ensures
            e == self.spec_extension(),
    {
        &self.extension
    }

    /// The extension section of the command: what the extension writes, which
    /// is nothing where it is not to be sent.
    pub fn encode(&self) -> (section: Vec<Element>)
        ensures
            element_models(section@) == sent(self.spec_extension()),
            paired(self.spec_command(), E::spec_kind()),
    {
        proof {
            use_type_invariant(self);
        }
        let mut section: Vec<Element> = Vec::new();
        assert(element_models(section@) =~= Seq::empty());
        serialize_if_sent(&self.extension, &mut section);
        assert(Seq::<ElementModel>::empty() + sent(&self.extension) =~= sent(&self.extension));
        section
    }

    /// Reads the reply to the command from the elements of its extension
    /// section.
    pub fn decode(&self, section: &Vec<Element>) -> (r: Result<Option<E::Response>, DecodeError>)
        ensures
            match r {
                Ok(Some(v)) => {
                    let found = bound_elements::<E::Response>(element_models(section@));
                    found.len() == 1 && E::Response::decode_error(found[0]) is None
                        && v.represents(found[0])
                },
                Ok(None) => bound_elements::<E::Response>(element_models(section@)).len() == 0,
                Err(x) => reply_error::<E::Response>(element_models(section@)) == Some(x),
            },
    {
        decode_reply::<E::Response>(section)
    }
}

} // verus!
