//! The extension namespaces, one module each, and their composition.

use crate::text::text_eq;
use vstd::prelude::*;

pub mod charge;
pub mod composite;
pub mod fee;
pub mod fee07;
pub mod launch;

verus! {

/// Whether `ns` is one of the namespaces that the extensions write.
pub open spec fn is_known_namespace(ns: Seq<char>) -> bool {
    ||| ns == fee::XMLNS@
    ||| ns == fee07::XMLNS@
    ||| ns == charge::XMLNS@
    ||| ns == launch::XMLNS@
    ||| ns == launch::SMD_XMLNS@
}

/// The constant that spells `ns`, where `ns` is one of the namespaces that
/// the extensions write.
pub fn known_namespace(ns: &str) -> (r: Option<&'static str>)
    ensures
        match r {
            Some(k) => k@ == ns@ && is_known_namespace(ns@),
            None => !is_known_namespace(ns@),
        },
{
    if text_eq(ns, fee::XMLNS) {
        Some(fee::XMLNS)
    } else if text_eq(ns, fee07::XMLNS) {
        Some(fee07::XMLNS)
    } else if text_eq(ns, charge::XMLNS) {
        Some(charge::XMLNS)
    } else if text_eq(ns, launch::XMLNS) {
        Some(launch::XMLNS)
    } else if text_eq(ns, launch::SMD_XMLNS) {
        Some(launch::SMD_XMLNS)
    } else {
        None
    }
}

} // verus!
