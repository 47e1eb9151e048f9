//! The registry of built-in checks.
use vstd::prelude::*;
use super::catalog::{build_catalog, catalog_len, check_of, entry_spec, CatalogCheck, CheckView};
use crate::text::str_eq;

verus! {

/// The models of a sequence of checks.
pub open spec fn check_views(v: Seq<CatalogCheck>) -> Seq<CheckView> {
    v.map_values(|c: CatalogCheck| c@)
}

/// The catalog as models, in listing order.
pub open spec fn catalog_views() -> Seq<CheckView> {
    Seq::new(catalog_len(), |i: int| check_of(entry_spec(i)))
}

/// Every built-in check, in catalog order.
pub struct CheckRegistry {
    pub checks: Vec<CatalogCheck>,
}

impl CheckRegistry {
    /// The registry of the whole catalog.
    pub fn new() -> (r: CheckRegistry)
        ensures
            check_views(r.checks@) == catalog_views(),
    {
        let checks = build_catalog();
        proof {
            assert(check_views(checks@) =~= catalog_views());
        }
        CheckRegistry { checks }
    }

    /// The checks, in catalog order.
    pub fn iter(&self) -> (r: &Vec<CatalogCheck>)
        ensures
            r@ == self.checks@,
    {
        &self.checks
    }

    /// The first check with the given id, if any.
    pub fn find(&self, id: &str) -> (r: Option<&CatalogCheck>)
        ensures
            match r {
                Some(c) => exists|i: int|
                    0 <= i < self.checks@.len() && self.checks@[i] == *c && c@.id == id@ && forall|j: int|
                        0 <= j < i ==> (#[trigger] self.checks@[j])@.id != id@,
                None => forall|i: int| 0 <= i < self.checks@.len() ==> (#[trigger] self.checks@[i])@.id != id@,
            },
    {
        let mut i: usize = 0;
        while i < self.checks.len()
            invariant
                i <= self.checks@.len(),
                forall|j: int| 0 <= j < i ==> (#[trigger] self.checks@[j])@.id != id@,
            decreases self.checks@.len() - i,
        {
            if str_eq(self.checks[i].metadata.id, id) {
                return Some(&self.checks[i]);
            }
            i = i + 1;
        }
        None
    }
}

} // verus!
