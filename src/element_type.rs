//! The capabilities shared by every kind of RDF term.

use vstd::prelude::*;
use crate::db_operation_cache::{DbOperationCacheValue, ValueModel, models};
use crate::type_part::{TypePart, non_blank_count};

verus! {

/// A kind of term: its column layout, the values it stores, and its kind name.
pub trait ElementType: Sized {
    /// The column layout of this term.
    spec fn type_parts_spec(&self) -> Seq<TypePart>;

    /// The values this term stores, one for each non-blank slot of its layout.
    spec fn values_spec(&self) -> Seq<ValueModel>;

    /// The kind name of this term.
    spec fn name_spec(&self) -> Seq<char>;

    fn get_type_parts(&self) -> (r: Vec<TypePart>)
        ensures
            r@ == self.type_parts_spec(),
    ;

    fn values(&self) -> (r: Vec<DbOperationCacheValue>)
        ensures
            models(r@) == self.values_spec(),
    ;

    fn name(&self) -> (r: &'static str)
        ensures
            r@ == self.name_spec(),
    ;

    /// Each non-blank slot of the layout gets exactly one stored value.
    proof fn lemma_values_fill_layout(&self)
        ensures
            self.values_spec().len() == non_blank_count(self.type_parts_spec()),
    ;
}

} // verus!
