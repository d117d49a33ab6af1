use vstd::prelude::*;
use core::marker::PhantomData;

use crate::generic::fields::FieldsProduct;
use crate::generic::names::HasName;
use crate::generic::variants::VariantFlavour;

verus! {

/// Generic struct representation
pub struct Struct<Name: HasName, Flavour: VariantFlavour, Fields: FieldsProduct> {
    /// Generic representation of fields
    pub fields: Fields,
    /// Type-level name of the struct
    pub name: PhantomData<Name>,
    /// Type-level flavour of the struct
    pub flavour: PhantomData<Flavour>,
}

impl<Name: HasName, Flavour: VariantFlavour, Fields: FieldsProduct> Struct<Name, Flavour, Fields> {
    /// Construct a generic struct representation from its fields.
    #[inline]
    pub fn new(fields: Fields) -> (repr: Self)
        ensures
            repr.fields == fields,
    {
        Self { fields, name: PhantomData, flavour: PhantomData }
    }
}

} // verus!
