use vstd::prelude::*;
use core::marker::PhantomData;

use crate::generic::fields::FieldsProduct;
use crate::generic::names::HasName;
use crate::generic::names::HasNames;
use crate::generic::nums::Num;
use crate::generic::product::Cons;
use crate::generic::product::Nil;
use crate::generic::sum::SumVariants;

verus! {

/// [`VariantFlavour`] for tuple structs and tuple variants
pub struct TupleVariant;

/// [`VariantFlavour`] for structs and struct variants
pub struct StructVariant<Names: HasNames>(pub PhantomData<Names>);

/// [`VariantFlavour`] for unit structs and unit variants
pub struct UnitVariant;

/// Marker trait for variant flavours (tuple, struct, unit)
pub trait VariantFlavour {

}

impl VariantFlavour for TupleVariant {

}

impl<Names: HasNames> VariantFlavour for StructVariant<Names> {

}

impl VariantFlavour for UnitVariant {

}

/// Generic variant representation
pub struct Variant<Name, Idx, Flavour, Fields> where
    Name: HasName,
    Idx: Num,
    Flavour: VariantFlavour,
    Fields: FieldsProduct,
 {
    /// Generic representation of the variant's fields
    pub fields: Fields,
    /// Type-level position of the variant among its enum's variants
    pub idx: PhantomData<Idx>,
    /// Type-level flavour of the variant
    pub flavour: PhantomData<Flavour>,
    /// Type-level name of the variant
    pub name: PhantomData<Name>,
}

impl<Name, Idx, Flavour, Fields> Variant<Name, Idx, Flavour, Fields> where
    Name: HasName,
    Idx: Num,
    Flavour: VariantFlavour,
    Fields: FieldsProduct,
 {
    /// Construct a generic variant representation.
    #[inline]
    pub fn new(fields: Fields) -> (variant: Self)
        ensures
            variant.fields == fields,
    {
        Self { fields, idx: PhantomData, flavour: PhantomData, name: PhantomData }
    }
}

/// Products that consist of variant information types (e.g. [`Variant`])
pub trait VariantsProduct: SumVariants {

}

impl VariantsProduct for Nil {

}

impl<Name, Idx, Flavour, Fields, Tail> VariantsProduct for Cons<
    Variant<Name, Idx, Flavour, Fields>,
    Tail,
> where
    Name: HasName,
    Idx: Num,
    Flavour: VariantFlavour,
    Fields: FieldsProduct,
    Tail: VariantsProduct,
 {

}

} // verus!
