use vstd::prelude::*;
use core::marker::PhantomData;

use crate::generic::names::HasName;
use crate::generic::names::HasNames;
use crate::generic::sum::Sum;
use crate::generic::variants::VariantsProduct;

verus! {

/// Generic enum representation
pub struct Enum<Name: HasName, VariantNames: HasNames, Variants: VariantsProduct> {
    /// Active variant of the enum
    pub variant: Sum<Variants>,
    /// Type-level name of the enum
    pub name: PhantomData<Name>,
    /// Type-level names of the enum's variants
    pub variant_names: PhantomData<VariantNames>,
}

impl<Name, VariantNames, Variants> Enum<Name, VariantNames, Variants> where
    Name: HasName,
    VariantNames: HasNames,
    Variants: VariantsProduct,
 {
    /// Create a generic enum representation from a variant.
    #[inline]
    pub fn new(variant: Sum<Variants>) -> (repr: Self)
        ensures
            repr.variant == variant,
    {
        Self { variant, name: PhantomData, variant_names: PhantomData }
    }
}

} // verus!
