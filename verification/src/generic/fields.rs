use vstd::prelude::*;
use core::marker::PhantomData;

use crate::generic::names::HasName;
use crate::generic::names::HasOptionalName;
use crate::generic::product::Cons;
use crate::generic::product::Nil;
use crate::generic::product::Product;

verus! {

/// Generic field representation
pub struct Field<Name: HasOptionalName, Type> {
    /// Runtime value of the field
    pub value: Type,
    /// Type-level name of the field
    pub name: PhantomData<Name>,
}

impl<Name: HasOptionalName, Type> Field<Name, Type> {
    /// Construct a generic field representation for `Name` using its runtime value.
    #[inline]
    pub fn new(value: Type) -> (field: Self)
        ensures
            field.value == value,
    {
        Self { value, name: PhantomData }
    }
}

impl<Name: HasName, Type> HasName for Field<Name, Type> {
    const NAME: &'static str = Name::NAME;
}

/// Product which consist of field representations
pub trait FieldsProduct: Product {

}

impl FieldsProduct for Nil {

}

impl<Name, Type, Tail> FieldsProduct for Cons<Field<Name, Type>, Tail> where
    Name: HasOptionalName,
    Tail: FieldsProduct,
 {

}

} // verus!
