use vstd::prelude::*;
use core::mem::ManuallyDrop;

use crate::generic::nums::Index;
use crate::generic::product::Cons;
use crate::generic::product::Nil;
use crate::generic::product::Product;

verus! {

/// Marks products as eligible to be used as fields in an untagged sum.
pub trait UnionFields: Product {

}

impl UnionFields for Nil {

}

impl<Head, Tail: UnionFields> UnionFields for Cons<Head, Tail> {

}

/// Union of the field types of a product
///
/// A value holds exactly one item, of one of the field types. Which one it holds is only known
/// through the type-level index it was built with.
pub struct UntaggedSum<Fields: UnionFields> {
    repr: Fields::UnionRepr,
}

impl<Fields: UnionFields> UntaggedSum<Fields> {
    /// The union value this sum holds
    pub closed spec fn repr(self) -> Fields::UnionRepr {
        self.repr
    }

    /// Construct an untagged union using a value of one of the fields.
    pub fn new<Idx: Index<Fields>>(_index: Idx, data: ManuallyDrop<Idx::Selected>) -> (sum: Self)
        ensures
            sum.repr() == Idx::spec_inject(data@),
    {
        let data = ManuallyDrop::into_inner(data);
        proof {
            Idx::lemma_inject(data);
        }
        Self { repr: Idx::inject(data) }
    }

    /// Borrow the union value this sum holds.
    pub fn repr_ref(&self) -> (repr: &Fields::UnionRepr)
        ensures
            *repr == self.repr(),
    {
        &self.repr
    }

    /// Convert the untagged sum into the union value it holds.
    pub fn into_repr(self) -> (repr: Fields::UnionRepr)
        ensures
            repr == self.repr(),
    {
        self.repr
    }

    /// Get a reference to the value stored in this untagged sum.
    ///
    /// The value must be stored at the position `Idx` selects.
    pub fn as_ref<Idx: Index<Fields>>(&self) -> (item: &Idx::Selected)
        requires
            Idx::spec_project(self.repr()) is Some,
        ensures
            Idx::spec_project(self.repr()) == Some(*item),
    {
        Idx::project_ref(&self.repr)
    }

    /// Get a mutable reference to the value stored in this untagged sum.
    ///
    /// The value must be stored at the position `Idx` selects.
    pub fn as_mut<Idx: Index<Fields>>(&mut self) -> (item: &mut Idx::Selected)
        requires
            Idx::spec_project(old(self).repr()) is Some,
        ensures
            Idx::spec_project(old(self).repr()) == Some(*item),
            final(self).repr() == Idx::spec_inject(*final(item)),
    {
        Idx::project_mut(&mut self.repr)
    }

    /// Convert the untagged sum into the value it stores, consuming the sum.
    ///
    /// The value must be stored at the position `Idx` selects.
    pub fn into<Idx: Index<Fields>>(self) -> (item: Idx::Selected)
        requires
            Idx::spec_project(self.repr()) is Some,
        ensures
            Idx::spec_project(self.repr()) == Some(item),
    {
        Idx::project_into(self.repr)
    }
}

} // verus!
