//! Serialisation of generic representations into a serialiser call tree ([`value::Serialized`]),
//! and deserialisation from self-describing content ([`value::Content`]).

pub mod fields;
pub mod primitives;
pub mod order;
pub mod repr;
pub mod roundtrip;
pub mod value;
pub mod variants;

use vstd::prelude::*;

use crate::generic::datatypes::DataType;
use crate::serde::repr::DeserializeRepr;
use crate::serde::repr::SerializeRepr;
use crate::serde::value::Content;
use crate::serde::value::DeError;
use crate::serde::value::Serialized;

verus! {

/// Serialises a data type through its shared generic representation.
pub struct SerializeViaSeu<'a, T: DataType + 'a>(pub T::ReprRef<'a>);

impl<'a, T: DataType + 'a> SerializeViaSeu<'a, T> {
    /// Borrow `data` as its generic representation, for serialisation.
    pub fn new(data: &'a T) -> (via: Self)
        ensures
            call_ensures(T::as_repr, (data,), via.0),
    {
        Self(data.as_repr())
    }
}

impl<'a, T> SerializeViaSeu<'a, T> where T: DataType, T::ReprRef<'a>: SerializeRepr {
    /// Serialise the data through its generic representation.
    pub fn serialize(&self) -> (out: Serialized)
        ensures
            self.0.serializes_repr(out),
    {
        self.0.serialize_repr()
    }
}

/// Deserialises a data type through its owned generic representation.
pub struct DeserializeViaSeu<T: DataType>(pub T::Repr);

impl<T: DataType> DeserializeViaSeu<T> {
    /// The data whose generic representation was deserialised
    pub fn into_data(self) -> (data: T)
        ensures
            call_ensures(T::from_repr, (self.0,), data),
    {
        T::from_repr(self.0)
    }
}

impl<T> DeserializeViaSeu<T> where T: DataType, T::Repr: DeserializeRepr {
    /// Deserialise the generic representation of a `T` from `content`.
    pub fn deserialize(content: &Content) -> (result: Result<Self, DeError>)
        ensures
            match result {
                Ok(via) => T::Repr::deserializes_repr(*content, Ok(via.0)),
                Err(e) => T::Repr::deserializes_repr(*content, Err(e)),
            },
    {
        match T::Repr::deserialize_repr(content) {
            Ok(repr) => Ok(Self(repr)),
            Err(e) => Err(e),
        }
    }
}

} // verus!
