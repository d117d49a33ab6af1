use vstd::prelude::*;

use crate::generic::enums::Enum;
use crate::generic::names::HasName;
use crate::generic::names::HasNames;
use crate::generic::product::Nil;
use crate::generic::product::Product;
use crate::generic::structs::Struct;
use crate::generic::sum::Sum;
use crate::generic::variants::StructVariant;
use crate::generic::variants::TupleVariant;
use crate::generic::variants::UnitVariant;
use crate::serde::fields::DeserializeStructFields;
use crate::serde::fields::DeserializeTupleFields;
use crate::serde::fields::SerializeStructFields;
use crate::serde::fields::SerializeTupleStructFields;
use crate::serde::fields::StructFieldsVisitor;
use crate::serde::fields::TupleFieldsVisitor;
use crate::serde::value::spec_identifier;
use crate::serde::value::spec_invalid_type;
use crate::serde::value::unexpected;
use crate::serde::value::Content;
use crate::serde::value::DeError;
use crate::serde::value::Serialized;
use crate::serde::value::Unexpected;
use crate::serde::variants::DeserializeVariants;
use crate::serde::variants::SerializeVariants;
use crate::serde::variants::VariantIdx;
use crate::serde::variants::EXPECTING_VARIANT;

verus! {

/// Generic representations that serialise
pub trait SerializeRepr {
    /// Whether `out` is what this representation serialises to
    spec fn serializes_repr(&self, out: Serialized) -> bool;

    /// Serialise this representation.
    fn serialize_repr(&self) -> (out: Serialized)
        ensures
            self.serializes_repr(out),
    ;
}

/// Generic representations that deserialise from self-describing content
pub trait DeserializeRepr: Sized {
    /// Whether deserialising `content` gives `result`
    spec fn deserializes_repr(content: Content, result: Result<Self, DeError>) -> bool;

    /// Deserialise a representation from `content`.
    fn deserialize_repr(content: &Content) -> (result: Result<Self, DeError>)
        ensures
            Self::deserializes_repr(*content, result),
    ;
}

impl<Name, VariantNames, Variants> SerializeRepr for Enum<Name, VariantNames, Variants> where
    Name: HasName,
    VariantNames: HasNames,
    Variants: SerializeVariants<Name>,
 {
    open spec fn serializes_repr(&self, out: Serialized) -> bool {
        Variants::serializes_repr(self.variant.repr(), out)
    }

    fn serialize_repr(&self) -> (out: Serialized) {
        Variants::serialize_active(self.variant.repr_ref())
    }
}

/// What a map that stands for an enum variant must hold
pub const EXPECTING_SINGLE_KEY: &'static str = "map with a single key";

/// The result for a whole enum, given the result for its active variant
pub open spec fn enum_result<Name: HasName, VariantNames: HasNames, Variants: DeserializeVariants<
    Variants,
>>(result: Result<Enum<Name, VariantNames, Variants>, DeError>) -> Result<Sum<Variants>, DeError> {
    match result {
        Ok(repr) => Ok(repr.variant),
        Err(e) => Err(e),
    }
}

impl<Name, VariantNames, Variants> DeserializeRepr for Enum<Name, VariantNames, Variants> where
    Name: HasName,
    VariantNames: HasNames,
    Variants: DeserializeVariants<Variants>,
 {
    /// An enum is given as the name of a unit variant, or as a map whose only key identifies the
    /// variant and whose value is the variant's data.
    open spec fn deserializes_repr(content: Content, result: Result<Self, DeError>) -> bool {
        match content {
            Content::Str(s) => Variants::deserializes_variant(
                VariantIdx::String(s),
                Content::Unit,
                enum_result(result),
            ),
            Content::Mapping(entries) => if entries@.len() == 1 {
                match spec_identifier(entries@[0].0, EXPECTING_VARIANT) {
                    Err(e) => result == Err::<Self, DeError>(e),
                    Ok(id) => exists|var: VariantIdx|
                        {
                            &&& var.identifier() == id
                            &&& #[trigger] Variants::deserializes_variant(
                                var,
                                entries@[0].1,
                                enum_result(result),
                            )
                        },
                }
            } else {
                result == Err::<Self, DeError>(
                    DeError::InvalidValue {
                        unexpected: Unexpected::Mapping,
                        expected: EXPECTING_SINGLE_KEY,
                    },
                )
            },
            _ => result == Err::<Self, DeError>(spec_invalid_type(content, Name::NAME)),
        }
    }

    fn deserialize_repr(content: &Content) -> (result: Result<Self, DeError>) {
        let (var, payload) = match content {
            Content::Str(s) => (VariantIdx::String(s.clone()), &Content::Unit),
            Content::Mapping(entries) => {
                if entries.len() != 1 {
                    return Err(
                        DeError::InvalidValue {
                            unexpected: Unexpected::Mapping,
                            expected: EXPECTING_SINGLE_KEY,
                        },
                    );
                }
                let var = match VariantIdx::deserialize(&entries[0].0) {
                    Ok(var) => var,
                    Err(e) => {
                        return Err(e);
                    },
                };
                (var, &entries[0].1)
            },
            _ => {
                return Err(
                    DeError::InvalidType { unexpected: unexpected(content), expected: Name::NAME },
                );
            },
        };
        let ghost given = var;
        let sum = Variants::deserialize_variant(var, payload);
        let result = match sum {
            Ok(sum) => Ok(Enum::new(sum)),
            Err(e) => Err(e),
        };
        assert(enum_result(result) == sum);
        assert(Variants::deserializes_variant(given, *payload, enum_result(result)));
        result
    }
}

impl<Name, Fields> SerializeRepr for Struct<Name, TupleVariant, Fields> where
    Name: HasName,
    Fields: SerializeTupleStructFields,
 {
    open spec fn serializes_repr(&self, out: Serialized) -> bool {
        match out {
            Serialized::TupleStruct { name, len, fields } => {
                &&& name == Name::NAME
                &&& len == Fields::LEN
                &&& self.fields.serializes_tuple_struct_fields(fields@)
            },
            _ => false,
        }
    }

    fn serialize_repr(&self) -> (out: Serialized) {
        let mut fields: Vec<Serialized> = Vec::new();
        self.fields.serialize_tuple_struct_fields(&mut fields);
        assert(fields@.skip(0) =~= fields@);
        Serialized::TupleStruct { name: Name::NAME, len: Fields::LEN, fields }
    }
}

impl<Name, Fields> DeserializeRepr for Struct<Name, TupleVariant, Fields> where
    Name: HasName,
    Fields: DeserializeTupleFields,
 {
    open spec fn deserializes_repr(content: Content, result: Result<Self, DeError>) -> bool {
        match result {
            Ok(repr) => TupleFieldsVisitor::<Name, Fields>::visits(content, Ok(repr.fields)),
            Err(e) => TupleFieldsVisitor::<Name, Fields>::visits(content, Err(e)),
        }
    }

    fn deserialize_repr(content: &Content) -> (result: Result<Self, DeError>) {
        match TupleFieldsVisitor::<Name, Fields>::new().visit(content) {
            Ok(fields) => Ok(Struct::new(fields)),
            Err(e) => Err(e),
        }
    }
}

impl<Name, FieldNames, Fields> SerializeRepr for Struct<Name, StructVariant<FieldNames>, Fields> where
    Name: HasName,
    FieldNames: HasNames,
    Fields: SerializeStructFields,
 {
    open spec fn serializes_repr(&self, out: Serialized) -> bool {
        match out {
            Serialized::Struct { name, len, fields } => {
                &&& name == Name::NAME
                &&& len == Fields::LEN
                &&& self.fields.serializes_struct_fields(fields@)
            },
            _ => false,
        }
    }

    fn serialize_repr(&self) -> (out: Serialized) {
        let mut fields: Vec<(&'static str, Serialized)> = Vec::new();
        self.fields.serialize_struct_fields(&mut fields);
        assert(fields@.skip(0) =~= fields@);
        Serialized::Struct { name: Name::NAME, len: Fields::LEN, fields }
    }
}

impl<Name, FieldNames, Fields> DeserializeRepr for Struct<
    Name,
    StructVariant<FieldNames>,
    Fields,
> where Name: HasName, FieldNames: HasNames, Fields: DeserializeStructFields {
    open spec fn deserializes_repr(content: Content, result: Result<Self, DeError>) -> bool {
        match result {
            Ok(repr) => StructFieldsVisitor::<Name, Fields>::visits(content, Ok(repr.fields)),
            Err(e) => StructFieldsVisitor::<Name, Fields>::visits(content, Err(e)),
        }
    }

    fn deserialize_repr(content: &Content) -> (result: Result<Self, DeError>) {
        match StructFieldsVisitor::<Name, Fields>::new().visit(content) {
            Ok(fields) => Ok(Struct::new(fields)),
            Err(e) => Err(e),
        }
    }
}

impl<Name: HasName> SerializeRepr for Struct<Name, UnitVariant, Nil> {
    open spec fn serializes_repr(&self, out: Serialized) -> bool {
        out == Serialized::UnitStruct { name: Name::NAME }
    }

    fn serialize_repr(&self) -> (out: Serialized) {
        Serialized::UnitStruct { name: Name::NAME }
    }
}

impl<Name: HasName> DeserializeRepr for Struct<Name, UnitVariant, Nil> {
    open spec fn deserializes_repr(content: Content, result: Result<Self, DeError>) -> bool {
        match content {
            Content::Unit => result matches Ok(_),
            _ => result == Err::<Self, DeError>(spec_invalid_type(content, Name::NAME)),
        }
    }

    fn deserialize_repr(content: &Content) -> (result: Result<Self, DeError>) {
        match content {
            Content::Unit => Ok(Struct::new(Nil)),
            _ => Err(DeError::InvalidType { unexpected: unexpected(content), expected: Name::NAME }),
        }
    }
}

} // verus!
