use vstd::prelude::*;

use crate::generic::fields::FieldsProduct;
use crate::generic::names::HasName;
use crate::generic::names::HasNames;
use crate::generic::nums::Index;
use crate::generic::nums::Num;
use crate::generic::product::Cons;
use crate::generic::product::ConsRepr;
use crate::generic::product::Nil;
use crate::generic::product::NilRepr;
use crate::generic::product::Product;
use crate::generic::sum::Sum;
use crate::generic::variants::StructVariant;
use crate::generic::variants::TupleVariant;
use crate::generic::variants::UnitVariant;
use crate::generic::variants::Variant;
use crate::generic::variants::VariantFlavour;
use crate::generic::variants::VariantsProduct;
use crate::serde::fields::DeserializeStructFields;
use crate::serde::fields::DeserializeTupleFields;
use crate::serde::fields::SerializeStructVariantFields;
use crate::serde::fields::SerializeTupleVariantFields;
use crate::serde::fields::StructFieldsVisitor;
use crate::serde::fields::TupleFieldsVisitor;
use crate::serde::value::identifies;
use crate::serde::value::spec_identifier;
use crate::serde::value::spec_invalid_type;
use crate::serde::value::unexpected;
use crate::serde::value::Content;
use crate::serde::value::DeError;
use crate::serde::value::Identifier;
use crate::serde::value::Serialized;

verus! {

/// Variants among which content selects one by its identifier
///
/// `TopVariants` are all the variants of the enum; `Self` is the part of them still to try.
pub trait DeserializeVariants<TopVariants: VariantsProduct>: VariantsProduct + Sized {
    /// Whether deserialising the variant that `var` identifies, with data `payload`, gives
    /// `result`
    spec fn deserializes_variant(
        var: VariantIdx,
        payload: Content,
        result: Result<Sum<TopVariants>, DeError>,
    ) -> bool;

    /// Deserialise the variant that `var` identifies from its data `payload`.
    fn deserialize_variant(var: VariantIdx, payload: &Content) -> (result: Result<
        Sum<TopVariants>,
        DeError,
    >)
        ensures
            Self::deserializes_variant(var, *payload, result),
    ;
}

impl<TopVariants: VariantsProduct> DeserializeVariants<TopVariants> for Nil {
    open spec fn deserializes_variant(
        var: VariantIdx,
        payload: Content,
        result: Result<Sum<TopVariants>, DeError>,
    ) -> bool {
        result == Err::<Sum<TopVariants>, DeError>(DeError::UnknownVariant { variant: var })
    }

    fn deserialize_variant(var: VariantIdx, payload: &Content) -> (result: Result<
        Sum<TopVariants>,
        DeError,
    >) {
        Err(DeError::UnknownVariant { variant: var })
    }
}

impl<Name, Idx, Flavour, Fields, Tail, TopVariants> DeserializeVariants<TopVariants> for Cons<
    Variant<Name, Idx, Flavour, Fields>,
    Tail,
> where
    Name: HasName,
    Idx: Index<TopVariants, Selected = Variant<Name, Idx, Flavour, Fields>>,
    Flavour: VariantFlavour,
    Fields: FieldsProduct,
    Variant<Name, Idx, Flavour, Fields>: DeserializeVariant,
    Tail: DeserializeVariants<TopVariants>,
    TopVariants: VariantsProduct,
 {
    open spec fn deserializes_variant(
        var: VariantIdx,
        payload: Content,
        result: Result<Sum<TopVariants>, DeError>,
    ) -> bool {
        if identifies(var.identifier(), Idx::NUM as u64, Name::NAME) {
            match result {
                Ok(sum) => Idx::spec_project(sum.repr()) matches Some(variant)
                    && <Variant<Name, Idx, Flavour, Fields> as DeserializeVariant>::variant_from(
                    payload,
                    Ok(variant),
                ),
                Err(e) => <Variant<
                    Name,
                    Idx,
                    Flavour,
                    Fields,
                > as DeserializeVariant>::variant_from(payload, Err(e)),
            }
        } else {
            Tail::deserializes_variant(var, payload, result)
        }
    }

    fn deserialize_variant(var: VariantIdx, payload: &Content) -> (result: Result<
        Sum<TopVariants>,
        DeError,
    >) {
        if !var.identifies(Idx::NUM as u64, Name::NAME) {
            return Tail::deserialize_variant(var, payload);
        }
        match <Variant<Name, Idx, Flavour, Fields> as DeserializeVariant>::deserialize_variant(
            payload,
        ) {
            Ok(variant) => Ok(Sum::new(Idx::default(), variant)),
            Err(e) => Err(e),
        }
    }
}

/// What the data of a unit variant must be
pub const EXPECTING_UNIT: &'static str = "unit";

/// A variant that deserialises from the data content gives for it
pub trait DeserializeVariant: Sized {
    /// Whether deserialising the variant from its data `payload` gives `result`
    spec fn variant_from(payload: Content, result: Result<Self, DeError>) -> bool;

    /// Deserialise the variant from its data `payload`.
    fn deserialize_variant(payload: &Content) -> (result: Result<Self, DeError>)
        ensures
            Self::variant_from(*payload, result),
    ;
}

impl<Name, Idx, Fields> DeserializeVariant for Variant<Name, Idx, TupleVariant, Fields> where
    Name: HasName,
    Idx: Num,
    Fields: DeserializeTupleFields,
 {
    open spec fn variant_from(payload: Content, result: Result<Self, DeError>) -> bool {
        match result {
            Ok(variant) => TupleFieldsVisitor::<Name, Fields>::visits(payload, Ok(variant.fields)),
            Err(e) => TupleFieldsVisitor::<Name, Fields>::visits(payload, Err(e)),
        }
    }

    fn deserialize_variant(payload: &Content) -> (result: Result<Self, DeError>) {
        match TupleFieldsVisitor::<Name, Fields>::new().visit(payload) {
            Ok(fields) => Ok(Variant::new(fields)),
            Err(e) => Err(e),
        }
    }
}

impl<Name, Idx, Names, Fields> DeserializeVariant for Variant<
    Name,
    Idx,
    StructVariant<Names>,
    Fields,
> where Name: HasName, Idx: Num, Names: HasNames, Fields: DeserializeStructFields {
    open spec fn variant_from(payload: Content, result: Result<Self, DeError>) -> bool {
        match result {
            Ok(variant) => StructFieldsVisitor::<Name, Fields>::visits(payload, Ok(variant.fields)),
            Err(e) => StructFieldsVisitor::<Name, Fields>::visits(payload, Err(e)),
        }
    }

    fn deserialize_variant(payload: &Content) -> (result: Result<Self, DeError>) {
        match StructFieldsVisitor::<Name, Fields>::new().visit(payload) {
            Ok(fields) => Ok(Variant::new(fields)),
            Err(e) => Err(e),
        }
    }
}

impl<Name, Idx> DeserializeVariant for Variant<Name, Idx, UnitVariant, Nil> where
    Name: HasName,
    Idx: Num,
 {
    open spec fn variant_from(payload: Content, result: Result<Self, DeError>) -> bool {
        match payload {
            Content::Unit => result matches Ok(_),
            _ => result == Err::<Self, DeError>(spec_invalid_type(payload, EXPECTING_UNIT)),
        }
    }

    fn deserialize_variant(payload: &Content) -> (result: Result<Self, DeError>) {
        match payload {
            Content::Unit => Ok(Variant::new(Nil)),
            _ => Err(DeError::InvalidType { unexpected: unexpected(payload), expected: EXPECTING_UNIT }),
        }
    }
}

/// Variants that serialise as variants of the enum named by `Parent`
pub trait SerializeVariants<Parent: HasName>: VariantsProduct + Sized {
    /// Whether `out` is what the variant that `repr` holds serialises to
    spec fn serializes_repr(repr: Self::UnionRepr, out: Serialized) -> bool;

    /// Serialise the variant that `repr` holds.
    fn serialize_active(repr: &Self::UnionRepr) -> (out: Serialized)
        requires
            Self::repr_valid(*repr),
        ensures
            Self::serializes_repr(*repr, out),
    ;
}

impl<Parent: HasName> SerializeVariants<Parent> for Nil {
    open spec fn serializes_repr(repr: NilRepr, out: Serialized) -> bool {
        false
    }

    #[inline]
    fn serialize_active(repr: &NilRepr) -> (out: Serialized) {
        loop
            invariant
                <Nil as Product>::repr_valid(*repr),
            decreases 0nat,
        {
        }
    }
}

impl<Name, Idx, Flavour, Fields, Parent, Tail> SerializeVariants<Parent> for Cons<
    Variant<Name, Idx, Flavour, Fields>,
    Tail,
> where
    Name: HasName,
    Idx: Num,
    Flavour: VariantFlavour,
    Fields: FieldsProduct,
    Variant<Name, Idx, Flavour, Fields>: SerializeVariant<Parent>,
    Parent: HasName,
    Tail: SerializeVariants<Parent>,
 {
    open spec fn serializes_repr(
        repr: ConsRepr<Variant<Name, Idx, Flavour, Fields>, Tail>,
        out: Serialized,
    ) -> bool {
        match repr {
            ConsRepr::Head(variant) => variant.serializes_variant(out),
            ConsRepr::Tail(tail) => Tail::serializes_repr(tail, out),
        }
    }

    #[inline]
    fn serialize_active(repr: &ConsRepr<Variant<Name, Idx, Flavour, Fields>, Tail>) -> (out:
        Serialized) {
        match repr {
            ConsRepr::Head(variant) => variant.serialize_variant(),
            ConsRepr::Tail(tail) => Tail::serialize_active(tail),
        }
    }
}

/// A variant that serialises as a variant of the enum named by `Parent`
pub trait SerializeVariant<Parent: HasName> {
    /// Whether `out` is what this variant serialises to
    spec fn serializes_variant(&self, out: Serialized) -> bool;

    /// Serialise this variant.
    fn serialize_variant(&self) -> (out: Serialized)
        ensures
            self.serializes_variant(out),
    ;
}

impl<Name, Idx, Fields, Parent> SerializeVariant<Parent> for Variant<
    Name,
    Idx,
    TupleVariant,
    Fields,
> where Name: HasName, Idx: Num, Fields: SerializeTupleVariantFields, Parent: HasName {
    open spec fn serializes_variant(&self, out: Serialized) -> bool {
        match out {
            Serialized::TupleVariant { name, variant_index, variant, len, fields } => {
                &&& name == Parent::NAME
                &&& variant_index == Idx::NUM as u32
                &&& variant == Name::NAME
                &&& len == Fields::LEN
                &&& self.fields.serializes_tuple_variant_fields(fields@)
            },
            _ => false,
        }
    }

    fn serialize_variant(&self) -> (out: Serialized) {
        let mut fields: Vec<Serialized> = Vec::new();
        self.fields.serialize_tuple_fields(&mut fields);
        assert(fields@.skip(0) =~= fields@);
        Serialized::TupleVariant {
            name: Parent::NAME,
            variant_index: Idx::NUM as u32,
            variant: Name::NAME,
            len: Fields::LEN,
            fields,
        }
    }
}

impl<Name, Idx, Names, Fields, Parent> SerializeVariant<Parent> for Variant<
    Name,
    Idx,
    StructVariant<Names>,
    Fields,
> where
    Name: HasName,
    Idx: Num,
    Names: HasNames,
    Fields: SerializeStructVariantFields,
    Parent: HasName,
 {
    open spec fn serializes_variant(&self, out: Serialized) -> bool {
        match out {
            Serialized::StructVariant { name, variant_index, variant, len, fields } => {
                &&& name == Parent::NAME
                &&& variant_index == Idx::NUM as u32
                &&& variant == Name::NAME
                &&& len == Fields::LEN
                &&& self.fields.serializes_struct_variant_fields(fields@)
            },
            _ => false,
        }
    }

    fn serialize_variant(&self) -> (out: Serialized) {
        let mut fields: Vec<(&'static str, Serialized)> = Vec::new();
        self.fields.serialize_struct_fields(&mut fields);
        assert(fields@.skip(0) =~= fields@);
        Serialized::StructVariant {
            name: Parent::NAME,
            variant_index: Idx::NUM as u32,
            variant: Name::NAME,
            len: Fields::LEN,
            fields,
        }
    }
}

impl<Name, Idx, Parent> SerializeVariant<Parent> for Variant<Name, Idx, UnitVariant, Nil> where
    Name: HasName,
    Idx: Num,
    Parent: HasName,
 {
    open spec fn serializes_variant(&self, out: Serialized) -> bool {
        out == Serialized::UnitVariant {
            name: Parent::NAME,
            variant_index: Idx::NUM as u32,
            variant: Name::NAME,
        }
    }

    fn serialize_variant(&self) -> (out: Serialized) {
        Serialized::UnitVariant {
            name: Parent::NAME,
            variant_index: Idx::NUM as u32,
            variant: Name::NAME,
        }
    }
}

/// What a visitor for variant identifiers expects
pub const EXPECTING_VARIANT: &'static str = "variant";

/// Identifier of an enum variant: its position, or its name as a string or as bytes
#[derive(Debug, Clone, PartialEq)]
pub enum VariantIdx {
    Index(u64),
    String(String),
    Bytes(Vec<u8>),
}

impl VariantIdx {
    /// The identifier this value gives
    pub open spec fn identifier(self) -> Identifier {
        match self {
            VariantIdx::Index(i) => Identifier::Index(i),
            VariantIdx::String(s) => Identifier::Str(s@),
            VariantIdx::Bytes(b) => Identifier::Bytes(b@),
        }
    }

    /// What the visitor of variant identifiers expects
    pub fn expecting() -> (expected: &'static str)
        ensures
            expected == EXPECTING_VARIANT,
    {
        EXPECTING_VARIANT
    }

    /// Read a variant identifier from `content`: a position, a string or bytes.
    pub fn deserialize(content: &Content) -> (result: Result<VariantIdx, DeError>)
        ensures
            match result {
                Ok(var) => spec_identifier(*content, EXPECTING_VARIANT) == Ok::<Identifier, DeError>(var.identifier()),
                Err(e) => spec_identifier(*content, EXPECTING_VARIANT) == Err::<Identifier, DeError>(e),
            },
    {
        match content {
            Content::U64(v) => Ok(VariantIdx::Index(*v)),
            Content::Str(s) => Ok(VariantIdx::String(s.clone())),
            Content::Bytes(b) => Ok(VariantIdx::Bytes(b.clone())),
            _ => Err(DeError::InvalidType { unexpected: unexpected(content), expected: EXPECTING_VARIANT }),
        }
    }

    /// Whether this identifies the variant at position `idx` named `name`.
    pub fn identifies(&self, idx: u64, name: &'static str) -> (r: bool)
        ensures
            r == identifies(self.identifier(), idx, name),
    {
        match self {
            VariantIdx::Index(i) => *i == idx,
            VariantIdx::String(s) => crate::serde::value::str_eq(s.as_str(), name),
            VariantIdx::Bytes(b) => crate::serde::value::bytes_eq(b.as_slice(), name.as_bytes()),
        }
    }
}

} // verus!
