//! Serialisation keeps the order, the names and the indices of the original: the fields of a
//! struct or a variant are serialised one after another in declaration order, each under its own
//! name, and a variant is serialised with its position among the enum's variants.
//!
//! Each law states the serialised form in terms of the value alone, apart from the definitions,
//! so that an implementation that reorders, renames or renumbers breaks it.

use vstd::prelude::*;
use vstd::string::StringSliceAdditionalSpecFns;

use crate::generic::fields::Field;
use crate::generic::names::HasName;
use crate::generic::names::HasNames;
use crate::generic::names::Unnamed;
use crate::generic::nums::Num;
use crate::generic::product::Cons;
use crate::generic::product::Nil;
use crate::generic::variants::StructVariant;
use crate::generic::variants::TupleVariant;
use crate::generic::variants::UnitVariant;
use crate::generic::variants::Variant;
use crate::serde::fields::DeserializeStructFields;
use crate::serde::fields::DeserializeTupleFields;
use crate::serde::fields::SerializeStructFields;
use crate::serde::fields::SerializeStructVariantFields;
use crate::serde::fields::SerializeTupleStructFields;
use crate::serde::fields::SerializeTupleVariantFields;
use crate::serde::value::identifies;
use crate::serde::value::Content;
use crate::serde::value::DeError;
use crate::serde::value::DeserializeValue;
use crate::serde::value::SerializeValue;
use crate::serde::value::Serialized;
use crate::serde::repr::SerializeRepr;
use crate::serde::variants::SerializeVariant;
use crate::serde::variants::SerializeVariants;
use crate::generic::product::ConsRepr;
use crate::generic::variants::VariantFlavour;
use crate::generic::fields::FieldsProduct;
use crate::generic::structs::Struct;

verus! {

/// A vector serialises to a sequence with one item per element, in order: item `i` is what
/// element `i` serialises to.
pub proof fn law_vec_serializes_in_order<T: SerializeValue>(v: Vec<T>, out: Serialized)
    ensures
        v.serializes(out) <==> (out matches Serialized::Sequence(items) && items@.len()
            == v@.len() && forall|i: int| 0 <= i < v@.len() ==> v@[i].serializes(items@[i])),
{
}

/// A vector reads a sequence element by element, in order: element `i` is what item `i` reads
/// as; anything but a sequence fails.
pub proof fn law_vec_reads_in_order<T: DeserializeValue>(content: Content, r: Result<Vec<T>, DeError>)
    requires
        <Vec<T> as DeserializeValue>::deserializes(content, r),
    ensures
        match content {
            Content::Sequence(items) => (r matches Ok(w) ==> w@.len() == items@.len() && forall|
                i: int,
            |
                0 <= i < w@.len() ==> T::deserializes(items@[i], Ok(w@[i]))),
            _ => r is Err,
        },
{
}

/// The fields of a struct serialise in declaration order, each under its own name: the first
/// field first, with its name and its value's serialisation, then the rest; no fields give
/// nothing.
pub proof fn law_struct_fields_in_order<Name, Type, Tail>(
    fields: Cons<Field<Name, Type>, Tail>,
    none: Nil,
    out: Seq<(&'static str, Serialized)>,
) where Name: HasName, Type: SerializeValue, Tail: SerializeStructFields
    ensures
        fields.serializes_struct_fields(out) <==> (out.len() >= 1 && out[0].0 == Name::NAME
            && fields.0.value.serializes(out[0].1) && fields.1.serializes_struct_fields(
            out.drop_first(),
        )),
        none.serializes_struct_fields(out) <==> out.len() == 0,
{
}

/// The fields of a tuple struct serialise in declaration order: the first field's value first,
/// then the rest; no fields give nothing.
pub proof fn law_tuple_struct_fields_in_order<Type, Tail>(
    fields: Cons<Field<Unnamed, Type>, Tail>,
    none: Nil,
    out: Seq<Serialized>,
) where Type: SerializeValue, Tail: SerializeTupleStructFields
    ensures
        fields.serializes_tuple_struct_fields(out) <==> (out.len() >= 1
            && fields.0.value.serializes(out[0]) && fields.1.serializes_tuple_struct_fields(
            out.drop_first(),
        )),
        none.serializes_tuple_struct_fields(out) <==> out.len() == 0,
{
}

/// The fields of a tuple variant serialise in declaration order: the first field's value first,
/// then the rest; no fields give nothing.
pub proof fn law_tuple_variant_fields_in_order<Type, Tail>(
    fields: Cons<Field<Unnamed, Type>, Tail>,
    none: Nil,
    out: Seq<Serialized>,
) where Type: SerializeValue, Tail: SerializeTupleVariantFields
    ensures
        fields.serializes_tuple_variant_fields(out) <==> (out.len() >= 1
            && fields.0.value.serializes(out[0]) && fields.1.serializes_tuple_variant_fields(
            out.drop_first(),
        )),
        none.serializes_tuple_variant_fields(out) <==> out.len() == 0,
{
}

/// The fields of a struct variant serialise in declaration order, each under its own name: the
/// first field first, then the rest; no fields give nothing.
pub proof fn law_struct_variant_fields_in_order<Name, Type, Tail>(
    fields: Cons<Field<Name, Type>, Tail>,
    none: Nil,
    out: Seq<(&'static str, Serialized)>,
) where Name: HasName, Type: SerializeValue, Tail: SerializeStructVariantFields
    ensures
        fields.serializes_struct_variant_fields(out) <==> (out.len() >= 1 && out[0].0
            == Name::NAME && fields.0.value.serializes(out[0].1)
            && fields.1.serializes_struct_variant_fields(out.drop_first())),
        none.serializes_struct_variant_fields(out) <==> out.len() == 0,
{
}

/// A tuple struct serialises as a tuple struct under its own name, with its number of fields and
/// its fields in order.
pub proof fn law_tuple_struct_serializes_as_itself<Name, Fields>(
    repr: Struct<Name, TupleVariant, Fields>,
    out: Serialized,
) where Name: HasName, Fields: SerializeTupleStructFields
    ensures
        repr.serializes_repr(out) <==> (out matches Serialized::TupleStruct { name, len, fields }
            && name == Name::NAME && len == Fields::LEN
            && repr.fields.serializes_tuple_struct_fields(fields@)),
{
}

/// A struct with named fields serialises as a struct under its own name, with its number of
/// fields and its named fields in order.
pub proof fn law_struct_serializes_as_itself<Name, FieldNames, Fields>(
    repr: Struct<Name, StructVariant<FieldNames>, Fields>,
    out: Serialized,
) where Name: HasName, FieldNames: HasNames, Fields: SerializeStructFields
    ensures
        repr.serializes_repr(out) <==> (out matches Serialized::Struct { name, len, fields }
            && name == Name::NAME && len == Fields::LEN && repr.fields.serializes_struct_fields(
            fields@,
        )),
{
}

/// A unit struct serialises as a unit struct under its own name.
pub proof fn law_unit_struct_serializes_as_itself<Name: HasName>(
    repr: Struct<Name, UnitVariant, Nil>,
    out: Serialized,
)
    ensures
        repr.serializes_repr(out) <==> out == (Serialized::UnitStruct { name: Name::NAME }),
{
}

/// An enum serialises the variant that it holds, and only that one: the head variant where the
/// union value holds it, otherwise what the later variants make of the rest.
pub proof fn law_enum_serializes_active_variant<Name, Idx, Flavour, Fields, Parent, Tail>(
    repr: ConsRepr<Variant<Name, Idx, Flavour, Fields>, Tail>,
    out: Serialized,
) where
    Name: HasName,
    Idx: Num,
    Flavour: VariantFlavour,
    Fields: FieldsProduct,
    Variant<Name, Idx, Flavour, Fields>: SerializeVariant<Parent>,
    Parent: HasName,
    Tail: SerializeVariants<Parent>,
    ensures
        <Cons<Variant<Name, Idx, Flavour, Fields>, Tail> as SerializeVariants<
            Parent,
        >>::serializes_repr(repr, out) <==> match repr {
            ConsRepr::Head(variant) => variant.serializes_variant(out),
            ConsRepr::Tail(tail) => Tail::serializes_repr(tail, out),
        },
{
}

/// A unit variant serialises under the enum's name, with its position among the variants as its
/// index and its own name.
pub proof fn law_unit_variant_serializes_its_position<Name, Idx, Parent>(
    var: Variant<Name, Idx, UnitVariant, Nil>,
    out: Serialized,
) where Name: HasName, Idx: Num, Parent: HasName
    requires
        Idx::spec_num() <= u32::MAX,
    ensures
        <Variant<Name, Idx, UnitVariant, Nil> as SerializeVariant<Parent>>::serializes_variant(
            &var,
            out,
        ) <==> out == (Serialized::UnitVariant {
            name: Parent::NAME,
            variant_index: Idx::spec_num() as u32,
            variant: Name::NAME,
        }),
{
    Idx::lemma_num();
}

/// A tuple variant serialises under the enum's name, with its position among the variants as its
/// index, its own name, its number of fields, and its fields in order.
pub proof fn law_tuple_variant_serializes_its_position<Name, Idx, Fields, Parent>(
    var: Variant<Name, Idx, TupleVariant, Fields>,
    out: Serialized,
) where Name: HasName, Idx: Num, Fields: SerializeTupleVariantFields, Parent: HasName
    requires
        Idx::spec_num() <= u32::MAX,
    ensures
        <Variant<Name, Idx, TupleVariant, Fields> as SerializeVariant<Parent>>::serializes_variant(
            &var,
            out,
        ) <==> (out matches Serialized::TupleVariant { name, variant_index, variant, len, fields }
            && name == Parent::NAME && variant_index == Idx::spec_num() && variant == Name::NAME
            && len == Fields::LEN && var.fields.serializes_tuple_variant_fields(fields@)),
{
    Idx::lemma_num();
}

/// A struct variant serialises under the enum's name, with its position among the variants as
/// its index, its own name, its number of fields, and its named fields in order.
pub proof fn law_struct_variant_serializes_its_position<Name, Idx, Names, Fields, Parent>(
    var: Variant<Name, Idx, StructVariant<Names>, Fields>,
    out: Serialized,
) where
    Name: HasName,
    Idx: Num,
    Names: HasNames,
    Fields: SerializeStructVariantFields,
    Parent: HasName,
    requires
        Idx::spec_num() <= u32::MAX,
    ensures
        <Variant<
            Name,
            Idx,
            StructVariant<Names>,
            Fields,
        > as SerializeVariant<Parent>>::serializes_variant(&var, out) <==> (
        out matches Serialized::StructVariant { name, variant_index, variant, len, fields }
            && name == Parent::NAME && variant_index == Idx::spec_num() && variant == Name::NAME
            && len == Fields::LEN && var.fields.serializes_struct_variant_fields(fields@)),
{
    Idx::lemma_num();
}

/// The fields of a tuple struct or variant read a sequence item by item, in declaration order:
/// reading from position `index` on succeeds only where the first field reads the item at
/// `index` and the remaining fields read the items after it; with no fields left, it succeeds
/// exactly when no item is left.
pub proof fn law_tuple_fields_read_in_order<MaybeName, Type, Tail>(
    items: Seq<Content>,
    index: int,
    expected: &'static str,
    fields: Cons<Field<MaybeName, Type>, Tail>,
    none: Nil,
)
    where
        MaybeName: crate::generic::names::HasOptionalName,
        Type: DeserializeValue,
        Tail: DeserializeTupleFields,
    requires
        0 <= index,
    ensures
        <Cons<Field<MaybeName, Type>, Tail> as DeserializeTupleFields>::tuple_fields_from(
            items,
            index,
            expected,
            Ok(fields),
        ) <==> (index < items.len() && Type::deserializes(items[index], Ok(fields.0.value))
            && Tail::tuple_fields_from(items, index + 1, expected, Ok(fields.1))),
        <Nil as DeserializeTupleFields>::tuple_fields_from(items, index, expected, Ok(none))
            <==> index >= items.len(),
{
}

/// An identifier picks out an item by its position or by its name (as characters or as bytes),
/// and by nothing else.
pub proof fn law_identifier_names_one_item(idx: u64, name: &'static str, i: u64, chars: Seq<char>, bytes: Seq<u8>)
    ensures
        identifies(crate::serde::value::Identifier::Index(i), idx, name) <==> i == idx,
        identifies(crate::serde::value::Identifier::Str(chars), idx, name) <==> chars == name@,
        identifies(crate::serde::value::Identifier::Bytes(bytes), idx, name) <==> bytes
            == name.spec_bytes(),
{
}

/// A named field takes the entry that its own name or its position identifies, and only that
/// one: an entry it identifies fills it (or is a duplicate, where it is filled already), and an
/// entry it does not identify passes on to the later fields, at the next position.
pub proof fn law_struct_field_takes_its_own_entry<Name, Type, Tail>(
    interim: <Cons<Field<Name, Type>, Tail> as DeserializeStructFields>::Interim,
    value: Content,
    id: crate::serde::value::Identifier,
    idx: u64,
    handled: <Cons<Field<Name, Type>, Tail> as DeserializeStructFields>::Interim,
    result: Result<crate::serde::fields::HandledField, DeError>,
)
    where Name: HasName, Type: DeserializeValue, Tail: DeserializeStructFields
    requires
        <Cons<Field<Name, Type>, Tail> as DeserializeStructFields>::handles(
            interim,
            value,
            id,
            idx,
            handled,
            result,
        ),
    ensures
        identifies(id, idx, Name::NAME) && interim.0 is None && result is Ok ==> (
        handled.0 matches Some(v) && Type::deserializes(value, Ok(v)) && handled.1 == interim.1),
        identifies(id, idx, Name::NAME) && interim.0 is Some ==> result == Err::<
            crate::serde::fields::HandledField,
            DeError,
        >(DeError::DuplicateField { field: Name::NAME }),
        !identifies(id, idx, Name::NAME) ==> handled.0 == interim.0 && Tail::handles(
            interim.1,
            value,
            id,
            crate::serde::fields::next_index(idx),
            handled.1,
            result,
        ),
{
}

} // verus!
