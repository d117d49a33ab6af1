//! Serialising a generic representation, reading the serialised form back as self-describing
//! content and deserialising that content gives the representation back.
//!
//! The representation that is serialised (`Ser`) may hold its fields by value or by shared
//! reference; the one that is deserialised holds them by value. Each law relates the two through
//! the values of their fields.

use vstd::prelude::*;

use crate::generic::enums::Enum;
use crate::generic::fields::Field;
use crate::generic::fields::FieldsProduct;
use crate::generic::names::HasName;
use crate::generic::names::HasNames;
use crate::generic::names::Unnamed;
use crate::generic::nums::Index;
use crate::generic::nums::Num;
use crate::generic::product::Cons;
use crate::generic::product::ConsRepr;
use crate::generic::product::Nil;
use crate::generic::product::NilRepr;
use crate::generic::structs::Struct;
use crate::generic::sum::Sum;
use crate::generic::variants::StructVariant;
use crate::generic::variants::TupleVariant;
use crate::generic::variants::UnitVariant;
use crate::generic::variants::Variant;
use crate::generic::variants::VariantFlavour;
use crate::generic::variants::VariantsProduct;
use crate::macros::names::no_duplicates;
use crate::serde::fields::next_index;
use crate::serde::fields::visits_entries;
use crate::serde::fields::DeserializeStructFields;
use crate::serde::fields::DeserializeTupleFields;
use crate::serde::fields::HandledField;
use crate::serde::fields::SerializeStructFields;
use crate::serde::fields::SerializeStructVariantFields;
use crate::serde::fields::SerializeTupleStructFields;
use crate::serde::fields::SerializeTupleVariantFields;
use crate::serde::fields::EXPECTING_FIELD;
use crate::serde::repr::DeserializeRepr;
use crate::serde::repr::SerializeRepr;
use crate::serde::value::identifies;
use crate::serde::value::reads_back;
use crate::serde::value::spec_identifier;
use crate::serde::value::Content;
use crate::serde::value::DeError;
use crate::serde::value::Identifier;
use crate::serde::value::RoundTrip;
use crate::serde::value::Serialized;
use crate::serde::value::SerializeValue;
use crate::serde::variants::DeserializeVariant;
use crate::serde::variants::DeserializeVariants;
use crate::serde::variants::SerializeVariant;
use crate::serde::variants::SerializeVariants;
use crate::serde::variants::VariantIdx;
use crate::serde::variants::EXPECTING_VARIANT;

verus! {

/// A field value that serialises as a value of `T`: the value itself, or a reference to it
pub trait HoldsValue<T: SerializeValue>: SerializeValue {
    /// The value held
    spec fn held(self) -> T;

    /// The field value serialises as the value it holds.
    proof fn lemma_serializes_held(self, out: Serialized)
        ensures
            self.serializes(out) == self.held().serializes(out),
    ;
}

impl<T: SerializeValue> HoldsValue<T> for T {
    open spec fn held(self) -> T {
        self
    }

    proof fn lemma_serializes_held(self, out: Serialized) {
    }
}

impl<'a, T: SerializeValue> HoldsValue<T> for &'a T {
    open spec fn held(self) -> T {
        *self
    }

    proof fn lemma_serializes_held(self, out: Serialized) {
    }
}

/// Tuple fields that come back, holding the values of the fields `Ser` that were serialised,
/// when serialised and read back
pub trait TupleFieldsRoundTrip<Ser: SerializeTupleStructFields + SerializeTupleVariantFields>:
    DeserializeTupleFields {
    /// Whether `a` holds the values that `b` holds, field by field
    spec fn same_fields(a: Self, b: Ser) -> bool;

    /// The fields serialise alike in a tuple struct and in a tuple variant.
    proof fn lemma_variant_fields_alike(b: Ser, out: Seq<Serialized>)
        ensures
            b.serializes_tuple_variant_fields(out) == b.serializes_tuple_struct_fields(out),
    ;

    /// Deserialising the items, from position `index` on, that read back what `b` serialises to
    /// gives fields with the same values.
    proof fn lemma_tuple_fields_roundtrip(
        b: Ser,
        out: Seq<Serialized>,
        items: Seq<Content>,
        index: int,
        expected: &'static str,
        result: Result<Self, DeError>,
    )
        requires
            b.serializes_tuple_struct_fields(out),
            0 <= index <= items.len(),
            out.len() == items.len() - index,
            forall|j: int| 0 <= j < out.len() ==> #[trigger] reads_back(out[j], items[index + j]),
            Self::tuple_fields_from(items, index, expected, result),
        ensures
            result matches Ok(v) && Self::same_fields(v, b),
    ;
}

impl TupleFieldsRoundTrip<Nil> for Nil {
    open spec fn same_fields(a: Nil, b: Nil) -> bool {
        true
    }

    proof fn lemma_variant_fields_alike(b: Nil, out: Seq<Serialized>) {
    }

    proof fn lemma_tuple_fields_roundtrip(
        b: Nil,
        out: Seq<Serialized>,
        items: Seq<Content>,
        index: int,
        expected: &'static str,
        result: Result<Nil, DeError>,
    ) {
    }
}

impl<Type, Held, Tail, SerTail> TupleFieldsRoundTrip<Cons<Field<Unnamed, Held>, SerTail>> for Cons<
    Field<Unnamed, Type>,
    Tail,
> where
    Type: RoundTrip,
    Held: HoldsValue<Type>,
    Tail: TupleFieldsRoundTrip<SerTail>,
    SerTail: SerializeTupleStructFields + SerializeTupleVariantFields,
 {
    open spec fn same_fields(a: Self, b: Cons<Field<Unnamed, Held>, SerTail>) -> bool {
        Type::same(a.0.value, b.0.value.held()) && Tail::same_fields(a.1, b.1)
    }

    proof fn lemma_variant_fields_alike(b: Cons<Field<Unnamed, Held>, SerTail>, out: Seq<Serialized>) {
        Tail::lemma_variant_fields_alike(b.1, out.drop_first());
    }

    proof fn lemma_tuple_fields_roundtrip(
        b: Cons<Field<Unnamed, Held>, SerTail>,
        out: Seq<Serialized>,
        items: Seq<Content>,
        index: int,
        expected: &'static str,
        result: Result<Self, DeError>,
    ) {
        assert(reads_back(out[0], items[index + 0]));
        let rest = out.drop_first();
        assert forall|j: int| 0 <= j < rest.len() implies #[trigger] reads_back(
            rest[j],
            items[(index + 1) + j],
        ) by {
            assert(reads_back(out[j + 1], items[index + (j + 1)]));
        }
        let held = b.0.value.held();
        b.0.value.lemma_serializes_held(out[0]);
        match result {
            Ok(fields) => {
                held.lemma_roundtrip(out[0], items[index], Ok(fields.0.value));
                Tail::lemma_tuple_fields_roundtrip(
                    b.1,
                    rest,
                    items,
                    index + 1,
                    expected,
                    Ok(fields.1),
                );
            },
            Err(e) => {
                if Type::deserializes(items[index], Err(e)) {
                    held.lemma_roundtrip(out[0], items[index], Err(e));
                } else {
                    Tail::lemma_tuple_fields_roundtrip(b.1, rest, items, index + 1, expected, Err(e));
                }
            },
        }
    }
}

/// A tuple struct representation, serialised, read back and deserialised, gives the values that
/// the serialised representation holds.
pub proof fn law_tuple_struct_roundtrip<Name, Ser, Fields>(
    repr: Struct<Name, TupleVariant, Ser>,
    out: Serialized,
    content: Content,
    result: Result<Struct<Name, TupleVariant, Fields>, DeError>,
) where
    Name: HasName,
    Ser: SerializeTupleStructFields + SerializeTupleVariantFields,
    Fields: TupleFieldsRoundTrip<Ser>,

    requires
        repr.serializes_repr(out),
        reads_back(out, content),
        Struct::<Name, TupleVariant, Fields>::deserializes_repr(content, result),
    ensures
        result matches Ok(r) && Fields::same_fields(r.fields, repr.fields),
{
    let fields = out->TupleStruct_fields;
    let items = content->Sequence_0;
    assert forall|j: int| 0 <= j < fields@.len() implies #[trigger] reads_back(
        fields@[j],
        items@[0 + j],
    ) by {
        assert(reads_back(fields@[j], items@[j]));
    }
    match result {
        Ok(r) => Fields::lemma_tuple_fields_roundtrip(
            repr.fields,
            fields@,
            items@,
            0,
            Name::NAME,
            Ok(r.fields),
        ),
        Err(e) => Fields::lemma_tuple_fields_roundtrip(
            repr.fields,
            fields@,
            items@,
            0,
            Name::NAME,
            Err(e),
        ),
    }
}

/// A unit struct representation comes back when serialised, read back and deserialised.
pub proof fn law_unit_struct_roundtrip<Name: HasName>(
    repr: Struct<Name, UnitVariant, Nil>,
    out: Serialized,
    content: Content,
    result: Result<Struct<Name, UnitVariant, Nil>, DeError>,
)
    requires
        repr.serializes_repr(out),
        reads_back(out, content),
        Struct::<Name, UnitVariant, Nil>::deserializes_repr(content, result),
    ensures
        result is Ok,
{
}

/// Named fields that come back, holding the values of the fields `Ser` that were serialised,
/// when serialised and read back
pub trait StructFieldsRoundTrip<Ser: SerializeStructFields + SerializeStructVariantFields>:
    DeserializeStructFields {
    /// Whether `a` holds the values that `b` holds, field by field
    spec fn same_fields(a: Self, b: Ser) -> bool;

    /// The names of the fields, in order
    spec fn field_names() -> Seq<Seq<char>>;

    /// Whether `interim` holds the values of the first `j` of the fields `b` and nothing for the
    /// others
    spec fn filled(interim: Self::Interim, b: Ser, j: int) -> bool;

    /// The fields serialise alike in a struct and in a struct variant.
    proof fn lemma_variant_fields_alike(b: Ser, out: Seq<(&'static str, Serialized)>)
        ensures
            b.serializes_struct_variant_fields(out) == b.serializes_struct_fields(out),
    ;

    /// The fields serialise to one entry per field, each named after its field.
    proof fn lemma_serialized_names(b: Ser, out: Seq<(&'static str, Serialized)>)
        requires
            b.serializes_struct_fields(out),
        ensures
            out.len() == Self::field_names().len(),
            forall|k: int| 0 <= k < out.len() ==> (#[trigger] out[k]).0@ == Self::field_names()[k],
    ;

    /// Before any entry, no field holds a value.
    proof fn lemma_start_filled(b: Ser)
        ensures
            Self::filled(Self::spec_start(), b, 0),
    ;

    /// Handling the entry that field `j` serialises to, when the fields before it hold their
    /// values, fills field `j` too.
    proof fn lemma_handle_step(
        b: Ser,
        out: Seq<(&'static str, Serialized)>,
        j: int,
        value: Content,
        idx: u64,
        interim: Self::Interim,
        handled: Self::Interim,
        h: Result<HandledField, DeError>,
    )
        requires
            no_duplicates(Self::field_names()),
            b.serializes_struct_fields(out),
            0 <= j < out.len(),
            reads_back(out[j].1, value),
            Self::filled(interim, b, j),
            Self::handles(interim, value, Identifier::Str(out[j].0@), idx, handled, h),
        ensures
            h is Ok,
            Self::filled(handled, b, j + 1),
    ;

    /// Building the fields once all hold their values gives fields with the same values.
    proof fn lemma_finalize_filled(b: Ser, interim: Self::Interim)
        requires
            Self::filled(interim, b, Self::field_names().len() as int),
        ensures
            Self::spec_finalize(interim) matches Ok(v) && Self::same_fields(v, b),
    ;
}

impl StructFieldsRoundTrip<Nil> for Nil {
    open spec fn same_fields(a: Nil, b: Nil) -> bool {
        true
    }

    open spec fn field_names() -> Seq<Seq<char>> {
        Seq::empty()
    }

    open spec fn filled(interim: Nil, b: Nil, j: int) -> bool {
        true
    }

    proof fn lemma_variant_fields_alike(b: Nil, out: Seq<(&'static str, Serialized)>) {
    }

    proof fn lemma_serialized_names(b: Nil, out: Seq<(&'static str, Serialized)>) {
    }

    proof fn lemma_start_filled(b: Nil) {
    }

    proof fn lemma_handle_step(
        b: Nil,
        out: Seq<(&'static str, Serialized)>,
        j: int,
        value: Content,
        idx: u64,
        interim: Nil,
        handled: Nil,
        h: Result<HandledField, DeError>,
    ) {
    }

    proof fn lemma_finalize_filled(b: Nil, interim: Nil) {
    }
}

impl<Name, Type, Held, Tail, SerTail> StructFieldsRoundTrip<Cons<Field<Name, Held>, SerTail>> for Cons<
    Field<Name, Type>,
    Tail,
> where
    Name: HasName,
    Type: RoundTrip,
    Held: HoldsValue<Type>,
    Tail: StructFieldsRoundTrip<SerTail>,
    SerTail: SerializeStructFields + SerializeStructVariantFields,
 {
    open spec fn same_fields(a: Self, b: Cons<Field<Name, Held>, SerTail>) -> bool {
        Type::same(a.0.value, b.0.value.held()) && Tail::same_fields(a.1, b.1)
    }

    open spec fn field_names() -> Seq<Seq<char>> {
        seq![Name::NAME@] + <Tail as StructFieldsRoundTrip<SerTail>>::field_names()
    }

    open spec fn filled(interim: Self::Interim, b: Cons<Field<Name, Held>, SerTail>, j: int) -> bool {
        if j <= 0 {
            interim.0 is None && Tail::filled(interim.1, b.1, 0)
        } else {
            &&& interim.0 matches Some(v) && Type::same(v, b.0.value.held())
            &&& Tail::filled(interim.1, b.1, j - 1)
        }
    }

    proof fn lemma_variant_fields_alike(
        b: Cons<Field<Name, Held>, SerTail>,
        out: Seq<(&'static str, Serialized)>,
    ) {
        Tail::lemma_variant_fields_alike(b.1, out.drop_first());
    }

    proof fn lemma_serialized_names(
        b: Cons<Field<Name, Held>, SerTail>,
        out: Seq<(&'static str, Serialized)>,
    ) {
        Tail::lemma_serialized_names(b.1, out.drop_first());
        assert forall|k: int| 0 <= k < out.len() implies (#[trigger] out[k]).0@
            == <Self as StructFieldsRoundTrip<Cons<Field<Name, Held>, SerTail>>>::field_names()[k] by {
            if k > 0 {
                assert(out[k] == out.drop_first()[k - 1]);
            }
        }
    }

    proof fn lemma_start_filled(b: Cons<Field<Name, Held>, SerTail>) {
        Tail::lemma_start_filled(b.1);
    }

    proof fn lemma_handle_step(
        b: Cons<Field<Name, Held>, SerTail>,
        out: Seq<(&'static str, Serialized)>,
        j: int,
        value: Content,
        idx: u64,
        interim: Self::Interim,
        handled: Self::Interim,
        h: Result<HandledField, DeError>,
    ) {
        <Self as StructFieldsRoundTrip<Cons<Field<Name, Held>, SerTail>>>::lemma_serialized_names(
            b,
            out,
        );
        if j == 0 {
            assert(identifies(Identifier::Str(out[0].0@), idx, Name::NAME));
            let held = b.0.value.held();
            b.0.value.lemma_serializes_held(out[0].1);
            match h {
                Ok(_) => {
                    let v = handled.0->Some_0;
                    held.lemma_roundtrip(out[0].1, value, Ok(v));
                },
                Err(e) => {
                    held.lemma_roundtrip(out[0].1, value, Err(e));
                },
            }
        } else {
            assert(<Self as StructFieldsRoundTrip<Cons<Field<Name, Held>, SerTail>>>::field_names()[j] != <Self as StructFieldsRoundTrip<Cons<Field<Name, Held>, SerTail>>>::field_names()[0]);
            assert(out[j].0@ != Name::NAME@);
            let rest = out.drop_first();
            assert(rest[j - 1] == out[j]);
            assert(no_duplicates(<Tail as StructFieldsRoundTrip<SerTail>>::field_names())) by {
                assert forall|a: int, c: int|
                    0 <= a < c < <Tail as StructFieldsRoundTrip<SerTail>>::field_names().len() implies <Tail as StructFieldsRoundTrip<SerTail>>::field_names()[a]
                    != <Tail as StructFieldsRoundTrip<SerTail>>::field_names()[c] by {
                    assert(<Tail as StructFieldsRoundTrip<SerTail>>::field_names()[a] == <Self as StructFieldsRoundTrip<Cons<Field<Name, Held>, SerTail>>>::field_names()[a + 1]);
                    assert(<Tail as StructFieldsRoundTrip<SerTail>>::field_names()[c] == <Self as StructFieldsRoundTrip<Cons<Field<Name, Held>, SerTail>>>::field_names()[c + 1]);
                }
            }
            Tail::lemma_handle_step(
                b.1,
                rest,
                j - 1,
                value,
                next_index(idx),
                interim.1,
                handled.1,
                h,
            );
        }
    }

    proof fn lemma_finalize_filled(b: Cons<Field<Name, Held>, SerTail>, interim: Self::Interim) {
        Tail::lemma_finalize_filled(b.1, interim.1);
    }
}

/// Whether entry `i` is keyed by the name of the field at position `i` and holds what reads back
/// that field's serialised value
pub open spec fn entry_reads_back(
    out: Seq<(&'static str, Serialized)>,
    entries: Seq<(Content, Content)>,
    i: int,
) -> bool {
    &&& entries[i].0 matches Content::Str(k) && k@ == out[i].0@
    &&& reads_back(out[i].1, entries[i].1)
}

/// Whether each of `entries` is keyed by the name of the field at its position and holds what
/// reads back that field's serialised value
pub open spec fn entries_read_back(
    out: Seq<(&'static str, Serialized)>,
    entries: Seq<(Content, Content)>,
) -> bool {
    &&& out.len() == entries.len()
    &&& forall|i: int| 0 <= i < out.len() ==> #[trigger] entry_reads_back(out, entries, i)
}

/// Handling the entries that the fields `b` serialise to, from entry `j` on, when the fields
/// before it hold their values, gives fields with the same values.
proof fn lemma_entries_roundtrip<Ser, Fields>(
    b: Ser,
    out: Seq<(&'static str, Serialized)>,
    entries: Seq<(Content, Content)>,
    j: int,
    interim: Fields::Interim,
    result: Result<Fields, DeError>,
) where
    Ser: SerializeStructFields + SerializeStructVariantFields,
    Fields: StructFieldsRoundTrip<Ser>,

    requires
        no_duplicates(Fields::field_names()),
        b.serializes_struct_fields(out),
        entries_read_back(out, entries),
        0 <= j <= out.len(),
        Fields::filled(interim, b, j),
        visits_entries::<Fields>(entries.skip(j), interim, result),
    ensures
        result matches Ok(v) && Fields::same_fields(v, b),
    decreases out.len() - j,
{
    Fields::lemma_serialized_names(b, out);
    let rest = entries.skip(j);
    if j == out.len() {
        assert(rest.len() == 0);
        Fields::lemma_finalize_filled(b, interim);
    } else {
        assert(rest[0] == entries[j]);
        assert(rest.drop_first() =~= entries.skip(j + 1));
        let key = entries[j].0;
        assert(entry_reads_back(out, entries, j));
        let k = key->Str_0;
        assert(key == Content::Str(k));
        assert(k@ == out[j].0@);
        let id = Identifier::Str(k@);
        assert(spec_identifier(rest[0].0, EXPECTING_FIELD) == Ok::<Identifier, DeError>(id));
        let (handled, h) = choose|handled: Fields::Interim, h: Result<HandledField, DeError>|
            {
                &&& #[trigger] Fields::handles(interim, rest[0].1, id, 0, handled, h)
                &&& match h {
                    Err(e) => result == Err::<Fields, DeError>(e),
                    Ok(_) => visits_entries::<Fields>(rest.drop_first(), handled, result),
                }
            };
        Fields::lemma_handle_step(b, out, j, entries[j].1, 0, interim, handled, h);
        lemma_entries_roundtrip(b, out, entries, j + 1, handled, result);
    }
}

/// Deserialising the entries of a map that read back what the fields `b` serialise to gives
/// fields with the same values.
proof fn lemma_map_roundtrip<Ser, Fields>(
    b: Ser,
    out: Seq<(&'static str, Serialized)>,
    entries: Seq<(Content, Content)>,
    result: Result<Fields, DeError>,
) where
    Ser: SerializeStructFields + SerializeStructVariantFields,
    Fields: StructFieldsRoundTrip<Ser>,

    requires
        no_duplicates(Fields::field_names()),
        b.serializes_struct_fields(out),
        entries_read_back(out, entries),
        visits_entries::<Fields>(entries, Fields::spec_start(), result),
    ensures
        result matches Ok(v) && Fields::same_fields(v, b),
{
    assert(entries.skip(0) =~= entries);
    Fields::lemma_start_filled(b);
    lemma_entries_roundtrip(b, out, entries, 0, Fields::spec_start(), result);
}

/// A struct representation whose fields have distinct names, serialised, read back and
/// deserialised, gives the values that the serialised representation holds.
pub proof fn law_struct_roundtrip<Name, FieldNames, Ser, Fields>(
    repr: Struct<Name, StructVariant<FieldNames>, Ser>,
    out: Serialized,
    content: Content,
    result: Result<Struct<Name, StructVariant<FieldNames>, Fields>, DeError>,
) where
    Name: HasName,
    FieldNames: HasNames,
    Ser: SerializeStructFields + SerializeStructVariantFields,
    Fields: StructFieldsRoundTrip<Ser>,

    requires
        no_duplicates(Fields::field_names()),
        repr.serializes_repr(out),
        reads_back(out, content),
        Struct::<Name, StructVariant<FieldNames>, Fields>::deserializes_repr(content, result),
    ensures
        result matches Ok(r) && Fields::same_fields(r.fields, repr.fields),
{
    let fields = out->Struct_fields;
    let entries = content->Mapping_0;
    assert(out == Serialized::Struct { name: out->Struct_name, len: out->Struct_len, fields });
    assert(content == Content::Mapping(entries));
    assert forall|i: int| 0 <= i < fields@.len() implies #[trigger] entry_reads_back(
        fields@,
        entries@,
        i,
    ) by {
        assert(fields@[i] == fields@[i]);
    }
    match result {
        Ok(r) => lemma_map_roundtrip(repr.fields, fields@, entries@, Ok(r.fields)),
        Err(e) => lemma_map_roundtrip::<Ser, Fields>(repr.fields, fields@, entries@, Err(e)),
    }
}

/// The name of the variant that `out` serialises
pub open spec fn variant_name_of(out: Serialized) -> Seq<char> {
    match out {
        Serialized::UnitVariant { variant, .. } => variant@,
        Serialized::TupleVariant { variant, .. } => variant@,
        Serialized::StructVariant { variant, .. } => variant@,
        _ => Seq::empty(),
    }
}

/// Whether `payload` is how the data of the serialised variant `out` reads back
pub open spec fn payload_reads_back(out: Serialized, payload: Content) -> bool {
    match out {
        Serialized::UnitVariant { .. } => payload == Content::Unit,
        Serialized::TupleVariant { fields, .. } => match payload {
            Content::Sequence(inner) => {
                &&& fields@.len() == inner@.len()
                &&& forall|j: int|
                    0 <= j < fields@.len() ==> #[trigger] reads_back(fields@[j], inner@[0 + j])
            },
            _ => false,
        },
        Serialized::StructVariant { fields, .. } => match payload {
            Content::Mapping(inner) => entries_read_back(fields@, inner@),
            _ => false,
        },
        _ => false,
    }
}

/// A variant, named by `Name`, that comes back, holding the values of the variant `Ser` that was
/// serialised, when serialised and read back
pub trait VariantRoundTrip<Parent: HasName, Name: HasName, Ser: SerializeVariant<Parent>>:
    DeserializeVariant {
    /// Whether `a` holds the field values that `b` holds
    spec fn same_variant(a: Self, b: Ser) -> bool;

    /// Whether the variant's fields have distinct names, where they are named
    spec fn fields_distinct() -> bool;

    /// Deserialising the data that the serialised form of `b` reads back gives a variant with
    /// the same field values.
    proof fn lemma_variant_roundtrip(
        b: Ser,
        out: Serialized,
        payload: Content,
        result: Result<Self, DeError>,
    )
        requires
            Self::fields_distinct(),
            b.serializes_variant(out),
            payload_reads_back(out, payload),
            Self::variant_from(payload, result),
        ensures
            result matches Ok(v) && Self::same_variant(v, b),
    ;

    /// The serialised form of the variant names it.
    proof fn lemma_variant_named(b: Ser, out: Serialized)
        requires
            b.serializes_variant(out),
        ensures
            variant_name_of(out) == Name::NAME@,
            out is UnitVariant || out is TupleVariant || out is StructVariant,
    ;
}

impl<Name, Idx, SerIdx, Fields, SerFields, Parent> VariantRoundTrip<
    Parent,
    Name,
    Variant<Name, SerIdx, TupleVariant, SerFields>,
> for Variant<Name, Idx, TupleVariant, Fields> where
    Name: HasName,
    Idx: Num,
    SerIdx: Num,
    Fields: TupleFieldsRoundTrip<SerFields>,
    SerFields: SerializeTupleStructFields + SerializeTupleVariantFields,
    Parent: HasName,
 {
    open spec fn same_variant(a: Self, b: Variant<Name, SerIdx, TupleVariant, SerFields>) -> bool {
        Fields::same_fields(a.fields, b.fields)
    }

    open spec fn fields_distinct() -> bool {
        true
    }

    proof fn lemma_variant_roundtrip(
        b: Variant<Name, SerIdx, TupleVariant, SerFields>,
        out: Serialized,
        payload: Content,
        result: Result<Self, DeError>,
    ) {
        let fields = out->TupleVariant_fields;
        let inner = payload->Sequence_0;
        assert(payload == Content::Sequence(inner));
        Fields::lemma_variant_fields_alike(b.fields, fields@);
        match result {
            Ok(v) => Fields::lemma_tuple_fields_roundtrip(
                b.fields,
                fields@,
                inner@,
                0,
                Name::NAME,
                Ok(v.fields),
            ),
            Err(e) => Fields::lemma_tuple_fields_roundtrip(
                b.fields,
                fields@,
                inner@,
                0,
                Name::NAME,
                Err(e),
            ),
        }
    }

    proof fn lemma_variant_named(b: Variant<Name, SerIdx, TupleVariant, SerFields>, out: Serialized) {
    }
}

impl<Name, Idx, SerIdx, Names, SerNames, Fields, SerFields, Parent> VariantRoundTrip<
    Parent,
    Name,
    Variant<Name, SerIdx, StructVariant<SerNames>, SerFields>,
> for Variant<Name, Idx, StructVariant<Names>, Fields> where
    Name: HasName,
    Idx: Num,
    SerIdx: Num,
    Names: HasNames,
    SerNames: HasNames,
    Fields: StructFieldsRoundTrip<SerFields>,
    SerFields: SerializeStructFields + SerializeStructVariantFields,
    Parent: HasName,
 {
    open spec fn same_variant(
        a: Self,
        b: Variant<Name, SerIdx, StructVariant<SerNames>, SerFields>,
    ) -> bool {
        Fields::same_fields(a.fields, b.fields)
    }

    open spec fn fields_distinct() -> bool {
        no_duplicates(Fields::field_names())
    }

    proof fn lemma_variant_roundtrip(
        b: Variant<Name, SerIdx, StructVariant<SerNames>, SerFields>,
        out: Serialized,
        payload: Content,
        result: Result<Self, DeError>,
    ) {
        let fields = out->StructVariant_fields;
        let inner = payload->Mapping_0;
        assert(payload == Content::Mapping(inner));
        Fields::lemma_variant_fields_alike(b.fields, fields@);
        match result {
            Ok(v) => lemma_map_roundtrip(b.fields, fields@, inner@, Ok(v.fields)),
            Err(e) => lemma_map_roundtrip::<SerFields, Fields>(b.fields, fields@, inner@, Err(e)),
        }
    }

    proof fn lemma_variant_named(
        b: Variant<Name, SerIdx, StructVariant<SerNames>, SerFields>,
        out: Serialized,
    ) {
    }
}

impl<Name, Idx, SerIdx, Parent> VariantRoundTrip<
    Parent,
    Name,
    Variant<Name, SerIdx, UnitVariant, Nil>,
> for Variant<Name, Idx, UnitVariant, Nil> where
    Name: HasName,
    Idx: Num,
    SerIdx: Num,
    Parent: HasName,
 {
    open spec fn same_variant(a: Self, b: Variant<Name, SerIdx, UnitVariant, Nil>) -> bool {
        true
    }

    open spec fn fields_distinct() -> bool {
        true
    }

    proof fn lemma_variant_roundtrip(
        b: Variant<Name, SerIdx, UnitVariant, Nil>,
        out: Serialized,
        payload: Content,
        result: Result<Self, DeError>,
    ) {
    }

    proof fn lemma_variant_named(b: Variant<Name, SerIdx, UnitVariant, Nil>, out: Serialized) {
    }
}

/// Variants, the tail of the variants `TopVariants` of an enum named by `Parent`, whose active
/// variant comes back, holding the field values of the active variant of the serialised
/// variants `Ser`, when serialised and read back
pub trait VariantsRoundTrip<
    Parent: HasName,
    TopVariants: VariantsProduct,
    Ser: SerializeVariants<Parent>,
>: DeserializeVariants<TopVariants> {
    /// Names of the variants, in order
    spec fn variant_names() -> Seq<Seq<char>>;

    /// Whether the fields of every variant have distinct names, where they are named
    spec fn all_fields_distinct() -> bool;

    /// Whether `sum` holds, at the index of the variant that `repr` holds, a variant with the
    /// same field values
    spec fn same_active(repr: Ser::UnionRepr, sum: Sum<TopVariants>) -> bool;

    /// The serialised form of the variant that `repr` holds names one of the variants.
    proof fn lemma_named_among(repr: Ser::UnionRepr, out: Serialized)
        requires
            Ser::repr_valid(repr),
            Ser::serializes_repr(repr, out),
        ensures
            Self::variant_names().contains(variant_name_of(out)),
            out is UnitVariant || out is TupleVariant || out is StructVariant,
    ;

    /// Deserialising the variant that the serialised form names, from the data it reads back,
    /// gives a variant with the same field values.
    proof fn lemma_active_roundtrip(
        repr: Ser::UnionRepr,
        out: Serialized,
        var: VariantIdx,
        payload: Content,
        result: Result<Sum<TopVariants>, DeError>,
    )
        requires
            no_duplicates(Self::variant_names()),
            Self::all_fields_distinct(),
            Ser::repr_valid(repr),
            Ser::serializes_repr(repr, out),
            var.identifier() == Identifier::Str(variant_name_of(out)),
            payload_reads_back(out, payload),
            Self::deserializes_variant(var, payload, result),
        ensures
            result matches Ok(sum) && Self::same_active(repr, sum),
    ;
}

impl<Parent: HasName, TopVariants: VariantsProduct> VariantsRoundTrip<
    Parent,
    TopVariants,
    Nil,
> for Nil {
    open spec fn variant_names() -> Seq<Seq<char>> {
        Seq::empty()
    }

    open spec fn all_fields_distinct() -> bool {
        true
    }

    open spec fn same_active(repr: NilRepr, sum: Sum<TopVariants>) -> bool {
        false
    }

    proof fn lemma_named_among(repr: NilRepr, out: Serialized) {
    }

    proof fn lemma_active_roundtrip(
        repr: NilRepr,
        out: Serialized,
        var: VariantIdx,
        payload: Content,
        result: Result<Sum<TopVariants>, DeError>,
    ) {
    }
}

impl<
    Name,
    Idx,
    Flavour,
    Fields,
    SerIdx,
    SerFlavour,
    SerFields,
    Parent,
    Tail,
    SerTail,
    TopVariants,
> VariantsRoundTrip<Parent, TopVariants, Cons<Variant<Name, SerIdx, SerFlavour, SerFields>, SerTail>> for Cons<
    Variant<Name, Idx, Flavour, Fields>,
    Tail,
> where
    Name: HasName,
    Idx: Index<TopVariants, Selected = Variant<Name, Idx, Flavour, Fields>>,
    Flavour: VariantFlavour,
    Fields: FieldsProduct,
    SerIdx: Num,
    SerFlavour: VariantFlavour,
    SerFields: FieldsProduct,
    Variant<Name, Idx, Flavour, Fields>: VariantRoundTrip<
        Parent,
        Name,
        Variant<Name, SerIdx, SerFlavour, SerFields>,
    >,
    Variant<Name, SerIdx, SerFlavour, SerFields>: SerializeVariant<Parent>,
    Parent: HasName,
    Tail: VariantsRoundTrip<Parent, TopVariants, SerTail>,
    SerTail: SerializeVariants<Parent>,
    TopVariants: VariantsProduct,
 {
    open spec fn variant_names() -> Seq<Seq<char>> {
        seq![Name::NAME@] + <Tail as VariantsRoundTrip<Parent, TopVariants, SerTail>>::variant_names()
    }

    open spec fn all_fields_distinct() -> bool {
        &&& <Variant<Name, Idx, Flavour, Fields> as VariantRoundTrip<
            Parent,
            Name,
            Variant<Name, SerIdx, SerFlavour, SerFields>,
        >>::fields_distinct()
        &&& Tail::all_fields_distinct()
    }

    open spec fn same_active(
        repr: ConsRepr<Variant<Name, SerIdx, SerFlavour, SerFields>, SerTail>,
        sum: Sum<TopVariants>,
    ) -> bool {
        match repr {
            ConsRepr::Head(u) => Idx::spec_project(sum.repr()) matches Some(v) && <Variant<
                Name,
                Idx,
                Flavour,
                Fields,
            > as VariantRoundTrip<
                Parent,
                Name,
                Variant<Name, SerIdx, SerFlavour, SerFields>,
            >>::same_variant(v, u),
            ConsRepr::Tail(t) => Tail::same_active(t, sum),
        }
    }

    proof fn lemma_named_among(
        repr: ConsRepr<Variant<Name, SerIdx, SerFlavour, SerFields>, SerTail>,
        out: Serialized,
    ) {
        match repr {
            ConsRepr::Head(u) => {
                <Variant<Name, Idx, Flavour, Fields> as VariantRoundTrip<
                    Parent,
                    Name,
                    Variant<Name, SerIdx, SerFlavour, SerFields>,
                >>::lemma_variant_named(u, out);
                assert(<Self as VariantsRoundTrip<Parent, TopVariants, Cons<Variant<Name, SerIdx, SerFlavour, SerFields>, SerTail>>>::variant_names()[0] == Name::NAME@);
            },
            ConsRepr::Tail(t) => {
                Tail::lemma_named_among(t, out);
                let j = choose|j: int|
                    0 <= j < <Tail as VariantsRoundTrip<Parent, TopVariants, SerTail>>::variant_names().len() && <Tail as VariantsRoundTrip<Parent, TopVariants, SerTail>>::variant_names()[j]
                        == variant_name_of(out);
                assert(<Self as VariantsRoundTrip<Parent, TopVariants, Cons<Variant<Name, SerIdx, SerFlavour, SerFields>, SerTail>>>::variant_names()[j + 1] == variant_name_of(out));
            },
        }
    }

    proof fn lemma_active_roundtrip(
        repr: ConsRepr<Variant<Name, SerIdx, SerFlavour, SerFields>, SerTail>,
        out: Serialized,
        var: VariantIdx,
        payload: Content,
        result: Result<Sum<TopVariants>, DeError>,
    ) {
        match repr {
            ConsRepr::Head(u) => {
                <Variant<Name, Idx, Flavour, Fields> as VariantRoundTrip<
                    Parent,
                    Name,
                    Variant<Name, SerIdx, SerFlavour, SerFields>,
                >>::lemma_variant_named(u, out);
                assert(identifies(var.identifier(), Idx::NUM as u64, Name::NAME));
                match result {
                    Ok(sum) => {
                        let v = Idx::spec_project(sum.repr())->Some_0;
                        <Variant<Name, Idx, Flavour, Fields> as VariantRoundTrip<
                            Parent,
                            Name,
                            Variant<Name, SerIdx, SerFlavour, SerFields>,
                        >>::lemma_variant_roundtrip(u, out, payload, Ok(v));
                    },
                    Err(e) => {
                        <Variant<Name, Idx, Flavour, Fields> as VariantRoundTrip<
                            Parent,
                            Name,
                            Variant<Name, SerIdx, SerFlavour, SerFields>,
                        >>::lemma_variant_roundtrip(u, out, payload, Err(e));
                    },
                }
            },
            ConsRepr::Tail(t) => {
                Tail::lemma_named_among(t, out);
                let j = choose|j: int|
                    0 <= j < <Tail as VariantsRoundTrip<Parent, TopVariants, SerTail>>::variant_names().len() && <Tail as VariantsRoundTrip<Parent, TopVariants, SerTail>>::variant_names()[j]
                        == variant_name_of(out);
                assert(<Self as VariantsRoundTrip<Parent, TopVariants, Cons<Variant<Name, SerIdx, SerFlavour, SerFields>, SerTail>>>::variant_names()[j + 1] == variant_name_of(out));
                assert(<Self as VariantsRoundTrip<Parent, TopVariants, Cons<Variant<Name, SerIdx, SerFlavour, SerFields>, SerTail>>>::variant_names()[0] == Name::NAME@);
                assert(variant_name_of(out) != Name::NAME@);
                assert(!identifies(var.identifier(), Idx::NUM as u64, Name::NAME));
                assert(no_duplicates(<Tail as VariantsRoundTrip<Parent, TopVariants, SerTail>>::variant_names())) by {
                    assert forall|a: int, c: int|
                        0 <= a < c < <Tail as VariantsRoundTrip<Parent, TopVariants, SerTail>>::variant_names().len() implies <Tail as VariantsRoundTrip<Parent, TopVariants, SerTail>>::variant_names()[a]
                        != <Tail as VariantsRoundTrip<Parent, TopVariants, SerTail>>::variant_names()[c] by {
                        assert(<Tail as VariantsRoundTrip<Parent, TopVariants, SerTail>>::variant_names()[a] == <Self as VariantsRoundTrip<Parent, TopVariants, Cons<Variant<Name, SerIdx, SerFlavour, SerFields>, SerTail>>>::variant_names()[a + 1]);
                        assert(<Tail as VariantsRoundTrip<Parent, TopVariants, SerTail>>::variant_names()[c] == <Self as VariantsRoundTrip<Parent, TopVariants, Cons<Variant<Name, SerIdx, SerFlavour, SerFields>, SerTail>>>::variant_names()[c + 1]);
                    }
                }
                Tail::lemma_active_roundtrip(t, out, var, payload, result);
            },
        }
    }
}

/// An enum representation whose variants have distinct names, and whose struct variants have
/// fields with distinct names, serialised, read back and deserialised, gives the same active
/// variant with the field values that the serialised representation holds.
pub proof fn law_enum_roundtrip<Name, VariantNames, SerVariantNames, Ser, Variants>(
    repr: Enum<Name, SerVariantNames, Ser>,
    out: Serialized,
    content: Content,
    result: Result<Enum<Name, VariantNames, Variants>, DeError>,
) where
    Name: HasName,
    VariantNames: HasNames,
    SerVariantNames: HasNames,
    Ser: SerializeVariants<Name>,
    Variants: VariantsRoundTrip<Name, Variants, Ser>,

    requires
        no_duplicates(Variants::variant_names()),
        Variants::all_fields_distinct(),
        Ser::repr_valid(repr.variant.repr()),
        repr.serializes_repr(out),
        reads_back(out, content),
        Enum::<Name, VariantNames, Variants>::deserializes_repr(content, result),
    ensures
        result matches Ok(r) && Variants::same_active(repr.variant.repr(), r.variant),
{
    let active = repr.variant.repr();
    Variants::lemma_named_among(active, out);
    let inner_result = crate::serde::repr::enum_result(result);
    match out {
        Serialized::UnitVariant { variant, .. } => {
            let t = content->Str_0;
            assert(content == Content::Str(t));
            let var = VariantIdx::String(t);
            Variants::lemma_active_roundtrip(active, out, var, Content::Unit, inner_result);
        },
        Serialized::TupleVariant { variant, fields, .. } => {
            let c = content->Mapping_0;
            assert(content == Content::Mapping(c));
            let key = c@[0].0;
            let payload = c@[0].1;
            let t = key->Str_0;
            assert(key == Content::Str(t));
            let inner = payload->Sequence_0;
            assert(payload == Content::Sequence(inner));
            assert forall|j: int| 0 <= j < fields@.len() implies #[trigger] reads_back(
                fields@[j],
                inner@[0 + j],
            ) by {
                assert(fields@[j] == fields@[j]);
            }
            assert(payload_reads_back(out, payload));
            assert(spec_identifier(key, EXPECTING_VARIANT) == Ok::<Identifier, DeError>(
                Identifier::Str(t@),
            ));
            let var = choose|var: VariantIdx|
                {
                    &&& var.identifier() == Identifier::Str(t@)
                    &&& #[trigger] Variants::deserializes_variant(var, payload, inner_result)
                };
            Variants::lemma_active_roundtrip(active, out, var, payload, inner_result);
        },
        Serialized::StructVariant { variant, fields, .. } => {
            let c = content->Mapping_0;
            assert(content == Content::Mapping(c));
            let key = c@[0].0;
            let payload = c@[0].1;
            let t = key->Str_0;
            assert(key == Content::Str(t));
            let inner = payload->Mapping_0;
            assert(payload == Content::Mapping(inner));
            assert forall|i: int| 0 <= i < fields@.len() implies #[trigger] entry_reads_back(
                fields@,
                inner@,
                i,
            ) by {
                assert(fields@[i] == fields@[i]);
            }
            assert(payload_reads_back(out, payload));
            assert(spec_identifier(key, EXPECTING_VARIANT) == Ok::<Identifier, DeError>(
                Identifier::Str(t@),
            ));
            let var = choose|var: VariantIdx|
                {
                    &&& var.identifier() == Identifier::Str(t@)
                    &&& #[trigger] Variants::deserializes_variant(var, payload, inner_result)
                };
            Variants::lemma_active_roundtrip(active, out, var, payload, inner_result);
        },
        _ => {},
    }
}

} // verus!
