use vstd::prelude::*;
use core::marker::PhantomData;

use crate::generic::fields::Field;
use crate::generic::fields::FieldsProduct;
use crate::generic::names::HasName;
use crate::generic::names::HasOptionalName;
use crate::generic::names::Unnamed;
use crate::generic::product::Cons;
use crate::generic::product::Nil;
use crate::generic::product::Product;
use crate::serde::value::identifies;
use crate::serde::value::spec_identifier;
use crate::serde::value::spec_invalid_type;
use crate::serde::value::succeeds;
use crate::serde::value::unexpected;
use crate::serde::value::Content;
use crate::serde::value::DeError;
use crate::serde::value::DeserializeValue;
use crate::serde::value::Identifier;
use crate::serde::value::SerializeValue;
use crate::serde::value::Serialized;

verus! {

/// Fields that deserialise from a sequence of content, one item per field, in order
pub trait DeserializeTupleFields: FieldsProduct + Sized {
    /// Whether deserialising the fields from `items`, starting at position `index`, gives
    /// `result`; a visitor that expects `expected` reports a wrong number of items
    spec fn tuple_fields_from(
        items: Seq<Content>,
        index: int,
        expected: &'static str,
        result: Result<Self, DeError>,
    ) -> bool;

    /// Deserialise the fields from `items`, starting at position `index`; all remaining items
    /// must be used.
    fn deserialize_tuple_fields(items: &Vec<Content>, index: usize, expected: &'static str) -> (result:
        Result<Self, DeError>)
        requires
            index <= items@.len(),
        ensures
            Self::tuple_fields_from(items@, index as int, expected, result),
    ;
}

impl DeserializeTupleFields for Nil {
    open spec fn tuple_fields_from(
        items: Seq<Content>,
        index: int,
        expected: &'static str,
        result: Result<Nil, DeError>,
    ) -> bool {
        if index < items.len() {
            // There should be no further items in the sequence.
            result == Err::<Nil, DeError>(
                DeError::InvalidLength { len: (index + 1) as usize, expected },
            )
        } else {
            result == Ok::<Nil, DeError>(Nil)
        }
    }

    #[inline]
    fn deserialize_tuple_fields(items: &Vec<Content>, index: usize, expected: &'static str) -> (result:
        Result<Nil, DeError>) {
        if index < items.len() {
            return Err(DeError::InvalidLength { len: index + 1, expected });
        }
        Ok(Nil)
    }
}

impl<MaybeName, Type, Tail> DeserializeTupleFields for Cons<Field<MaybeName, Type>, Tail> where
    MaybeName: HasOptionalName,
    Type: DeserializeValue,
    Tail: DeserializeTupleFields,
 {
    open spec fn tuple_fields_from(
        items: Seq<Content>,
        index: int,
        expected: &'static str,
        result: Result<Self, DeError>,
    ) -> bool {
        if index >= items.len() {
            result == Err::<Self, DeError>(DeError::InvalidLength { len: index as usize, expected })
        } else {
            match result {
                Ok(fields) => {
                    &&& Type::deserializes(items[index], Ok(fields.0.value))
                    &&& Tail::tuple_fields_from(items, index + 1, expected, Ok(fields.1))
                },
                Err(e) => {
                    ||| Type::deserializes(items[index], Err(e))
                    ||| succeeds::<Type>(items[index]) && Tail::tuple_fields_from(
                        items,
                        index + 1,
                        expected,
                        Err(e),
                    )
                },
            }
        }
    }

    #[inline]
    fn deserialize_tuple_fields(items: &Vec<Content>, index: usize, expected: &'static str) -> (result:
        Result<Self, DeError>) {
        if index >= items.len() {
            return Err(DeError::InvalidLength { len: index, expected });
        }
        let value = match Type::deserialize_value(&items[index]) {
            Ok(value) => value,
            Err(e) => {
                return Err(e);
            },
        };
        let tail = match Tail::deserialize_tuple_fields(items, index + 1, expected) {
            Ok(tail) => tail,
            Err(e) => {
                return Err(e);
            },
        };
        Ok(Cons(Field::new(value), tail))
    }
}

/// Visitor that deserialises tuple fields, for the tuple struct or tuple variant named `Name`
pub struct TupleFieldsVisitor<Name, Fields> {
    pub name: PhantomData<Name>,
    pub fields: PhantomData<Fields>,
}

impl<Name: HasName, Fields: DeserializeTupleFields> TupleFieldsVisitor<Name, Fields> {
    /// Create the visitor.
    pub fn new() -> Self {
        Self { name: PhantomData, fields: PhantomData }
    }

    /// What this visitor expects: the name of the tuple struct or variant
    pub fn expecting(&self) -> (expected: &'static str)
        ensures
            expected == Name::NAME,
    {
        Name::NAME
    }

    /// Whether visiting `content` gives `result`
    pub open spec fn visits(content: Content, result: Result<Fields, DeError>) -> bool {
        match content {
            Content::Sequence(items) => Fields::tuple_fields_from(items@, 0, Name::NAME, result),
            _ => result == Err::<Fields, DeError>(spec_invalid_type(content, Name::NAME)),
        }
    }

    /// Deserialise the fields from `content`: a sequence with one item per field.
    pub fn visit(&self, content: &Content) -> (result: Result<Fields, DeError>)
        ensures
            Self::visits(*content, result),
    {
        match content {
            Content::Sequence(items) => Fields::deserialize_tuple_fields(items, 0, Name::NAME),
            _ => Err(DeError::InvalidType { unexpected: unexpected(content), expected: Name::NAME }),
        }
    }
}

/// Whether a struct field handled a map entry
#[derive(Debug)]
pub enum HandledField {
    Unknown,
    Handled,
}

/// The field position after `idx`
pub open spec fn next_index(idx: u64) -> u64 {
    if idx < u64::MAX {
        (idx + 1) as u64
    } else {
        idx
    }
}

/// Fields that deserialise from the entries of a map, keyed by field name or position
pub trait DeserializeStructFields: DeserializeTupleFields {
    /// The fields deserialised so far, one optional value per field
    type Interim: Product;

    /// No field deserialised yet
    spec fn spec_start() -> Self::Interim;

    /// What the fields deserialised so far give: the fields, if every one was given
    spec fn spec_finalize(interim: Self::Interim) -> Result<Self, DeError>;

    /// Whether handling an entry identified by `id` with value `value`, where the first field
    /// is at position `idx`, turns `interim` into `handled` and gives `result`
    spec fn handles(
        interim: Self::Interim,
        value: Content,
        id: Identifier,
        idx: u64,
        handled: Self::Interim,
        result: Result<HandledField, DeError>,
    ) -> bool;

    /// Start with no field deserialised.
    fn start() -> (interim: Self::Interim)
        ensures
            interim == Self::spec_start(),
    ;

    /// Build the fields from the fields deserialised so far.
    fn finalize(interim: Self::Interim) -> (result: Result<Self, DeError>)
        ensures
            result == Self::spec_finalize(interim),
    ;

    /// Deserialise the field that `field` identifies from `value`, if any field has that
    /// identifier; the first field is at position `idx`.
    fn handle_field(
        interim: &mut Self::Interim,
        value: &Content,
        field: &FieldIdx,
        idx: u64,
    ) -> (result: Result<HandledField, DeError>)
        ensures
            Self::handles(*old(interim), *value, field.identifier(), idx, *final(interim), result),
    ;
}

impl DeserializeStructFields for Nil {
    type Interim = Nil;

    open spec fn spec_start() -> Nil {
        Nil
    }

    open spec fn spec_finalize(interim: Nil) -> Result<Nil, DeError> {
        Ok(Nil)
    }

    open spec fn handles(
        interim: Nil,
        value: Content,
        id: Identifier,
        idx: u64,
        handled: Nil,
        result: Result<HandledField, DeError>,
    ) -> bool {
        result == Ok::<HandledField, DeError>(HandledField::Unknown)
    }

    #[inline]
    fn start() -> (interim: Nil) {
        Nil
    }

    #[inline]
    fn finalize(interim: Nil) -> (result: Result<Nil, DeError>) {
        Ok(Nil)
    }

    fn handle_field(interim: &mut Nil, value: &Content, field: &FieldIdx, idx: u64) -> (result:
        Result<HandledField, DeError>) {
        Ok(HandledField::Unknown)
    }
}

impl<Name, Type, Tail> DeserializeStructFields for Cons<Field<Name, Type>, Tail> where
    Name: HasName,
    Type: DeserializeValue,
    Tail: DeserializeStructFields,
 {
    type Interim = Cons<Option<Type>, Tail::Interim>;

    open spec fn spec_start() -> Self::Interim {
        Cons(None, Tail::spec_start())
    }

    open spec fn spec_finalize(interim: Self::Interim) -> Result<Self, DeError> {
        match interim.0 {
            None => Err(DeError::MissingField { field: Name::NAME }),
            Some(head) => match Tail::spec_finalize(interim.1) {
                Ok(tail) => Ok(Cons(Field { value: head, name: PhantomData }, tail)),
                Err(e) => Err(e),
            },
        }
    }

    open spec fn handles(
        interim: Self::Interim,
        value: Content,
        id: Identifier,
        idx: u64,
        handled: Self::Interim,
        result: Result<HandledField, DeError>,
    ) -> bool {
        if identifies(id, idx, Name::NAME) {
            if interim.0 is Some {
                &&& result == Err::<HandledField, DeError>(DeError::DuplicateField { field: Name::NAME })
                &&& handled == interim
            } else {
                match result {
                    Ok(h) => {
                        &&& h == HandledField::Handled
                        &&& handled.1 == interim.1
                        &&& handled.0 matches Some(v) && Type::deserializes(value, Ok(v))
                    },
                    Err(e) => {
                        &&& Type::deserializes(value, Err(e))
                        &&& handled == interim
                    },
                }
            }
        } else {
            &&& handled.0 == interim.0
            &&& Tail::handles(interim.1, value, id, next_index(idx), handled.1, result)
        }
    }

    #[inline]
    fn start() -> (interim: Self::Interim) {
        Cons(None, Tail::start())
    }

    #[inline]
    fn finalize(interim: Self::Interim) -> (result: Result<Self, DeError>) {
        let Cons(head, tail) = interim;
        let head = match head {
            Some(head) => head,
            None => {
                return Err(DeError::MissingField { field: Name::NAME });
            },
        };
        let tail = match Tail::finalize(tail) {
            Ok(tail) => tail,
            Err(e) => {
                return Err(e);
            },
        };
        Ok(Cons(Field::new(head), tail))
    }

    fn handle_field(
        interim: &mut Self::Interim,
        value: &Content,
        field: &FieldIdx,
        idx: u64,
    ) -> (result: Result<HandledField, DeError>) {
        if !field.identifies(idx, Name::NAME) {
            let next = if idx < u64::MAX {
                idx + 1
            } else {
                idx
            };
            return Tail::handle_field(&mut interim.1, value, field, next);
        }
        if interim.0.is_some() {
            return Err(DeError::DuplicateField { field: Name::NAME });
        }
        match Type::deserialize_value(value) {
            Ok(v) => {
                interim.0 = Some(v);
                Ok(HandledField::Handled)
            },
            Err(e) => Err(e),
        }
    }
}

/// Whether handling the map entries `entries` in order, starting from the fields deserialised
/// so far in `interim`, and then building the fields gives `result`
///
/// An entry whose key identifies no field is skipped, whatever its value.
pub open spec fn visits_entries<Fields: DeserializeStructFields>(
    entries: Seq<(Content, Content)>,
    interim: Fields::Interim,
    result: Result<Fields, DeError>,
) -> bool
    decreases entries.len(),
{
    if entries.len() == 0 {
        result == Fields::spec_finalize(interim)
    } else {
        match spec_identifier(entries[0].0, EXPECTING_FIELD) {
            Err(e) => result == Err::<Fields, DeError>(e),
            Ok(id) => exists|handled: Fields::Interim, h: Result<HandledField, DeError>|
                {
                    &&& #[trigger] Fields::handles(interim, entries[0].1, id, 0, handled, h)
                    &&& match h {
                        Err(e) => result == Err::<Fields, DeError>(e),
                        Ok(_) => visits_entries::<Fields>(entries.drop_first(), handled, result),
                    }
                },
        }
    }
}

/// Visitor that deserialises struct fields, for the struct or struct variant named `Name`
pub struct StructFieldsVisitor<Name, Fields> {
    pub name: PhantomData<Name>,
    pub fields: PhantomData<Fields>,
}

impl<Name: HasName, Fields: DeserializeStructFields> StructFieldsVisitor<Name, Fields> {
    /// Create the visitor.
    pub fn new() -> Self {
        Self { name: PhantomData, fields: PhantomData }
    }

    /// What this visitor expects: the name of the struct or variant
    pub fn expecting(&self) -> (expected: &'static str)
        ensures
            expected == Name::NAME,
    {
        Name::NAME
    }

    /// Whether visiting `content` gives `result`
    pub open spec fn visits(content: Content, result: Result<Fields, DeError>) -> bool {
        match content {
            Content::Sequence(items) => Fields::tuple_fields_from(items@, 0, Name::NAME, result),
            Content::Mapping(entries) => visits_entries::<Fields>(
                entries@,
                Fields::spec_start(),
                result,
            ),
            _ => result == Err::<Fields, DeError>(spec_invalid_type(content, Name::NAME)),
        }
    }

    /// Deserialise the fields from `content`: a sequence with one item per field, in order, or
    /// a map from field identifiers to values.
    pub fn visit(&self, content: &Content) -> (result: Result<Fields, DeError>)
        ensures
            Self::visits(*content, result),
    {
        match content {
            Content::Sequence(items) => Fields::deserialize_tuple_fields(items, 0, Name::NAME),
            Content::Mapping(entries) => Self::visit_map(entries),
            _ => Err(DeError::InvalidType { unexpected: unexpected(content), expected: Name::NAME }),
        }
    }

    /// Deserialise the fields from the entries of a map.
    pub fn visit_map(entries: &Vec<(Content, Content)>) -> (result: Result<Fields, DeError>)
        ensures
            visits_entries::<Fields>(entries@, Fields::spec_start(), result),
    {
        let mut interim = Fields::start();
        let mut i: usize = 0;
        assert(entries@.skip(0) =~= entries@);
        while i < entries.len()
            invariant
                i <= entries@.len(),
                forall|r: Result<Fields, DeError>|
                    #[trigger] visits_entries::<Fields>(entries@.skip(i as int), interim, r)
                        ==> visits_entries::<Fields>(entries@, Fields::spec_start(), r),
            decreases entries@.len() - i,
        {
            let ghost rest = entries@.skip(i as int);
            let ghost before = interim;
            assert(rest[0] == entries@[i as int]);
            assert(rest.drop_first() =~= entries@.skip(i + 1));
            let field = match FieldIdx::deserialize(&entries[i].0) {
                Ok(field) => field,
                Err(e) => {
                    assert(visits_entries::<Fields>(rest, before, Err(e)));
                    return Err(e);
                },
            };
            let res = Fields::handle_field(&mut interim, &entries[i].1, &field, 0);
            match res {
                Ok(_) => {},
                Err(e) => {
                    assert(visits_entries::<Fields>(rest, before, Err(e)));
                    return Err(e);
                },
            }
            assert forall|r: Result<Fields, DeError>|
                #[trigger] visits_entries::<Fields>(entries@.skip(i + 1), interim, r)
                    implies visits_entries::<Fields>(entries@, Fields::spec_start(), r) by {
                assert(visits_entries::<Fields>(rest, before, r));
            }
            i = i + 1;
        }
        assert(entries@.skip(i as int) =~= Seq::<(Content, Content)>::empty());
        let ghost last = interim;
        let result = Fields::finalize(interim);
        assert(visits_entries::<Fields>(entries@.skip(i as int), last, result));
        result
    }
}

/// What a visitor for field identifiers expects
pub const EXPECTING_FIELD: &'static str = "field";

/// Identifier of a struct field: its position, or its name as a string or as bytes
#[derive(Debug, Clone)]
pub enum FieldIdx {
    Index(u64),
    String(String),
    Bytes(Vec<u8>),
}

impl FieldIdx {
    /// The identifier this value gives
    pub open spec fn identifier(self) -> Identifier {
        match self {
            FieldIdx::Index(i) => Identifier::Index(i),
            FieldIdx::String(s) => Identifier::Str(s@),
            FieldIdx::Bytes(b) => Identifier::Bytes(b@),
        }
    }

    /// What the visitor of field identifiers expects
    pub fn expecting() -> (expected: &'static str)
        ensures
            expected == EXPECTING_FIELD,
    {
        EXPECTING_FIELD
    }

    /// Read a field identifier from `content`: a position, a string or bytes.
    pub fn deserialize(content: &Content) -> (result: Result<FieldIdx, DeError>)
        ensures
            match result {
                Ok(field) => spec_identifier(*content, EXPECTING_FIELD) == Ok::<Identifier, DeError>(field.identifier()),
                Err(e) => spec_identifier(*content, EXPECTING_FIELD) == Err::<Identifier, DeError>(e),
            },
    {
        match content {
            Content::U64(v) => Ok(FieldIdx::Index(*v)),
            Content::Str(s) => Ok(FieldIdx::String(s.clone())),
            Content::Bytes(b) => Ok(FieldIdx::Bytes(b.clone())),
            _ => Err(DeError::InvalidType { unexpected: unexpected(content), expected: EXPECTING_FIELD }),
        }
    }

    /// Whether this identifies the field at position `idx` named `name`.
    pub fn identifies(&self, idx: u64, name: &'static str) -> (r: bool)
        ensures
            r == identifies(self.identifier(), idx, name),
    {
        match self {
            FieldIdx::Index(i) => *i == idx,
            FieldIdx::String(s) => crate::serde::value::str_eq(s.as_str(), name),
            FieldIdx::Bytes(b) => crate::serde::value::bytes_eq(b.as_slice(), name.as_bytes()),
        }
    }
}

/// Fields of a tuple variant that serialise one item per field
pub trait SerializeTupleVariantFields: FieldsProduct {
    /// Whether `out` is what the fields serialise to, one item per field, in order
    spec fn serializes_tuple_variant_fields(&self, out: Seq<Serialized>) -> bool;

    /// Serialise the fields, appending them to `out`.
    fn serialize_tuple_fields(&self, out: &mut Vec<Serialized>)
        ensures
            final(out)@.len() >= old(out)@.len(),
            final(out)@.subrange(0, old(out)@.len() as int) == old(out)@,
            self.serializes_tuple_variant_fields(final(out)@.skip(old(out)@.len() as int)),
    ;
}

impl SerializeTupleVariantFields for Nil {
    open spec fn serializes_tuple_variant_fields(&self, out: Seq<Serialized>) -> bool {
        out.len() == 0
    }

    fn serialize_tuple_fields(&self, out: &mut Vec<Serialized>) {
        assert(out@.skip(out@.len() as int) =~= Seq::<Serialized>::empty());
        assert(out@.subrange(0, out@.len() as int) =~= out@);
    }
}

impl<Type, Tail> SerializeTupleVariantFields for Cons<Field<Unnamed, Type>, Tail> where
    Type: SerializeValue,
    Tail: SerializeTupleVariantFields,
 {
    open spec fn serializes_tuple_variant_fields(&self, out: Seq<Serialized>) -> bool {
        &&& out.len() >= 1
        &&& self.0.value.serializes(out[0])
        &&& self.1.serializes_tuple_variant_fields(out.drop_first())
    }

    fn serialize_tuple_fields(&self, out: &mut Vec<Serialized>) {
        let ghost start = out@;
        let item = self.0.value.serialize_value();
        out.push(item);
        let ghost middle = out@;
        self.1.serialize_tuple_fields(out);
        assert(out@.skip(start.len() as int).drop_first() =~= out@.skip(middle.len() as int));
        assert(out@.subrange(0, start.len() as int) =~= middle.subrange(0, start.len() as int));
        assert(out@.skip(start.len() as int)[0] == middle[start.len() as int]);
    }
}

/// Fields of a struct variant that serialise one named item per field
pub trait SerializeStructVariantFields: FieldsProduct {
    /// Whether `out` is what the fields serialise to, one named item per field, in order
    spec fn serializes_struct_variant_fields(&self, out: Seq<(&'static str, Serialized)>) -> bool;

    /// Serialise the fields, appending them with their names to `out`.
    fn serialize_struct_fields(&self, out: &mut Vec<(&'static str, Serialized)>)
        ensures
            final(out)@.len() >= old(out)@.len(),
            final(out)@.subrange(0, old(out)@.len() as int) == old(out)@,
            self.serializes_struct_variant_fields(final(out)@.skip(old(out)@.len() as int)),
    ;
}

impl SerializeStructVariantFields for Nil {
    open spec fn serializes_struct_variant_fields(&self, out: Seq<(&'static str, Serialized)>) -> bool {
        out.len() == 0
    }

    fn serialize_struct_fields(&self, out: &mut Vec<(&'static str, Serialized)>) {
        assert(out@.skip(out@.len() as int) =~= Seq::<(&'static str, Serialized)>::empty());
        assert(out@.subrange(0, out@.len() as int) =~= out@);
    }
}

impl<Name, Type, Tail> SerializeStructVariantFields for Cons<Field<Name, Type>, Tail> where
    Name: HasName,
    Type: SerializeValue,
    Tail: SerializeStructVariantFields,
 {
    open spec fn serializes_struct_variant_fields(&self, out: Seq<(&'static str, Serialized)>) -> bool {
        &&& out.len() >= 1
        &&& out[0].0 == Name::NAME
        &&& self.0.value.serializes(out[0].1)
        &&& self.1.serializes_struct_variant_fields(out.drop_first())
    }

    fn serialize_struct_fields(&self, out: &mut Vec<(&'static str, Serialized)>) {
        let ghost start = out@;
        let item = self.0.value.serialize_value();
        out.push((Name::NAME, item));
        let ghost middle = out@;
        self.1.serialize_struct_fields(out);
        assert(out@.skip(start.len() as int).drop_first() =~= out@.skip(middle.len() as int));
        assert(out@.subrange(0, start.len() as int) =~= middle.subrange(0, start.len() as int));
        assert(out@.skip(start.len() as int)[0] == middle[start.len() as int]);
    }
}

/// Fields of a tuple struct that serialise one item per field
pub trait SerializeTupleStructFields: FieldsProduct {
    /// Whether `out` is what the fields serialise to, one item per field, in order
    spec fn serializes_tuple_struct_fields(&self, out: Seq<Serialized>) -> bool;

    /// Serialise the fields, appending them to `out`.
    fn serialize_tuple_struct_fields(&self, out: &mut Vec<Serialized>)
        ensures
            final(out)@.len() >= old(out)@.len(),
            final(out)@.subrange(0, old(out)@.len() as int) == old(out)@,
            self.serializes_tuple_struct_fields(final(out)@.skip(old(out)@.len() as int)),
    ;
}

impl SerializeTupleStructFields for Nil {
    open spec fn serializes_tuple_struct_fields(&self, out: Seq<Serialized>) -> bool {
        out.len() == 0
    }

    fn serialize_tuple_struct_fields(&self, out: &mut Vec<Serialized>) {
        assert(out@.skip(out@.len() as int) =~= Seq::<Serialized>::empty());
        assert(out@.subrange(0, out@.len() as int) =~= out@);
    }
}

impl<Type, Tail> SerializeTupleStructFields for Cons<Field<Unnamed, Type>, Tail> where
    Type: SerializeValue,
    Tail: SerializeTupleStructFields,
 {
    open spec fn serializes_tuple_struct_fields(&self, out: Seq<Serialized>) -> bool {
        &&& out.len() >= 1
        &&& self.0.value.serializes(out[0])
        &&& self.1.serializes_tuple_struct_fields(out.drop_first())
    }

    fn serialize_tuple_struct_fields(&self, out: &mut Vec<Serialized>) {
        let ghost start = out@;
        let item = self.0.value.serialize_value();
        out.push(item);
        let ghost middle = out@;
        self.1.serialize_tuple_struct_fields(out);
        assert(out@.skip(start.len() as int).drop_first() =~= out@.skip(middle.len() as int));
        assert(out@.subrange(0, start.len() as int) =~= middle.subrange(0, start.len() as int));
        assert(out@.skip(start.len() as int)[0] == middle[start.len() as int]);
    }
}

/// Fields of a struct that serialise one named item per field
pub trait SerializeStructFields: FieldsProduct {
    /// Whether `out` is what the fields serialise to, one named item per field, in order
    spec fn serializes_struct_fields(&self, out: Seq<(&'static str, Serialized)>) -> bool;

    /// Serialise the fields, appending them with their names to `out`.
    fn serialize_struct_fields(&self, out: &mut Vec<(&'static str, Serialized)>)
        ensures
            final(out)@.len() >= old(out)@.len(),
            final(out)@.subrange(0, old(out)@.len() as int) == old(out)@,
            self.serializes_struct_fields(final(out)@.skip(old(out)@.len() as int)),
    ;
}

impl SerializeStructFields for Nil {
    open spec fn serializes_struct_fields(&self, out: Seq<(&'static str, Serialized)>) -> bool {
        out.len() == 0
    }

    fn serialize_struct_fields(&self, out: &mut Vec<(&'static str, Serialized)>) {
        assert(out@.skip(out@.len() as int) =~= Seq::<(&'static str, Serialized)>::empty());
        assert(out@.subrange(0, out@.len() as int) =~= out@);
    }
}

impl<Name, Type, Tail> SerializeStructFields for Cons<Field<Name, Type>, Tail> where
    Name: HasName,
    Type: SerializeValue,
    Tail: SerializeStructFields,
 {
    open spec fn serializes_struct_fields(&self, out: Seq<(&'static str, Serialized)>) -> bool {
        &&& out.len() >= 1
        &&& out[0].0 == Name::NAME
        &&& self.0.value.serializes(out[0].1)
        &&& self.1.serializes_struct_fields(out.drop_first())
    }

    fn serialize_struct_fields(&self, out: &mut Vec<(&'static str, Serialized)>) {
        let ghost start = out@;
        let item = self.0.value.serialize_value();
        out.push((Name::NAME, item));
        let ghost middle = out@;
        self.1.serialize_struct_fields(out);
        assert(out@.skip(start.len() as int).drop_first() =~= out@.skip(middle.len() as int));
        assert(out@.subrange(0, start.len() as int) =~= middle.subrange(0, start.len() as int));
        assert(out@.skip(start.len() as int)[0] == middle[start.len() as int]);
    }
}

} // verus!
