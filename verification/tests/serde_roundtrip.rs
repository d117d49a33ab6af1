use std::fmt::Debug;

use serde::ser::SerializeSeq;
use serde::ser::SerializeStruct;
use serde::ser::SerializeStructVariant;
use serde::ser::SerializeTupleStruct;
use serde::ser::SerializeTupleVariant;
use serde::Serialize;
use seu::generic::datatypes::DataType;
use seu::generic::enums::Enum;
use seu::generic::fields::Field;
use seu::generic::names::HasName;
use seu::generic::names::HasNames;
use seu::generic::names::Named;
use seu::generic::names::Unnamed;
use seu::generic::nums::Succ;
use seu::generic::nums::Zero;
use seu::generic::product::Cons;
use seu::generic::product::Nil;
use seu::generic::structs::Struct;
use seu::generic::sum::Sum;
use seu::generic::variants::StructVariant;
use seu::generic::variants::TupleVariant;
use seu::generic::variants::UnitVariant;
use seu::generic::variants::Variant;
use seu::serde::fields::FieldIdx;
use seu::serde::repr::DeserializeRepr;
use seu::serde::repr::SerializeRepr;
use seu::serde::value::Content;
use seu::serde::value::DeError;
use seu::serde::value::Serialized;
use seu::serde::value::Unexpected;
use seu::serde::variants::VariantIdx;
use seu::serde::DeserializeViaSeu;
use seu::serde::SerializeViaSeu;

// ---------------------------------------------------------------------------------------------
// Bridges between the library's data model and serde / serde_json

/// Replays a serialised tree on a serde serializer.
struct Replay<'a>(&'a Serialized);

impl Serialize for Replay<'_> {
    fn serialize<S: serde::Serializer>(&self, s: S) -> Result<S::Ok, S::Error> {
        match self.0 {
            Serialized::Bool(v) => s.serialize_bool(*v),
            Serialized::U8(v) => s.serialize_u8(*v),
            Serialized::U16(v) => s.serialize_u16(*v),
            Serialized::U32(v) => s.serialize_u32(*v),
            Serialized::U64(v) => s.serialize_u64(*v),
            Serialized::I8(v) => s.serialize_i8(*v),
            Serialized::I16(v) => s.serialize_i16(*v),
            Serialized::I32(v) => s.serialize_i32(*v),
            Serialized::I64(v) => s.serialize_i64(*v),
            Serialized::Str(v) => s.serialize_str(v),
            Serialized::Sequence(items) => {
                let mut seq = s.serialize_seq(Some(items.len()))?;
                for item in items {
                    seq.serialize_element(&Replay(item))?;
                }
                seq.end()
            }
            Serialized::UnitStruct { name } => s.serialize_unit_struct(name),
            Serialized::TupleStruct { name, len, fields } => {
                let mut st = s.serialize_tuple_struct(name, *len)?;
                for field in fields {
                    st.serialize_field(&Replay(field))?;
                }
                st.end()
            }
            Serialized::Struct { name, len, fields } => {
                let mut st = s.serialize_struct(name, *len)?;
                for (key, field) in fields {
                    st.serialize_field(key, &Replay(field))?;
                }
                st.end()
            }
            Serialized::UnitVariant { name, variant_index, variant } => {
                s.serialize_unit_variant(name, *variant_index, variant)
            }
            Serialized::TupleVariant { name, variant_index, variant, len, fields } => {
                let mut st = s.serialize_tuple_variant(name, *variant_index, variant, *len)?;
                for field in fields {
                    st.serialize_field(&Replay(field))?;
                }
                st.end()
            }
            Serialized::StructVariant { name, variant_index, variant, len, fields } => {
                let mut st = s.serialize_struct_variant(name, *variant_index, variant, *len)?;
                for (key, field) in fields {
                    st.serialize_field(key, &Replay(field))?;
                }
                st.end()
            }
        }
    }
}

/// The content a JSON value gives a visitor.
fn content(value: &serde_json::Value) -> Content {
    match value {
        serde_json::Value::Null => Content::Unit,
        serde_json::Value::Bool(b) => Content::Bool(*b),
        serde_json::Value::Number(n) => match (n.as_u64(), n.as_i64()) {
            (Some(u), _) => Content::U64(u),
            (None, Some(i)) => Content::I64(i),
            (None, None) => panic!("only integers are content"),
        },
        serde_json::Value::String(s) => Content::Str(s.clone()),
        serde_json::Value::Array(items) => Content::Sequence(items.iter().map(content).collect()),
        serde_json::Value::Object(map) => Content::Mapping(
            map.iter()
                .map(|(k, v)| (Content::Str(k.clone()), content(v)))
                .collect(),
        ),
    }
}

fn unexpected(u: &Unexpected) -> serde::de::Unexpected<'_> {
    match u {
        Unexpected::Unit => serde::de::Unexpected::Unit,
        Unexpected::Bool(b) => serde::de::Unexpected::Bool(*b),
        Unexpected::Unsigned(v) => serde::de::Unexpected::Unsigned(*v),
        Unexpected::Signed(v) => serde::de::Unexpected::Signed(*v),
        Unexpected::Str(s) => serde::de::Unexpected::Str(s),
        Unexpected::Bytes => serde::de::Unexpected::Bytes(&[]),
        Unexpected::Sequence => serde::de::Unexpected::Seq,
        Unexpected::Mapping => serde::de::Unexpected::Map,
    }
}

/// The error that a serde error type `E` builds from a deserialisation error.
fn serde_error<E: serde::de::Error>(err: &DeError) -> E {
    match err {
        DeError::InvalidType { unexpected: u, expected } => E::invalid_type(unexpected(u), expected),
        DeError::InvalidValue { unexpected: u, expected } => E::invalid_value(unexpected(u), expected),
        DeError::InvalidLength { len, expected } => E::invalid_length(*len, expected),
        DeError::UnknownVariant { variant } => E::custom(format!("unknown variant {variant:?}")),
        DeError::MissingField { field } => E::missing_field(field),
        DeError::DuplicateField { field } => E::duplicate_field(field),
    }
}

/// Message of an error, as serde_json words it
fn json_message(err: &DeError) -> String {
    serde_error::<serde_json::Error>(err).to_string()
}

/// Message of an error, as serde's own error type words it
fn plain_message(err: &DeError) -> String {
    serde_error::<serde::de::value::Error>(err).to_string()
}

fn deserialize<T>(content: &Content) -> Result<T, DeError>
where
    T: DataType,
    T::Repr: DeserializeRepr,
{
    DeserializeViaSeu::<T>::deserialize(content).map(DeserializeViaSeu::into_data)
}

fn assert_json<T>(value: T, expected: serde_json::Value)
where
    T: DataType + PartialEq + Debug,
    for<'a> T::ReprRef<'a>: SerializeRepr,
    T::Repr: DeserializeRepr,
{
    let serialized = SerializeViaSeu::new(&value).serialize();
    let got = serde_json::to_value(Replay(&serialized)).unwrap();
    assert_eq!(got, expected);

    let back = deserialize::<T>(&content(&expected)).unwrap();
    assert_eq!(back, value);
}

fn string(s: &str) -> serde_json::Value {
    serde_json::Value::String(s.to_owned())
}

fn number(n: u64) -> serde_json::Value {
    serde_json::Value::from(n)
}

fn array(items: Vec<serde_json::Value>) -> serde_json::Value {
    serde_json::Value::Array(items)
}

fn object(entries: Vec<(&str, serde_json::Value)>) -> serde_json::Value {
    serde_json::Value::Object(entries.into_iter().map(|(k, v)| (k.to_owned(), v)).collect())
}

fn str_content(s: &str) -> Content {
    Content::Str(s.to_owned())
}

// ---------------------------------------------------------------------------------------------
// Data types and their generic representations

struct UnitStructName;

impl HasName for UnitStructName {
    const NAME: &'static str = "UnitStruct";
}

struct EmptyTupleStructName;

impl HasName for EmptyTupleStructName {
    const NAME: &'static str = "EmptyTupleStruct";
}

struct TupleStructName;

impl HasName for TupleStructName {
    const NAME: &'static str = "TupleStruct";
}

struct EmptyNamedStructName;

impl HasName for EmptyNamedStructName {
    const NAME: &'static str = "EmptyNamedStruct";
}

struct NamedStructName;

impl HasName for NamedStructName {
    const NAME: &'static str = "NamedStruct";
}

struct GenericStructName;

impl HasName for GenericStructName {
    const NAME: &'static str = "GenericStruct";
}

struct EnumShapesName;

impl HasName for EnumShapesName {
    const NAME: &'static str = "EnumShapes";
}

struct FirstName;

impl HasName for FirstName {
    const NAME: &'static str = "first";
}

struct SecondName;

impl HasName for SecondName {
    const NAME: &'static str = "second";
}

struct LabelName;

impl HasName for LabelName {
    const NAME: &'static str = "label";
}

struct ValueName;

impl HasName for ValueName {
    const NAME: &'static str = "value";
}

struct ItemsName;

impl HasName for ItemsName {
    const NAME: &'static str = "items";
}

struct UnitName;

impl HasName for UnitName {
    const NAME: &'static str = "Unit";
}

struct EmptyTupleName;

impl HasName for EmptyTupleName {
    const NAME: &'static str = "EmptyTuple";
}

struct TupleName;

impl HasName for TupleName {
    const NAME: &'static str = "Tuple";
}

struct EmptyStructName;

impl HasName for EmptyStructName {
    const NAME: &'static str = "EmptyStruct";
}

struct StructName;

impl HasName for StructName {
    const NAME: &'static str = "Struct";
}

struct GenericName;

impl HasName for GenericName {
    const NAME: &'static str = "Generic";
}

struct NoNames;

impl HasNames for NoNames {
    const NAMES: &'static [&'static str] = &[];
}

struct NamedFieldNames;

impl HasNames for NamedFieldNames {
    const NAMES: &'static [&'static str] = &["first", "second", "label"];
}

struct GenericFieldNames;

impl HasNames for GenericFieldNames {
    const NAMES: &'static [&'static str] = &["value", "items"];
}

struct EnumShapesVariantNames;

impl HasNames for EnumShapesVariantNames {
    const NAMES: &'static [&'static str] = &["Unit", "EmptyTuple", "Tuple", "EmptyStruct", "Struct", "Generic"];
}

type S2 = Succ<Succ<Zero>>;
type S3 = Succ<S2>;
type S4 = Succ<S3>;
type S5 = Succ<S4>;

type Unnamed3<A, B, C> = Cons<Field<Unnamed, A>, Cons<Field<Unnamed, B>, Cons<Field<Unnamed, C>, Nil>>>;
type Named3<A, B, C> = Cons<
    Field<Named<FirstName>, A>,
    Cons<Field<Named<SecondName>, B>, Cons<Field<Named<LabelName>, C>, Nil>>,
>;
type GenericFields<A, B> = Cons<Field<Named<ValueName>, A>, Cons<Field<Named<ItemsName>, B>, Nil>>;

#[derive(Debug, PartialEq)]
struct UnitStruct;

impl DataType for UnitStruct {
    const TYPE_NAME: &'static str = "UnitStruct";
    type Repr = Struct<UnitStructName, UnitVariant, Nil>;
    type ReprRef<'a> = Struct<UnitStructName, UnitVariant, Nil>;
    type ReprMut<'a> = Struct<UnitStructName, UnitVariant, Nil>;

    fn into_repr(self) -> Self::Repr {
        Struct::new(Nil)
    }

    fn as_repr(&self) -> Self::ReprRef<'_> {
        Struct::new(Nil)
    }

    fn as_repr_mut(&mut self) -> Self::ReprMut<'_> {
        Struct::new(Nil)
    }

    fn from_repr(_repr: Self::Repr) -> Self {
        UnitStruct
    }
}

#[derive(Debug, PartialEq)]
struct EmptyTupleStruct();

impl DataType for EmptyTupleStruct {
    const TYPE_NAME: &'static str = "EmptyTupleStruct";
    type Repr = Struct<EmptyTupleStructName, TupleVariant, Nil>;
    type ReprRef<'a> = Struct<EmptyTupleStructName, TupleVariant, Nil>;
    type ReprMut<'a> = Struct<EmptyTupleStructName, TupleVariant, Nil>;

    fn into_repr(self) -> Self::Repr {
        Struct::new(Nil)
    }

    fn as_repr(&self) -> Self::ReprRef<'_> {
        Struct::new(Nil)
    }

    fn as_repr_mut(&mut self) -> Self::ReprMut<'_> {
        Struct::new(Nil)
    }

    fn from_repr(_repr: Self::Repr) -> Self {
        EmptyTupleStruct()
    }
}

#[derive(Debug, PartialEq)]
struct TupleStruct(u8, bool, String);

impl DataType for TupleStruct {
    const TYPE_NAME: &'static str = "TupleStruct";
    type Repr = Struct<TupleStructName, TupleVariant, Unnamed3<u8, bool, String>>;
    type ReprRef<'a> = Struct<TupleStructName, TupleVariant, Unnamed3<&'a u8, &'a bool, &'a String>>;
    type ReprMut<'a> =
        Struct<TupleStructName, TupleVariant, Unnamed3<&'a mut u8, &'a mut bool, &'a mut String>>;

    fn into_repr(self) -> Self::Repr {
        Struct::new(Cons(Field::new(self.0), Cons(Field::new(self.1), Cons(Field::new(self.2), Nil))))
    }

    fn as_repr(&self) -> Self::ReprRef<'_> {
        Struct::new(Cons(Field::new(&self.0), Cons(Field::new(&self.1), Cons(Field::new(&self.2), Nil))))
    }

    fn as_repr_mut(&mut self) -> Self::ReprMut<'_> {
        Struct::new(Cons(
            Field::new(&mut self.0),
            Cons(Field::new(&mut self.1), Cons(Field::new(&mut self.2), Nil)),
        ))
    }

    fn from_repr(repr: Self::Repr) -> Self {
        let Cons(a, Cons(b, Cons(c, Nil))) = repr.fields;
        TupleStruct(a.value, b.value, c.value)
    }
}

#[derive(Debug, PartialEq)]
struct EmptyNamedStruct {}

impl DataType for EmptyNamedStruct {
    const TYPE_NAME: &'static str = "EmptyNamedStruct";
    type Repr = Struct<EmptyNamedStructName, StructVariant<NoNames>, Nil>;
    type ReprRef<'a> = Struct<EmptyNamedStructName, StructVariant<NoNames>, Nil>;
    type ReprMut<'a> = Struct<EmptyNamedStructName, StructVariant<NoNames>, Nil>;

    fn into_repr(self) -> Self::Repr {
        Struct::new(Nil)
    }

    fn as_repr(&self) -> Self::ReprRef<'_> {
        Struct::new(Nil)
    }

    fn as_repr_mut(&mut self) -> Self::ReprMut<'_> {
        Struct::new(Nil)
    }

    fn from_repr(_repr: Self::Repr) -> Self {
        EmptyNamedStruct {}
    }
}

#[derive(Debug, PartialEq)]
struct NamedStruct {
    first: u8,
    second: bool,
    label: String,
}

impl DataType for NamedStruct {
    const TYPE_NAME: &'static str = "NamedStruct";
    type Repr = Struct<NamedStructName, StructVariant<NamedFieldNames>, Named3<u8, bool, String>>;
    type ReprRef<'a> =
        Struct<NamedStructName, StructVariant<NamedFieldNames>, Named3<&'a u8, &'a bool, &'a String>>;
    type ReprMut<'a> = Struct<
        NamedStructName,
        StructVariant<NamedFieldNames>,
        Named3<&'a mut u8, &'a mut bool, &'a mut String>,
    >;

    fn into_repr(self) -> Self::Repr {
        Struct::new(Cons(
            Field::new(self.first),
            Cons(Field::new(self.second), Cons(Field::new(self.label), Nil)),
        ))
    }

    fn as_repr(&self) -> Self::ReprRef<'_> {
        Struct::new(Cons(
            Field::new(&self.first),
            Cons(Field::new(&self.second), Cons(Field::new(&self.label), Nil)),
        ))
    }

    fn as_repr_mut(&mut self) -> Self::ReprMut<'_> {
        Struct::new(Cons(
            Field::new(&mut self.first),
            Cons(Field::new(&mut self.second), Cons(Field::new(&mut self.label), Nil)),
        ))
    }

    fn from_repr(repr: Self::Repr) -> Self {
        let Cons(first, Cons(second, Cons(label, Nil))) = repr.fields;
        NamedStruct {
            first: first.value,
            second: second.value,
            label: label.value,
        }
    }
}

#[derive(Debug, PartialEq)]
struct GenericStruct<T> {
    value: T,
    items: Vec<T>,
}

impl<T> DataType for GenericStruct<T> {
    const TYPE_NAME: &'static str = "GenericStruct";
    type Repr = Struct<GenericStructName, StructVariant<GenericFieldNames>, GenericFields<T, Vec<T>>>;
    type ReprRef<'a>
        = Struct<GenericStructName, StructVariant<GenericFieldNames>, GenericFields<&'a T, &'a Vec<T>>>
    where
        Self: 'a;
    type ReprMut<'a>
        = Struct<
        GenericStructName,
        StructVariant<GenericFieldNames>,
        GenericFields<&'a mut T, &'a mut Vec<T>>,
    >
    where
        Self: 'a;

    fn into_repr(self) -> Self::Repr {
        Struct::new(Cons(Field::new(self.value), Cons(Field::new(self.items), Nil)))
    }

    fn as_repr(&self) -> Self::ReprRef<'_> {
        Struct::new(Cons(Field::new(&self.value), Cons(Field::new(&self.items), Nil)))
    }

    fn as_repr_mut(&mut self) -> Self::ReprMut<'_> {
        Struct::new(Cons(Field::new(&mut self.value), Cons(Field::new(&mut self.items), Nil)))
    }

    fn from_repr(repr: Self::Repr) -> Self {
        let Cons(value, Cons(items, Nil)) = repr.fields;
        GenericStruct {
            value: value.value,
            items: items.value,
        }
    }
}

#[derive(Debug, PartialEq)]
enum EnumShapes<T> {
    Unit,
    EmptyTuple(),
    Tuple(u8, bool, String),
    EmptyStruct {},
    Struct {
        first: u8,
        second: bool,
        label: String,
    },
    Generic {
        value: T,
        items: Vec<T>,
    },
}

type ShapeVariants<A, B, C, T, V> = Cons<
    Variant<UnitName, Zero, UnitVariant, Nil>,
    Cons<
        Variant<EmptyTupleName, Succ<Zero>, TupleVariant, Nil>,
        Cons<
            Variant<TupleName, S2, TupleVariant, Unnamed3<A, B, C>>,
            Cons<
                Variant<EmptyStructName, S3, StructVariant<NoNames>, Nil>,
                Cons<
                    Variant<StructName, S4, StructVariant<NamedFieldNames>, Named3<A, B, C>>,
                    Cons<Variant<GenericName, S5, StructVariant<GenericFieldNames>, GenericFields<T, V>>, Nil>,
                >,
            >,
        >,
    >,
>;

impl<T> DataType for EnumShapes<T> {
    const TYPE_NAME: &'static str = "EnumShapes";
    type Repr = Enum<EnumShapesName, EnumShapesVariantNames, ShapeVariants<u8, bool, String, T, Vec<T>>>;
    type ReprRef<'a>
        = Enum<
        EnumShapesName,
        EnumShapesVariantNames,
        ShapeVariants<&'a u8, &'a bool, &'a String, &'a T, &'a Vec<T>>,
    >
    where
        Self: 'a;
    type ReprMut<'a>
        = Enum<
        EnumShapesName,
        EnumShapesVariantNames,
        ShapeVariants<&'a mut u8, &'a mut bool, &'a mut String, &'a mut T, &'a mut Vec<T>>,
    >
    where
        Self: 'a;

    fn into_repr(self) -> Self::Repr {
        Enum::new(match self {
            EnumShapes::Unit => Sum::new(Zero, Variant::new(Nil)),
            EnumShapes::EmptyTuple() => Sum::new(Succ(Zero), Variant::new(Nil)),
            EnumShapes::Tuple(a, b, c) => Sum::new(
                Succ(Succ(Zero)),
                Variant::new(Cons(Field::new(a), Cons(Field::new(b), Cons(Field::new(c), Nil)))),
            ),
            EnumShapes::EmptyStruct {} => Sum::new(Succ(Succ(Succ(Zero))), Variant::new(Nil)),
            EnumShapes::Struct { first, second, label } => Sum::new(
                Succ(Succ(Succ(Succ(Zero)))),
                Variant::new(Cons(
                    Field::new(first),
                    Cons(Field::new(second), Cons(Field::new(label), Nil)),
                )),
            ),
            EnumShapes::Generic { value, items } => Sum::new(
                Succ(Succ(Succ(Succ(Succ(Zero))))),
                Variant::new(Cons(Field::new(value), Cons(Field::new(items), Nil))),
            ),
        })
    }

    fn as_repr(&self) -> Self::ReprRef<'_> {
        Enum::new(match self {
            EnumShapes::Unit => Sum::new(Zero, Variant::new(Nil)),
            EnumShapes::EmptyTuple() => Sum::new(Succ(Zero), Variant::new(Nil)),
            EnumShapes::Tuple(a, b, c) => Sum::new(
                Succ(Succ(Zero)),
                Variant::new(Cons(Field::new(a), Cons(Field::new(b), Cons(Field::new(c), Nil)))),
            ),
            EnumShapes::EmptyStruct {} => Sum::new(Succ(Succ(Succ(Zero))), Variant::new(Nil)),
            EnumShapes::Struct { first, second, label } => Sum::new(
                Succ(Succ(Succ(Succ(Zero)))),
                Variant::new(Cons(
                    Field::new(first),
                    Cons(Field::new(second), Cons(Field::new(label), Nil)),
                )),
            ),
            EnumShapes::Generic { value, items } => Sum::new(
                Succ(Succ(Succ(Succ(Succ(Zero))))),
                Variant::new(Cons(Field::new(value), Cons(Field::new(items), Nil))),
            ),
        })
    }

    fn as_repr_mut(&mut self) -> Self::ReprMut<'_> {
        Enum::new(match self {
            EnumShapes::Unit => Sum::new(Zero, Variant::new(Nil)),
            EnumShapes::EmptyTuple() => Sum::new(Succ(Zero), Variant::new(Nil)),
            EnumShapes::Tuple(a, b, c) => Sum::new(
                Succ(Succ(Zero)),
                Variant::new(Cons(Field::new(a), Cons(Field::new(b), Cons(Field::new(c), Nil)))),
            ),
            EnumShapes::EmptyStruct {} => Sum::new(Succ(Succ(Succ(Zero))), Variant::new(Nil)),
            EnumShapes::Struct { first, second, label } => Sum::new(
                Succ(Succ(Succ(Succ(Zero)))),
                Variant::new(Cons(
                    Field::new(first),
                    Cons(Field::new(second), Cons(Field::new(label), Nil)),
                )),
            ),
            EnumShapes::Generic { value, items } => Sum::new(
                Succ(Succ(Succ(Succ(Succ(Zero))))),
                Variant::new(Cons(Field::new(value), Cons(Field::new(items), Nil))),
            ),
        })
    }

    fn from_repr(repr: Self::Repr) -> Self {
        repr.variant.reduce(Cons(
            |_var: Variant<UnitName, Zero, UnitVariant, Nil>| EnumShapes::Unit,
            Cons(
                |_var: Variant<EmptyTupleName, Succ<Zero>, TupleVariant, Nil>| EnumShapes::EmptyTuple(),
                Cons(
                    |var: Variant<TupleName, S2, TupleVariant, Unnamed3<u8, bool, String>>| {
                        let Cons(a, Cons(b, Cons(c, Nil))) = var.fields;
                        EnumShapes::Tuple(a.value, b.value, c.value)
                    },
                    Cons(
                        |_var: Variant<EmptyStructName, S3, StructVariant<NoNames>, Nil>| {
                            EnumShapes::EmptyStruct {}
                        },
                        Cons(
                            |var: Variant<StructName, S4, StructVariant<NamedFieldNames>, Named3<u8, bool, String>>| {
                                let Cons(first, Cons(second, Cons(label, Nil))) = var.fields;
                                EnumShapes::Struct {
                                    first: first.value,
                                    second: second.value,
                                    label: label.value,
                                }
                            },
                            Cons(
                                |var: Variant<GenericName, S5, StructVariant<GenericFieldNames>, GenericFields<T, Vec<T>>>| {
                                    let Cons(value, Cons(items, Nil)) = var.fields;
                                    EnumShapes::Generic {
                                        value: value.value,
                                        items: items.value,
                                    }
                                },
                                Nil,
                            ),
                        ),
                    ),
                ),
            ),
        ))
    }
}

// ---------------------------------------------------------------------------------------------
// Tests

#[test]
fn serializes_unit_struct() {
    assert_json(UnitStruct, serde_json::Value::Null);
}

#[test]
fn serializes_tuple_structs() {
    assert_json(EmptyTupleStruct(), array(vec![]));
    assert_json(
        TupleStruct(1, true, "tuple".to_owned()),
        array(vec![number(1), serde_json::Value::Bool(true), string("tuple")]),
    );
}

#[test]
fn serializes_named_structs() {
    assert_json(EmptyNamedStruct {}, object(vec![]));
    assert_json(
        NamedStruct {
            first: 1,
            second: true,
            label: "named".to_owned(),
        },
        object(vec![
            ("first", number(1)),
            ("second", serde_json::Value::Bool(true)),
            ("label", string("named")),
        ]),
    );
}

#[test]
fn serializes_generic_struct_fields() {
    assert_json(
        GenericStruct {
            value: 1,
            items: vec![2, 3],
        },
        object(vec![("value", number(1)), ("items", array(vec![number(2), number(3)]))]),
    );
}

#[test]
fn serializes_unit_enum_variant() {
    assert_json(EnumShapes::<u8>::Unit, string("Unit"));
}

#[test]
fn serializes_empty_tuple_enum_variant() {
    assert_json(EnumShapes::<u8>::EmptyTuple(), object(vec![("EmptyTuple", array(vec![]))]));
}

#[test]
fn serializes_tuple_enum_variant() {
    assert_json(
        EnumShapes::<u8>::Tuple(1, true, "tuple".to_owned()),
        object(vec![(
            "Tuple",
            array(vec![number(1), serde_json::Value::Bool(true), string("tuple")]),
        )]),
    );
}

#[test]
fn serializes_empty_struct_enum_variant() {
    assert_json(EnumShapes::<u8>::EmptyStruct {}, object(vec![("EmptyStruct", object(vec![]))]));
}

#[test]
fn serializes_struct_enum_variant() {
    assert_json(
        EnumShapes::<u8>::Struct {
            first: 1,
            second: true,
            label: "struct".to_owned(),
        },
        object(vec![(
            "Struct",
            object(vec![
                ("first", number(1)),
                ("second", serde_json::Value::Bool(true)),
                ("label", string("struct")),
            ]),
        )]),
    );
}

#[test]
fn serializes_generic_struct_enum_variant() {
    assert_json(
        EnumShapes::Generic {
            value: 1,
            items: vec![2, 3],
        },
        object(vec![(
            "Generic",
            object(vec![("value", number(1)), ("items", array(vec![number(2), number(3)]))]),
        )]),
    );
}

#[test]
fn deserializes_named_structs_from_positional_fields() {
    let got = deserialize::<NamedStruct>(&Content::Sequence(vec![
        Content::U64(1),
        Content::Bool(true),
        str_content("named"),
    ]))
    .unwrap();

    assert_eq!(
        got,
        NamedStruct {
            first: 1,
            second: true,
            label: "named".to_owned(),
        }
    );
}

#[test]
fn deserializes_named_structs_from_numeric_field_indices() {
    let got = deserialize::<NamedStruct>(&Content::Mapping(vec![
        (Content::U64(0), Content::U64(1)),
        (Content::U64(1), Content::Bool(true)),
        (Content::U64(2), str_content("named")),
    ]))
    .unwrap();

    assert_eq!(
        got,
        NamedStruct {
            first: 1,
            second: true,
            label: "named".to_owned(),
        }
    );
}

#[test]
fn deserializes_empty_shapes_from_unit_or_empty_fields() {
    assert_eq!(deserialize::<UnitStruct>(&Content::Unit).unwrap(), UnitStruct);
    assert_eq!(
        deserialize::<EmptyTupleStruct>(&Content::Sequence(vec![])).unwrap(),
        EmptyTupleStruct()
    );
    assert_eq!(
        deserialize::<EmptyNamedStruct>(&Content::Mapping(vec![])).unwrap(),
        EmptyNamedStruct {}
    );
}

#[test]
fn rejects_unit_for_empty_tuple_shapes() {
    let err = deserialize::<EmptyTupleStruct>(&Content::Unit).unwrap_err();
    assert!(json_message(&err).contains("invalid type: null"));
    let err = deserialize::<EnumShapes<u8>>(&str_content("EmptyTuple")).unwrap_err();
    assert!(json_message(&err).contains("invalid type: null"));
    assert_eq!(
        deserialize::<EnumShapes<u8>>(&Content::Mapping(vec![(
            str_content("EmptyTuple"),
            Content::Sequence(vec![])
        )]))
        .unwrap(),
        EnumShapes::EmptyTuple()
    );
}

#[test]
fn rejects_unit_for_non_empty_tuple_structs() {
    let err = deserialize::<TupleStruct>(&Content::Unit).unwrap_err();

    assert!(json_message(&err).contains("invalid type: null"));
}

#[test]
fn rejects_unit_tuple_struct_from_tuple_struct_visitor() {
    let err = DeserializeViaSeu::<TupleStruct>::deserialize(&Content::Unit).err().unwrap();

    assert!(plain_message(&err).contains("invalid type: unit value"));
}

#[test]
fn deserializes_named_structs_ignoring_unknown_fields() {
    let got = deserialize::<NamedStruct>(&Content::Mapping(vec![
        (str_content("ignored"), str_content("value")),
        (str_content("first"), Content::U64(1)),
        (str_content("second"), Content::Bool(true)),
        (str_content("label"), str_content("named")),
    ]))
    .unwrap();

    assert_eq!(
        got,
        NamedStruct {
            first: 1,
            second: true,
            label: "named".to_owned(),
        }
    );
}

#[test]
fn rejects_duplicate_named_struct_fields() {
    let err = deserialize::<NamedStruct>(&Content::Mapping(vec![
        (str_content("first"), Content::U64(1)),
        (str_content("first"), Content::U64(2)),
        (str_content("second"), Content::Bool(true)),
        (str_content("label"), str_content("named")),
    ]))
    .err()
    .unwrap();

    assert!(json_message(&err).contains("duplicate field `first`"));
}

#[test]
fn rejects_duplicate_named_struct_fields_by_index() {
    let err = deserialize::<NamedStruct>(&Content::Mapping(vec![
        (Content::U64(0), Content::U64(1)),
        (Content::U64(0), Content::U64(2)),
        (Content::U64(1), Content::Bool(true)),
        (Content::U64(2), str_content("named")),
    ]))
    .err()
    .unwrap();

    assert!(plain_message(&err).contains("duplicate field `first`"));
}

#[test]
fn rejects_missing_named_struct_fields() {
    let err = deserialize::<NamedStruct>(&Content::Mapping(vec![
        (str_content("first"), Content::U64(1)),
        (str_content("second"), Content::Bool(true)),
    ]))
    .unwrap_err();

    assert!(json_message(&err).contains("missing field `label`"));
}

#[test]
fn rejects_tuple_structs_with_wrong_length() {
    let too_short = deserialize::<TupleStruct>(&Content::Sequence(vec![
        Content::U64(1),
        Content::Bool(true),
    ]))
    .unwrap_err();
    assert!(json_message(&too_short).contains("invalid length 2"));

    let too_long = deserialize::<TupleStruct>(&Content::Sequence(vec![
        Content::U64(1),
        Content::Bool(true),
        str_content("tuple"),
        str_content("extra"),
    ]))
    .unwrap_err();
    assert!(json_message(&too_long).contains("invalid length 4"));
}

#[test]
fn rejects_unit_for_non_empty_named_structs() {
    let err = deserialize::<NamedStruct>(&Content::Unit).unwrap_err();

    assert!(json_message(&err).contains("invalid type: null"));
}

#[test]
fn rejects_unknown_enum_variants() {
    let err = deserialize::<EnumShapes<u8>>(&content(&object(vec![(
        "Unknown",
        serde_json::Value::Null,
    )])))
    .unwrap_err();

    assert!(json_message(&err).contains("unknown variant"));
}

#[test]
fn deserializes_named_structs_from_byte_field_names() {
    let got = deserialize::<NamedStruct>(&Content::Mapping(vec![
        (Content::Bytes(b"first".to_vec()), Content::U64(1)),
        (Content::Bytes(b"second".to_vec()), Content::Bool(true)),
        (Content::Bytes(b"label".to_vec()), str_content("named")),
    ]))
    .unwrap();

    assert_eq!(
        got,
        NamedStruct {
            first: 1,
            second: true,
            label: "named".to_owned(),
        }
    );
}

#[test]
fn deserializes_enum_variants_from_numeric_and_byte_identifiers() {
    let tuple = deserialize::<EnumShapes<u8>>(&Content::Mapping(vec![(
        Content::U64(2),
        Content::Sequence(vec![Content::U64(1), Content::Bool(true), str_content("tuple")]),
    )]))
    .unwrap();
    assert_eq!(tuple, EnumShapes::Tuple(1, true, "tuple".to_owned()));

    let strukt = deserialize::<EnumShapes<u8>>(&Content::Mapping(vec![(
        Content::Bytes(b"Struct".to_vec()),
        Content::Mapping(vec![
            (str_content("first"), Content::U64(1)),
            (str_content("second"), Content::Bool(true)),
            (str_content("label"), str_content("struct")),
        ]),
    )]))
    .unwrap();
    assert_eq!(
        strukt,
        EnumShapes::Struct {
            first: 1,
            second: true,
            label: "struct".to_owned(),
        }
    );
}

/// The variant index a serializer receives, plus 100 for tuple variants and 200 for struct
/// variants
fn variant_index_code(out: &Serialized) -> u32 {
    match out {
        Serialized::UnitVariant { variant_index, .. } => *variant_index,
        Serialized::TupleVariant { variant_index, .. } => *variant_index + 100,
        Serialized::StructVariant { variant_index, .. } => *variant_index + 200,
        other => panic!("not a variant: {other:?}"),
    }
}

#[test]
fn serializes_variant_indices() {
    let tuple = EnumShapes::<u8>::Tuple(1, true, "tuple".to_owned());
    assert_eq!(variant_index_code(&SerializeViaSeu::new(&tuple).serialize()), 102);

    let strukt = EnumShapes::<u8>::Struct {
        first: 1,
        second: true,
        label: "struct".to_owned(),
    };
    assert_eq!(variant_index_code(&SerializeViaSeu::new(&strukt).serialize()), 204);
}

#[test]
fn reports_expected_visitor_names() {
    let tuple_err = deserialize::<TupleStruct>(&Content::Bool(false)).err().unwrap();
    assert!(plain_message(&tuple_err).contains("TupleStruct"));

    let named_err = deserialize::<NamedStruct>(&Content::Bool(false)).err().unwrap();
    assert!(plain_message(&named_err).contains("NamedStruct"));

    let unit_err = deserialize::<UnitStruct>(&Content::Bool(false)).err().unwrap();
    assert!(plain_message(&unit_err).contains("UnitStruct"));

    let enum_err = deserialize::<EnumShapes<u8>>(&Content::Bool(false)).err().unwrap();
    assert!(plain_message(&enum_err).contains("EnumShapes"));

    let field_err = FieldIdx::deserialize(&Content::Bool(false)).unwrap_err();
    assert!(plain_message(&field_err).contains("field"));

    let variant_err = VariantIdx::deserialize(&Content::Bool(false)).unwrap_err();
    assert!(plain_message(&variant_err).contains("variant"));
}

#[test]
fn rejects_duplicate_struct_variant_fields() {
    let err = deserialize::<EnumShapes<u8>>(&Content::Mapping(vec![(
        str_content("Struct"),
        Content::Mapping(vec![
            (str_content("first"), Content::U64(1)),
            (str_content("first"), Content::U64(2)),
            (str_content("second"), Content::Bool(true)),
            (str_content("label"), str_content("struct")),
        ]),
    )]))
    .err()
    .unwrap();

    assert!(json_message(&err).contains("duplicate field `first`"));
}

#[test]
fn rejects_missing_struct_variant_fields() {
    let err = deserialize::<EnumShapes<u8>>(&content(&object(vec![(
        "Struct",
        object(vec![("first", number(1)), ("second", serde_json::Value::Bool(true))]),
    )])))
    .unwrap_err();

    assert!(json_message(&err).contains("missing field `label`"));
}

#[test]
fn deserializes_field_identifiers_from_supported_forms() {
    let field = FieldIdx::deserialize(&Content::U64(1)).unwrap();
    assert!(matches!(field, FieldIdx::Index(1)));

    let field = FieldIdx::deserialize(&str_content("first")).unwrap();
    assert!(matches!(field, FieldIdx::String(name) if name == "first"));

    let field = FieldIdx::deserialize(&Content::Bytes(b"second".to_vec())).unwrap();
    assert!(matches!(field, FieldIdx::Bytes(name) if name == b"second"));
}

#[test]
fn deserializes_variant_identifiers_from_supported_forms() {
    let variant = VariantIdx::deserialize(&Content::U64(2)).unwrap();
    assert!(matches!(variant, VariantIdx::Index(2)));

    let variant = VariantIdx::deserialize(&str_content("Tuple")).unwrap();
    assert!(matches!(variant, VariantIdx::String(name) if name == "Tuple"));

    let variant = VariantIdx::deserialize(&Content::Bytes(b"Struct".to_vec())).unwrap();
    assert!(matches!(variant, VariantIdx::Bytes(name) if name == b"Struct"));
}
