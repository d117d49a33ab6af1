use vstd::prelude::*;
use vstd::string::StringSliceAdditionalSpecFns;

verus! {

#[allow(inconsistent_fields)]
#[derive(Debug, PartialEq)]
/// What a value serialises to: the tree of calls a serialiser receives
///
/// Each variant stands for one call of the serde data model (`serialize_u8`,
/// `serialize_tuple_struct` followed by its fields, ...), with the arguments of that call.
pub enum Serialized {
    Bool(bool),
    U8(u8),
    U16(u16),
    U32(u32),
    U64(u64),
    I8(i8),
    I16(i16),
    I32(i32),
    I64(i64),
    Str(String),
    /// A sequence of values
    Sequence(Vec<Serialized>),
    /// `serialize_unit_struct(name)`
    UnitStruct { name: &'static str },
    /// `serialize_tuple_struct(name, len)`, then one `serialize_field` per item of `fields`
    TupleStruct { name: &'static str, len: usize, fields: Vec<Serialized> },
    /// `serialize_struct(name, len)`, then one `serialize_field(key, value)` per item of `fields`
    Struct { name: &'static str, len: usize, fields: Vec<(&'static str, Serialized)> },
    /// `serialize_unit_variant(name, variant_index, variant)`
    UnitVariant { name: &'static str, variant_index: u32, variant: &'static str },
    /// `serialize_tuple_variant(name, variant_index, variant, len)`, then one `serialize_field`
    /// per item of `fields`
    TupleVariant {
        name: &'static str,
        variant_index: u32,
        variant: &'static str,
        len: usize,
        fields: Vec<Serialized>,
    },
    /// `serialize_struct_variant(name, variant_index, variant, len)`, then one
    /// `serialize_field(key, value)` per item of `fields`
    StructVariant {
        name: &'static str,
        variant_index: u32,
        variant: &'static str,
        len: usize,
        fields: Vec<(&'static str, Serialized)>,
    },
}

/// Self-describing content handed to a deserialiser's visitor
#[derive(Debug, PartialEq)]
pub enum Content {
    Unit,
    Bool(bool),
    U64(u64),
    I64(i64),
    Str(String),
    Bytes(Vec<u8>),
    Sequence(Vec<Content>),
    /// Entries of a map, in the order they were given (keys may repeat)
    Mapping(Vec<(Content, Content)>),
}

/// Description of the content a deserialiser did not expect
#[derive(Debug, Clone, PartialEq)]
pub enum Unexpected {
    Unit,
    Bool(bool),
    Unsigned(u64),
    Signed(i64),
    Str(String),
    Bytes,
    Sequence,
    Mapping,
}

/// Errors of deserialisation, in the shape of serde's error constructors
#[derive(Debug, Clone, PartialEq)]
pub enum DeError {
    /// `invalid_type(unexpected, expected)`
    InvalidType { unexpected: Unexpected, expected: &'static str },
    /// `invalid_value(unexpected, expected)`
    InvalidValue { unexpected: Unexpected, expected: &'static str },
    /// `invalid_length(len, expected)`
    InvalidLength { len: usize, expected: &'static str },
    /// An enum variant identifier that no variant has
    UnknownVariant { variant: crate::serde::variants::VariantIdx },
    /// `missing_field(field)`
    MissingField { field: &'static str },
    /// `duplicate_field(field)`
    DuplicateField { field: &'static str },
}

/// An identifier of a field or an enum variant, as content gives it: a position, or a name as a
/// string or as bytes
pub enum Identifier {
    Index(u64),
    Str(Seq<char>),
    Bytes(Seq<u8>),
}

/// The identifier that `content` gives, for a visitor of identifiers that expects `expected`
pub open spec fn spec_identifier(content: Content, expected: &'static str) -> Result<
    Identifier,
    DeError,
> {
    match content {
        Content::U64(v) => Ok(Identifier::Index(v)),
        Content::Str(s) => Ok(Identifier::Str(s@)),
        Content::Bytes(b) => Ok(Identifier::Bytes(b@)),
        _ => Err(spec_invalid_type(content, expected)),
    }
}

/// Whether `id` identifies the item at position `idx` named `name`
pub open spec fn identifies(id: Identifier, idx: u64, name: &'static str) -> bool {
    match id {
        Identifier::Index(i) => i == idx,
        Identifier::Str(s) => s == name@,
        Identifier::Bytes(b) => b == name.spec_bytes(),
    }
}

/// Whether two byte strings are equal.
pub fn bytes_eq(a: &[u8], b: &[u8]) -> (eq: bool)
    ensures
        eq == (a@ == b@),
{
    if a.len() != b.len() {
        return false;
    }
    let mut i: usize = 0;
    while i < a.len()
        invariant
            a@.len() == b@.len(),
            i <= a@.len(),
            forall|j: int| 0 <= j < i ==> a@[j] == b@[j],
        decreases a@.len() - i,
    {
        if a[i] != b[i] {
            return false;
        }
        i = i + 1;
    }
    assert(a@ =~= b@);
    true
}

/// Whether two strings are equal.
pub fn str_eq(a: &str, b: &str) -> (eq: bool)
    ensures
        eq == (a@ == b@),
{
    let eq = bytes_eq(a.as_bytes(), b.as_bytes());
    proof {
        vstd::utf8::encode_utf8_decode_utf8(a@);
        vstd::utf8::encode_utf8_decode_utf8(b@);
    }
    eq
}

/// What a visitor for booleans expects
pub const EXPECTING_BOOL: &'static str = "a boolean";

/// What a visitor for strings expects
pub const EXPECTING_STRING: &'static str = "a string";

/// What a visitor for sequences expects
pub const EXPECTING_SEQ: &'static str = "a sequence";

/// The description of `content` as unexpected content
pub open spec fn spec_unexpected(content: Content) -> Unexpected {
    match content {
        Content::Unit => Unexpected::Unit,
        Content::Bool(b) => Unexpected::Bool(b),
        Content::U64(v) => Unexpected::Unsigned(v),
        Content::I64(v) => Unexpected::Signed(v),
        Content::Str(s) => Unexpected::Str(s),
        Content::Bytes(_) => Unexpected::Bytes,
        Content::Sequence(_) => Unexpected::Sequence,
        Content::Mapping(_) => Unexpected::Mapping,
    }
}

/// Describe `content` as unexpected content.
pub fn unexpected(content: &Content) -> (u: Unexpected)
    ensures
        u == spec_unexpected(*content),
{
    match content {
        Content::Unit => Unexpected::Unit,
        Content::Bool(b) => Unexpected::Bool(*b),
        Content::U64(v) => Unexpected::Unsigned(*v),
        Content::I64(v) => Unexpected::Signed(*v),
        Content::Str(s) => Unexpected::Str(s.clone()),
        Content::Bytes(_) => Unexpected::Bytes,
        Content::Sequence(_) => Unexpected::Sequence,
        Content::Mapping(_) => Unexpected::Mapping,
    }
}

/// The error of a visitor that expects `expected` and is handed `content`
pub open spec fn spec_invalid_type(content: Content, expected: &'static str) -> DeError {
    DeError::InvalidType { unexpected: spec_unexpected(content), expected }
}

/// Whether `content` is how a self-describing format reads back the serialised value `value`
///
/// Numbers read back as 64-bit numbers, unit structs as unit, sequences and tuple structs as
/// sequences, structs as maps keyed by field name, and enum variants in the externally tagged
/// form: a unit variant as its name, other variants as a map with the variant name as its only
/// key.
pub open spec fn reads_back(value: Serialized, content: Content) -> bool
    decreases value,
{
    match value {
        Serialized::Bool(b) => content == Content::Bool(b),
        Serialized::U8(v) => content == Content::U64(v as u64),
        Serialized::U16(v) => content == Content::U64(v as u64),
        Serialized::U32(v) => content == Content::U64(v as u64),
        Serialized::U64(v) => content == Content::U64(v),
        Serialized::I8(v) => content == Content::I64(v as i64),
        Serialized::I16(v) => content == Content::I64(v as i64),
        Serialized::I32(v) => content == Content::I64(v as i64),
        Serialized::I64(v) => content == Content::I64(v),
        Serialized::Str(s) => content matches Content::Str(t) && t@ == s@,
        Serialized::Sequence(items) => match content {
            Content::Sequence(c) => {
                &&& items@.len() == c@.len()
                &&& forall|i: int| #![trigger items@[i]] 0 <= i < items@.len() ==> reads_back(items@[i], c@[i])
            },
            _ => false,
        },
        Serialized::UnitStruct { .. } => content == Content::Unit,
        Serialized::TupleStruct { fields, .. } => match content {
            Content::Sequence(c) => {
                &&& fields@.len() == c@.len()
                &&& forall|i: int| #![trigger fields@[i]] 0 <= i < fields@.len() ==> reads_back(fields@[i], c@[i])
            },
            _ => false,
        },
        Serialized::Struct { fields, .. } => match content {
            Content::Mapping(c) => {
                &&& fields@.len() == c@.len()
                &&& forall|i: int|
                    #![trigger fields@[i]]
                    0 <= i < fields@.len() ==> {
                        &&& c@[i].0 matches Content::Str(k) && k@ == fields@[i].0@
                        &&& reads_back(fields@[i].1, c@[i].1)
                    }
            },
            _ => false,
        },
        Serialized::UnitVariant { variant, .. } => content matches Content::Str(t) && t@
            == variant@,
        Serialized::TupleVariant { variant, fields, .. } => match content {
            Content::Mapping(c) => {
                &&& c@.len() == 1
                &&& c@[0].0 matches Content::Str(t) && t@ == variant@
                &&& match c@[0].1 {
                    Content::Sequence(inner) => {
                        &&& fields@.len() == inner@.len()
                        &&& forall|i: int|
                            #![trigger fields@[i]]
                            0 <= i < fields@.len() ==> reads_back(fields@[i], inner@[i])
                    },
                    _ => false,
                }
            },
            _ => false,
        },
        Serialized::StructVariant { variant, fields, .. } => match content {
            Content::Mapping(c) => {
                &&& c@.len() == 1
                &&& c@[0].0 matches Content::Str(t) && t@ == variant@
                &&& match c@[0].1 {
                    Content::Mapping(inner) => {
                        &&& fields@.len() == inner@.len()
                        &&& forall|i: int|
                            #![trigger fields@[i]]
                            0 <= i < fields@.len() ==> {
                                &&& inner@[i].0 matches Content::Str(k) && k@ == fields@[i].0@
                                &&& reads_back(fields@[i].1, inner@[i].1)
                            }
                    },
                    _ => false,
                }
            },
            _ => false,
        },
    }
}

/// Whether the contents `contents` read back the serialised values `values`, item by item
pub open spec fn reads_back_seq(values: Seq<Serialized>, contents: Seq<Content>) -> bool {
    &&& values.len() == contents.len()
    &&& forall|i: int| #![trigger values[i]] 0 <= i < values.len() ==> reads_back(values[i], contents[i])
}

/// Whether the map entries `entries` read back the named serialised fields `fields`, entry by
/// entry: each key is the field's name as a string
pub open spec fn reads_back_named(
    fields: Seq<(&'static str, Serialized)>,
    entries: Seq<(Content, Content)>,
) -> bool {
    &&& fields.len() == entries.len()
    &&& forall|i: int|
        #![trigger fields[i]]
        0 <= i < fields.len() ==> {
            &&& entries[i].0 matches Content::Str(k) && k@ == fields[i].0@
            &&& reads_back(fields[i].1, entries[i].1)
        }
}

/// Values that serialise through the serde data model
pub trait SerializeValue {
    /// Whether `out` is what this value serialises to
    spec fn serializes(&self, out: Serialized) -> bool;

    /// Serialise this value.
    fn serialize_value(&self) -> (out: Serialized)
        ensures
            self.serializes(out),
    ;
}

/// Values that deserialise from self-describing content
pub trait DeserializeValue: Sized {
    /// Whether deserialising `content` gives `result`
    spec fn deserializes(content: Content, result: Result<Self, DeError>) -> bool;

    /// Deserialise a value from `content`.
    fn deserialize_value(content: &Content) -> (result: Result<Self, DeError>)
        ensures
            Self::deserializes(*content, result),
    ;
}

/// Values that come back unchanged when serialised and read back
pub trait RoundTrip: SerializeValue + DeserializeValue {
    /// Whether `a` and `b` are the same value (item by item, for collections)
    spec fn same(a: Self, b: Self) -> bool;

    /// Serialising a value, reading the result back and deserialising it gives the same value.
    proof fn lemma_roundtrip(
        self,
        out: Serialized,
        content: Content,
        result: Result<Self, DeError>,
    )
        requires
            self.serializes(out),
            reads_back(out, content),
            Self::deserializes(content, result),
        ensures
            result matches Ok(v) && Self::same(v, self),
    ;
}

/// Whether deserialising `content` as a `T` succeeds
pub open spec fn succeeds<T: DeserializeValue>(content: Content) -> bool {
    exists|x: T| T::deserializes(content, Ok(x))
}

/// Whether deserialising the items of `items` one by one, as `T`s, fails with `e`: the first
/// item that does not deserialise gives `e`
pub open spec fn fails_first<T: DeserializeValue>(items: Seq<Content>, e: DeError) -> bool {
    exists|k: int|
        {
            &&& 0 <= k < items.len()
            &&& #[trigger] T::deserializes(items[k], Err(e))
            &&& forall|j: int| 0 <= j < k ==> #[trigger] succeeds::<T>(items[j])
        }
}

/// An unsigned number read from `content`, if it is a number no greater than `max`
pub open spec fn spec_unsigned_value(content: Content, max: u64, expected: &'static str) -> Result<
    u64,
    DeError,
> {
    match content {
        Content::U64(v) => if v <= max {
            Ok(v)
        } else {
            Err(DeError::InvalidValue { unexpected: Unexpected::Unsigned(v), expected })
        },
        Content::I64(v) => if 0 <= v && v <= max {
            Ok(v as u64)
        } else {
            Err(DeError::InvalidValue { unexpected: Unexpected::Signed(v), expected })
        },
        _ => Err(spec_invalid_type(content, expected)),
    }
}

/// Read an unsigned number no greater than `max` from `content`.
pub fn unsigned_value(content: &Content, max: u64, expected: &'static str) -> (r: Result<
    u64,
    DeError,
>)
    ensures
        r == spec_unsigned_value(*content, max, expected),
{
    match content {
        Content::U64(v) => if *v <= max {
            Ok(*v)
        } else {
            Err(DeError::InvalidValue { unexpected: Unexpected::Unsigned(*v), expected })
        },
        Content::I64(v) => if 0 <= *v && *v as u64 <= max {
            Ok(*v as u64)
        } else {
            Err(DeError::InvalidValue { unexpected: Unexpected::Signed(*v), expected })
        },
        _ => Err(DeError::InvalidType { unexpected: unexpected(content), expected }),
    }
}

/// A signed number read from `content`, if it is a number from `min` to `max`
pub open spec fn spec_signed_value(
    content: Content,
    min: i64,
    max: i64,
    expected: &'static str,
) -> Result<i64, DeError> {
    match content {
        Content::U64(v) => if v <= max {
            Ok(v as i64)
        } else {
            Err(DeError::InvalidValue { unexpected: Unexpected::Unsigned(v), expected })
        },
        Content::I64(v) => if min <= v && v <= max {
            Ok(v)
        } else {
            Err(DeError::InvalidValue { unexpected: Unexpected::Signed(v), expected })
        },
        _ => Err(spec_invalid_type(content, expected)),
    }
}

/// Read a signed number from `min` to `max` from `content`.
pub fn signed_value(content: &Content, min: i64, max: i64, expected: &'static str) -> (r: Result<
    i64,
    DeError,
>)
    requires
        0 <= max,
    ensures
        r == spec_signed_value(*content, min, max, expected),
{
    match content {
        Content::U64(v) => if *v <= max as u64 {
            Ok(*v as i64)
        } else {
            Err(DeError::InvalidValue { unexpected: Unexpected::Unsigned(*v), expected })
        },
        Content::I64(v) => if min <= *v && *v <= max {
            Ok(*v)
        } else {
            Err(DeError::InvalidValue { unexpected: Unexpected::Signed(*v), expected })
        },
        _ => Err(DeError::InvalidType { unexpected: unexpected(content), expected }),
    }
}

impl SerializeValue for bool {
    open spec fn serializes(&self, out: Serialized) -> bool {
        out == Serialized::Bool(*self)
    }

    fn serialize_value(&self) -> (out: Serialized) {
        Serialized::Bool(*self)
    }
}

impl DeserializeValue for bool {
    open spec fn deserializes(content: Content, result: Result<bool, DeError>) -> bool {
        result == match content {
            Content::Bool(b) => Ok(b),
            _ => Err(spec_invalid_type(content, EXPECTING_BOOL)),
        }
    }

    fn deserialize_value(content: &Content) -> (result: Result<bool, DeError>) {
        match content {
            Content::Bool(b) => Ok(*b),
            _ => Err(DeError::InvalidType { unexpected: unexpected(content), expected: EXPECTING_BOOL }),
        }
    }
}

impl RoundTrip for bool {
    open spec fn same(a: bool, b: bool) -> bool {
        a == b
    }

    proof fn lemma_roundtrip(
        self,
        out: Serialized,
        content: Content,
        result: Result<bool, DeError>,
    ) {
    }
}

impl SerializeValue for u8 {
    open spec fn serializes(&self, out: Serialized) -> bool {
        out == Serialized::U8(*self)
    }

    fn serialize_value(&self) -> (out: Serialized) {
        Serialized::U8(*self)
    }
}

impl DeserializeValue for u8 {
    open spec fn deserializes(content: Content, result: Result<u8, DeError>) -> bool {
        result == match spec_unsigned_value(content, u8::MAX as u64, "u8") {
            Ok(v) => Ok(v as u8),
            Err(e) => Err(e),
        }
    }

    fn deserialize_value(content: &Content) -> (result: Result<u8, DeError>) {
        match unsigned_value(content, u8::MAX as u64, "u8") {
            Ok(v) => Ok(v as u8),
            Err(e) => Err(e),
        }
    }
}

impl RoundTrip for u8 {
    open spec fn same(a: u8, b: u8) -> bool {
        a == b
    }

    proof fn lemma_roundtrip(
        self,
        out: Serialized,
        content: Content,
        result: Result<u8, DeError>,
    ) {
    }
}

impl SerializeValue for u16 {
    open spec fn serializes(&self, out: Serialized) -> bool {
        out == Serialized::U16(*self)
    }

    fn serialize_value(&self) -> (out: Serialized) {
        Serialized::U16(*self)
    }
}

impl DeserializeValue for u16 {
    open spec fn deserializes(content: Content, result: Result<u16, DeError>) -> bool {
        result == match spec_unsigned_value(content, u16::MAX as u64, "u16") {
            Ok(v) => Ok(v as u16),
            Err(e) => Err(e),
        }
    }

    fn deserialize_value(content: &Content) -> (result: Result<u16, DeError>) {
        match unsigned_value(content, u16::MAX as u64, "u16") {
            Ok(v) => Ok(v as u16),
            Err(e) => Err(e),
        }
    }
}

impl RoundTrip for u16 {
    open spec fn same(a: u16, b: u16) -> bool {
        a == b
    }

    proof fn lemma_roundtrip(
        self,
        out: Serialized,
        content: Content,
        result: Result<u16, DeError>,
    ) {
    }
}

impl SerializeValue for u32 {
    open spec fn serializes(&self, out: Serialized) -> bool {
        out == Serialized::U32(*self)
    }

    fn serialize_value(&self) -> (out: Serialized) {
        Serialized::U32(*self)
    }
}

impl DeserializeValue for u32 {
    open spec fn deserializes(content: Content, result: Result<u32, DeError>) -> bool {
        result == match spec_unsigned_value(content, u32::MAX as u64, "u32") {
            Ok(v) => Ok(v as u32),
            Err(e) => Err(e),
        }
    }

    fn deserialize_value(content: &Content) -> (result: Result<u32, DeError>) {
        match unsigned_value(content, u32::MAX as u64, "u32") {
            Ok(v) => Ok(v as u32),
            Err(e) => Err(e),
        }
    }
}

impl RoundTrip for u32 {
    open spec fn same(a: u32, b: u32) -> bool {
        a == b
    }

    proof fn lemma_roundtrip(
        self,
        out: Serialized,
        content: Content,
        result: Result<u32, DeError>,
    ) {
    }
}

impl SerializeValue for u64 {
    open spec fn serializes(&self, out: Serialized) -> bool {
        out == Serialized::U64(*self)
    }

    fn serialize_value(&self) -> (out: Serialized) {
        Serialized::U64(*self)
    }
}

impl DeserializeValue for u64 {
    open spec fn deserializes(content: Content, result: Result<u64, DeError>) -> bool {
        result == match spec_unsigned_value(content, u64::MAX as u64, "u64") {
            Ok(v) => Ok(v as u64),
            Err(e) => Err(e),
        }
    }

    fn deserialize_value(content: &Content) -> (result: Result<u64, DeError>) {
        match unsigned_value(content, u64::MAX as u64, "u64") {
            Ok(v) => Ok(v as u64),
            Err(e) => Err(e),
        }
    }
}

impl RoundTrip for u64 {
    open spec fn same(a: u64, b: u64) -> bool {
        a == b
    }

    proof fn lemma_roundtrip(
        self,
        out: Serialized,
        content: Content,
        result: Result<u64, DeError>,
    ) {
    }
}

impl SerializeValue for i8 {
    open spec fn serializes(&self, out: Serialized) -> bool {
        out == Serialized::I8(*self)
    }

    fn serialize_value(&self) -> (out: Serialized) {
        Serialized::I8(*self)
    }
}

impl DeserializeValue for i8 {
    open spec fn deserializes(content: Content, result: Result<i8, DeError>) -> bool {
        result == match spec_signed_value(content, i8::MIN as i64, i8::MAX as i64, "i8") {
            Ok(v) => Ok(v as i8),
            Err(e) => Err(e),
        }
    }

    fn deserialize_value(content: &Content) -> (result: Result<i8, DeError>) {
        match signed_value(content, i8::MIN as i64, i8::MAX as i64, "i8") {
            Ok(v) => Ok(v as i8),
            Err(e) => Err(e),
        }
    }
}

impl RoundTrip for i8 {
    open spec fn same(a: i8, b: i8) -> bool {
        a == b
    }

    proof fn lemma_roundtrip(
        self,
        out: Serialized,
        content: Content,
        result: Result<i8, DeError>,
    ) {
    }
}

impl SerializeValue for i16 {
    open spec fn serializes(&self, out: Serialized) -> bool {
        out == Serialized::I16(*self)
    }

    fn serialize_value(&self) -> (out: Serialized) {
        Serialized::I16(*self)
    }
}

impl DeserializeValue for i16 {
    open spec fn deserializes(content: Content, result: Result<i16, DeError>) -> bool {
        result == match spec_signed_value(content, i16::MIN as i64, i16::MAX as i64, "i16") {
            Ok(v) => Ok(v as i16),
            Err(e) => Err(e),
        }
    }

    fn deserialize_value(content: &Content) -> (result: Result<i16, DeError>) {
        match signed_value(content, i16::MIN as i64, i16::MAX as i64, "i16") {
            Ok(v) => Ok(v as i16),
            Err(e) => Err(e),
        }
    }
}

impl RoundTrip for i16 {
    open spec fn same(a: i16, b: i16) -> bool {
        a == b
    }

    proof fn lemma_roundtrip(
        self,
        out: Serialized,
        content: Content,
        result: Result<i16, DeError>,
    ) {
    }
}

impl SerializeValue for i32 {
    open spec fn serializes(&self, out: Serialized) -> bool {
        out == Serialized::I32(*self)
    }

    fn serialize_value(&self) -> (out: Serialized) {
        Serialized::I32(*self)
    }
}

impl DeserializeValue for i32 {
    open spec fn deserializes(content: Content, result: Result<i32, DeError>) -> bool {
        result == match spec_signed_value(content, i32::MIN as i64, i32::MAX as i64, "i32") {
            Ok(v) => Ok(v as i32),
            Err(e) => Err(e),
        }
    }

    fn deserialize_value(content: &Content) -> (result: Result<i32, DeError>) {
        match signed_value(content, i32::MIN as i64, i32::MAX as i64, "i32") {
            Ok(v) => Ok(v as i32),
            Err(e) => Err(e),
        }
    }
}

impl RoundTrip for i32 {
    open spec fn same(a: i32, b: i32) -> bool {
        a == b
    }

    proof fn lemma_roundtrip(
        self,
        out: Serialized,
        content: Content,
        result: Result<i32, DeError>,
    ) {
    }
}

impl SerializeValue for i64 {
    open spec fn serializes(&self, out: Serialized) -> bool {
        out == Serialized::I64(*self)
    }

    fn serialize_value(&self) -> (out: Serialized) {
        Serialized::I64(*self)
    }
}

impl DeserializeValue for i64 {
    open spec fn deserializes(content: Content, result: Result<i64, DeError>) -> bool {
        result == match spec_signed_value(content, i64::MIN as i64, i64::MAX as i64, "i64") {
            Ok(v) => Ok(v as i64),
            Err(e) => Err(e),
        }
    }

    fn deserialize_value(content: &Content) -> (result: Result<i64, DeError>) {
        match signed_value(content, i64::MIN as i64, i64::MAX as i64, "i64") {
            Ok(v) => Ok(v as i64),
            Err(e) => Err(e),
        }
    }
}

impl RoundTrip for i64 {
    open spec fn same(a: i64, b: i64) -> bool {
        a == b
    }

    proof fn lemma_roundtrip(
        self,
        out: Serialized,
        content: Content,
        result: Result<i64, DeError>,
    ) {
    }
}

impl SerializeValue for String {
    open spec fn serializes(&self, out: Serialized) -> bool {
        out matches Serialized::Str(s) && s@ == self@
    }

    fn serialize_value(&self) -> (out: Serialized) {
        Serialized::Str(self.clone())
    }
}

impl DeserializeValue for String {
    open spec fn deserializes(content: Content, result: Result<String, DeError>) -> bool {
        match content {
            Content::Str(s) => result == Ok::<String, DeError>(s),
            _ => result == Err::<String, DeError>(spec_invalid_type(content, EXPECTING_STRING)),
        }
    }

    fn deserialize_value(content: &Content) -> (result: Result<String, DeError>) {
        match content {
            Content::Str(s) => Ok(s.clone()),
            _ => Err(DeError::InvalidType { unexpected: unexpected(content), expected: EXPECTING_STRING }),
        }
    }
}

impl RoundTrip for String {
    open spec fn same(a: String, b: String) -> bool {
        a@ == b@
    }

    proof fn lemma_roundtrip(
        self,
        out: Serialized,
        content: Content,
        result: Result<String, DeError>,
    ) {
    }
}

impl<'a, T: SerializeValue> SerializeValue for &'a T {
    open spec fn serializes(&self, out: Serialized) -> bool {
        (**self).serializes(out)
    }

    fn serialize_value(&self) -> (out: Serialized) {
        (**self).serialize_value()
    }
}

impl<T: SerializeValue> SerializeValue for Vec<T> {
    open spec fn serializes(&self, out: Serialized) -> bool {
        &&& out matches Serialized::Sequence(items)
        &&& items@.len() == self@.len()
        &&& forall|i: int| 0 <= i < self@.len() ==> #[trigger] self@[i].serializes(items@[i])
    }

    fn serialize_value(&self) -> (out: Serialized) {
        let mut items: Vec<Serialized> = Vec::new();
        let mut i: usize = 0;
        while i < self.len()
            invariant
                i <= self@.len(),
                items@.len() == i,
                forall|j: int| 0 <= j < i ==> #[trigger] self@[j].serializes(items@[j]),
            decreases self@.len() - i,
        {
            let item = self[i].serialize_value();
            items.push(item);
            i = i + 1;
        }
        Serialized::Sequence(items)
    }
}

impl<T: DeserializeValue> DeserializeValue for Vec<T> {
    open spec fn deserializes(content: Content, result: Result<Vec<T>, DeError>) -> bool {
        match content {
            Content::Sequence(items) => match result {
                Ok(v) => {
                    &&& v@.len() == items@.len()
                    &&& forall|i: int|
                        0 <= i < v@.len() ==> T::deserializes(items@[i], Ok(#[trigger] v@[i]))
                },
                Err(e) => fails_first::<T>(items@, e),
            },
            _ => result == Err::<Vec<T>, DeError>(spec_invalid_type(content, EXPECTING_SEQ)),
        }
    }

    fn deserialize_value(content: &Content) -> (result: Result<Vec<T>, DeError>) {
        match content {
            Content::Sequence(items) => {
                let mut v: Vec<T> = Vec::new();
                let mut i: usize = 0;
                while i < items.len()
                    invariant
                        *content == Content::Sequence(*items),
                        i <= items@.len(),
                        v@.len() == i,
                        forall|j: int| 0 <= j < i ==> T::deserializes(items@[j], Ok(#[trigger] v@[j])),
                    decreases items@.len() - i,
                {
                    match T::deserialize_value(&items[i]) {
                        Ok(x) => {
                            v.push(x);
                        },
                        Err(e) => {
                            assert forall|j: int| 0 <= j < i implies #[trigger] succeeds::<T>(items@[j]) by {
                                assert(T::deserializes(items@[j], Ok(v@[j])));
                            }
                            assert({
                                &&& 0 <= i < items@.len()
                                &&& T::deserializes(items@[i as int], Err(e))
                                &&& forall|j: int| 0 <= j < i ==> #[trigger] succeeds::<T>(items@[j])
                            });
                            assert(fails_first::<T>(items@, e));
                            return Err(e);
                        },
                    }
                    i = i + 1;
                }
                Ok(v)
            },
            _ => Err(DeError::InvalidType { unexpected: unexpected(content), expected: EXPECTING_SEQ }),
        }
    }
}

impl<T: RoundTrip> RoundTrip for Vec<T> {
    open spec fn same(a: Vec<T>, b: Vec<T>) -> bool {
        &&& a@.len() == b@.len()
        &&& forall|i: int| 0 <= i < a@.len() ==> T::same(#[trigger] a@[i], b@[i])
    }

    proof fn lemma_roundtrip(
        self,
        out: Serialized,
        content: Content,
        result: Result<Vec<T>, DeError>,
    ) {
        let items = out->Sequence_0;
        let contents = content->Sequence_0;
        assert(out == Serialized::Sequence(items));
        assert(content == Content::Sequence(contents));
        assert(reads_back_seq(items@, contents@));
        match result {
            Ok(v) => {
                assert forall|i: int| 0 <= i < v@.len() implies T::same(#[trigger] v@[i], self@[i]) by {
                    assert(self@[i].serializes(items@[i]));
                    assert(reads_back(items@[i], contents@[i]));
                    self@[i].lemma_roundtrip(items@[i], contents@[i], Ok(v@[i]));
                }
            },
            Err(e) => {
                let k = choose|k: int|
                    {
                        &&& 0 <= k < contents@.len()
                        &&& #[trigger] T::deserializes(contents@[k], Err(e))
                        &&& forall|j: int| 0 <= j < k ==> #[trigger] succeeds::<T>(contents@[j])
                    };
                assert(self@[k].serializes(items@[k]));
                assert(reads_back(items@[k], contents@[k]));
                self@[k].lemma_roundtrip(items@[k], contents@[k], Err(e));
            },
        }
    }
}

} // verus!
