//! What the primitive values do in the serde data model, stated apart from their definitions:
//! each serialises through the data-model call of its own type, and each integer type reads
//! every integer that fits in it, whether the content holds it as unsigned or signed.

use vstd::prelude::*;

use crate::serde::value::Content;
use crate::serde::value::DeError;
use crate::serde::value::DeserializeValue;
use crate::serde::value::SerializeValue;
use crate::serde::value::Serialized;

verus! {

/// A primitive value serialises through exactly the data-model call of its own type: a `u8`
/// through `serialize_u8`, a `bool` through `serialize_bool`, a string through `serialize_str`,
/// and so on, with the value itself as the argument.
pub proof fn law_primitives_keep_their_type(
    b: bool,
    a8: u8,
    a16: u16,
    a32: u32,
    a64: u64,
    s8: i8,
    s16: i16,
    s32: i32,
    s64: i64,
    s: String,
    out: Serialized,
)
    ensures
        b.serializes(out) <==> out == Serialized::Bool(b),
        a8.serializes(out) <==> out == Serialized::U8(a8),
        a16.serializes(out) <==> out == Serialized::U16(a16),
        a32.serializes(out) <==> out == Serialized::U32(a32),
        a64.serializes(out) <==> out == Serialized::U64(a64),
        s8.serializes(out) <==> out == Serialized::I8(s8),
        s16.serializes(out) <==> out == Serialized::I16(s16),
        s32.serializes(out) <==> out == Serialized::I32(s32),
        s64.serializes(out) <==> out == Serialized::I64(s64),
        s.serializes(out) <==> (out matches Serialized::Str(t) && t@ == s@),
{
}

/// A boolean reads exactly a boolean.
pub proof fn law_bool_reads_booleans(content: Content, r: Result<bool, DeError>)
    requires
        <bool as DeserializeValue>::deserializes(content, r),
    ensures
        match content {
            Content::Bool(v) => r == Ok::<bool, DeError>(v),
            _ => r is Err,
        },
{
}

/// A string reads exactly a string, with its characters.
pub proof fn law_string_reads_strings(content: Content, r: Result<String, DeError>)
    requires
        <String as DeserializeValue>::deserializes(content, r),
    ensures
        match content {
            Content::Str(v) => r matches Ok(s) && s@ == v@,
            _ => r is Err,
        },
{
}

/// A `u8` reads every integer from 0 to `u8::MAX`, given as unsigned or as signed content, as
/// that number, and fails on every other content.
pub proof fn law_u8_reads_integers_in_range(content: Content, r: Result<u8, DeError>)
    requires
        <u8 as DeserializeValue>::deserializes(content, r),
    ensures
        match content {
            Content::U64(v) => if v <= u8::MAX {
                r == Ok::<u8, DeError>(v as u8)
            } else {
                r is Err
            },
            Content::I64(v) => if 0 <= v <= u8::MAX {
                r == Ok::<u8, DeError>(v as u8)
            } else {
                r is Err
            },
            _ => r is Err,
        },
{
}

/// A `u16` reads every integer from 0 to `u16::MAX`, given as unsigned or as signed content, as
/// that number, and fails on every other content.
pub proof fn law_u16_reads_integers_in_range(content: Content, r: Result<u16, DeError>)
    requires
        <u16 as DeserializeValue>::deserializes(content, r),
    ensures
        match content {
            Content::U64(v) => if v <= u16::MAX {
                r == Ok::<u16, DeError>(v as u16)
            } else {
                r is Err
            },
            Content::I64(v) => if 0 <= v <= u16::MAX {
                r == Ok::<u16, DeError>(v as u16)
            } else {
                r is Err
            },
            _ => r is Err,
        },
{
}

/// A `u32` reads every integer from 0 to `u32::MAX`, given as unsigned or as signed content, as
/// that number, and fails on every other content.
pub proof fn law_u32_reads_integers_in_range(content: Content, r: Result<u32, DeError>)
    requires
        <u32 as DeserializeValue>::deserializes(content, r),
    ensures
        match content {
            Content::U64(v) => if v <= u32::MAX {
                r == Ok::<u32, DeError>(v as u32)
            } else {
                r is Err
            },
            Content::I64(v) => if 0 <= v <= u32::MAX {
                r == Ok::<u32, DeError>(v as u32)
            } else {
                r is Err
            },
            _ => r is Err,
        },
{
}

/// A `u64` reads every integer from 0 to `u64::MAX`, given as unsigned or as signed content, as
/// that number, and fails on every other content.
pub proof fn law_u64_reads_integers_in_range(content: Content, r: Result<u64, DeError>)
    requires
        <u64 as DeserializeValue>::deserializes(content, r),
    ensures
        match content {
            Content::U64(v) => if v <= u64::MAX {
                r == Ok::<u64, DeError>(v as u64)
            } else {
                r is Err
            },
            Content::I64(v) => if 0 <= v <= u64::MAX {
                r == Ok::<u64, DeError>(v as u64)
            } else {
                r is Err
            },
            _ => r is Err,
        },
{
}

/// An `i8` reads every integer from `i8::MIN` to `i8::MAX`, given as unsigned or as signed content, as
/// that number, and fails on every other content.
pub proof fn law_i8_reads_integers_in_range(content: Content, r: Result<i8, DeError>)
    requires
        <i8 as DeserializeValue>::deserializes(content, r),
    ensures
        match content {
            Content::U64(v) => if v <= i8::MAX {
                r == Ok::<i8, DeError>(v as i8)
            } else {
                r is Err
            },
            Content::I64(v) => if i8::MIN <= v <= i8::MAX {
                r == Ok::<i8, DeError>(v as i8)
            } else {
                r is Err
            },
            _ => r is Err,
        },
{
}

/// An `i16` reads every integer from `i16::MIN` to `i16::MAX`, given as unsigned or as signed content, as
/// that number, and fails on every other content.
pub proof fn law_i16_reads_integers_in_range(content: Content, r: Result<i16, DeError>)
    requires
        <i16 as DeserializeValue>::deserializes(content, r),
    ensures
        match content {
            Content::U64(v) => if v <= i16::MAX {
                r == Ok::<i16, DeError>(v as i16)
            } else {
                r is Err
            },
            Content::I64(v) => if i16::MIN <= v <= i16::MAX {
                r == Ok::<i16, DeError>(v as i16)
            } else {
                r is Err
            },
            _ => r is Err,
        },
{
}

/// An `i32` reads every integer from `i32::MIN` to `i32::MAX`, given as unsigned or as signed content, as
/// that number, and fails on every other content.
pub proof fn law_i32_reads_integers_in_range(content: Content, r: Result<i32, DeError>)
    requires
        <i32 as DeserializeValue>::deserializes(content, r),
    ensures
        match content {
            Content::U64(v) => if v <= i32::MAX {
                r == Ok::<i32, DeError>(v as i32)
            } else {
                r is Err
            },
            Content::I64(v) => if i32::MIN <= v <= i32::MAX {
                r == Ok::<i32, DeError>(v as i32)
            } else {
                r is Err
            },
            _ => r is Err,
        },
{
}

/// An `i64` reads every integer from `i64::MIN` to `i64::MAX`, given as unsigned or as signed content, as
/// that number, and fails on every other content.
pub proof fn law_i64_reads_integers_in_range(content: Content, r: Result<i64, DeError>)
    requires
        <i64 as DeserializeValue>::deserializes(content, r),
    ensures
        match content {
            Content::U64(v) => if v <= i64::MAX {
                r == Ok::<i64, DeError>(v as i64)
            } else {
                r is Err
            },
            Content::I64(v) => if i64::MIN <= v <= i64::MAX {
                r == Ok::<i64, DeError>(v as i64)
            } else {
                r is Err
            },
            _ => r is Err,
        },
{
}

} // verus!
