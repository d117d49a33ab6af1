//! The `DataType` derive: the model of its input, and the generation of its output.

pub mod code;
pub mod consistency;
pub mod datatypes;
pub mod enums;
pub mod fields;
pub mod field_order;
pub mod names;
pub mod structs;
pub mod variants;

use vstd::prelude::*;

use crate::macros::derive::code::CodeToken;
use crate::macros::derive::datatypes::data_type_impl;
use crate::macros::derive::datatypes::data_type_impl_text;
use crate::macros::names::done_items;
use crate::macros::names::NameGen;
use crate::macros::opts::default_target_text;
use crate::macros::opts::options_outcome;
use crate::macros::opts::Options;
use crate::macros::text::join;
use crate::macros::text::joined_text;
use crate::macros::text::texts;
use crate::macros::text_result_matches;
use crate::macros::MacroError;
use crate::macros::Outcome;

verus! {

/// A named field: its identifier and its type
pub struct NamedField {
    /// Identifier of the field
    pub ident: String,
    /// Tokens of the field's type
    pub ty: Vec<CodeToken>,
}

/// The fields of a struct or of an enum variant
pub enum FieldsDef {
    /// Braced fields, each with a name
    Named(Vec<NamedField>),
    /// Parenthesised fields, given by the tokens of their types
    Unnamed(Vec<Vec<CodeToken>>),
    /// No fields and no brackets
    Unit,
}

/// An enum variant
pub struct VariantDef {
    /// Identifier of the variant
    pub ident: String,
    /// Fields of the variant
    pub fields: FieldsDef,
}

/// The shape of the annotated type
pub enum DataDef {
    /// A struct with its fields
    Struct(FieldsDef),
    /// An enum with its variants, in declaration order
    Enum(Vec<VariantDef>),
    /// A union
    Union,
}

/// A generic parameter of the annotated type
pub enum GenericParamDef {
    /// A lifetime parameter: the lifetime (such as `'a`) and the declaration's tokens
    Lifetime { lifetime: String, decl: Vec<CodeToken> },
    /// A type parameter: its identifier and the declaration's tokens
    Type { ident: String, decl: Vec<CodeToken> },
    /// A const parameter: its identifier and the declaration's tokens
    Const { ident: String, decl: Vec<CodeToken> },
}

/// The generated code that declares `items`, kept out of the surrounding scope
pub open spec fn generated_text(items: Seq<Seq<char>>) -> Seq<char> {
    "const _: () = { "@ + joined_text(items, " "@) + " };"@
}

/// What the derive gives for `input`: the generated code, or the error that stops it
pub open spec fn derive_outcome(input: DeriveInputDef) -> Outcome {
    match options_outcome(default_target_text(), input.attrs@) {
        Outcome::Text(k) => if input.data is Union {
            Outcome::Error(MacroError::UnionUnsupported)
        } else {
            let (imp, g) = data_type_impl_text(
                k,
                input,
                (Seq::<Seq<char>>::empty(), Seq::<Seq<Seq<char>>>::empty()),
            );
            Outcome::Text(generated_text(done_items(k, g).push(imp)))
        },
        other => other,
    }
}

/// Generate the implementation of `DataType` for `input`, with the name marker types it needs.
///
/// The options come from the `datatype` attributes of `input`.
pub fn main(input: DeriveInputDef) -> (output: Result<String, MacroError>)
    ensures
        text_result_matches(output, derive_outcome(input)),
{
    let mut input = input;
    let mut opts = Options::default();
    opts.load_from(&mut input.attrs)?;
    let mut names = NameGen::default();
    let imp = data_type_impl(opts.target_crate.as_str(), &input, &mut names)?;
    let mut items = names.done(opts.target_crate.as_str());
    let ghost before = items@;
    items.push(imp);
    assert(texts(items@) =~= texts(before).push(imp@));
    let mut output = String::from_str("const _: () = { ");
    output.append(join(&items, " ").as_str());
    output.append(" };");
    Ok(output)
}

/// How a representation holds the fields of a value
#[derive(Clone, Copy, PartialEq, Eq, Structural)]
pub enum Transform {
    /// By value
    Owned,
    /// By shared reference, for the lifetime `'a`
    Shared,
    /// By mutable reference, for the lifetime `'a`
    Unique,
}

/// Source text of the type through which a representation of kind `t` holds a field of type `ty`
pub open spec fn transform_type_text(t: Transform, ty: Seq<char>) -> Seq<char> {
    match t {
        Transform::Owned => ty,
        Transform::Shared => "&'a "@ + ty,
        Transform::Unique => "&'a mut "@ + ty,
    }
}

/// Source text of the expression through which a representation of kind `t` takes the place
/// `value`
pub open spec fn transform_value_text(t: Transform, value: Seq<char>) -> Seq<char> {
    match t {
        Transform::Owned => value,
        Transform::Shared => "&"@ + value,
        Transform::Unique => "&mut "@ + value,
    }
}

/// The type through which a representation of kind `t` holds a field of type `ty`.
pub fn transform_type(t: Transform, ty: &str) -> (text: String)
    ensures
        text@ == transform_type_text(t, ty@),
{
    match t {
        Transform::Owned => String::from_str(ty),
        Transform::Shared => {
            let mut text = String::from_str("&'a ");
            text.append(ty);
            text
        },
        Transform::Unique => {
            let mut text = String::from_str("&'a mut ");
            text.append(ty);
            text
        },
    }
}

/// The expression through which a representation of kind `t` takes the place `value`.
pub fn transform_value(t: Transform, value: &str) -> (text: String)
    ensures
        text@ == transform_value_text(t, value@),
{
    match t {
        Transform::Owned => String::from_str(value),
        Transform::Shared => {
            let mut text = String::from_str("&");
            text.append(value);
            text
        },
        Transform::Unique => {
            let mut text = String::from_str("&mut ");
            text.append(value);
            text
        },
    }
}

/// The type that the derive is applied to
pub struct DeriveInputDef {
    /// Attributes of the type
    pub attrs: Vec<crate::macros::opts::AttrDef>,
    /// Identifier of the type
    pub ident: String,
    /// Generic parameters of the type, in declaration order
    pub params: Vec<GenericParamDef>,
    /// Tokens of each predicate of the type's `where` clause
    pub where_predicates: Vec<Vec<CodeToken>>,
    /// Shape of the type
    pub data: DataDef,
}

impl FieldsDef {
    /// Number of fields
    pub open spec fn spec_len(&self) -> nat {
        match self {
            FieldsDef::Named(fields) => fields@.len(),
            FieldsDef::Unnamed(tys) => tys@.len(),
            FieldsDef::Unit => 0,
        }
    }

    /// Tokens of the type of field `i`
    pub open spec fn ty_at(&self, i: int) -> Seq<CodeToken> {
        match self {
            FieldsDef::Named(fields) => fields@[i].ty@,
            FieldsDef::Unnamed(tys) => tys@[i]@,
            FieldsDef::Unit => Seq::empty(),
        }
    }

    /// Identifier of field `i`, if the fields are named
    pub open spec fn ident_at(&self, i: int) -> Option<Seq<char>> {
        match self {
            FieldsDef::Named(fields) => Some(fields@[i].ident@),
            _ => None,
        }
    }

    /// Identifiers of the fields, if they are named; none otherwise
    pub open spec fn idents(&self) -> Seq<Seq<char>> {
        match self {
            FieldsDef::Named(fields) => fields@.map_values(|f: NamedField| f.ident@),
            _ => Seq::empty(),
        }
    }

    /// Identifier of field `i`, if the fields are named.
    pub fn ident(&self, i: usize) -> (ident: Option<&str>)
        requires
            i < self.spec_len(),
        ensures
            match ident {
                Some(s) => self.ident_at(i as int) == Some(s@),
                None => self.ident_at(i as int) is None,
            },
    {
        match self {
            FieldsDef::Named(fields) => Some(fields[i].ident.as_str()),
            _ => None,
        }
    }

    /// Tokens of the type of field `i`.
    pub fn ty(&self, i: usize) -> (ty: &Vec<CodeToken>)
        requires
            i < self.spec_len(),
        ensures
            ty@ == self.ty_at(i as int),
    {
        match self {
            FieldsDef::Named(fields) => &fields[i].ty,
            FieldsDef::Unnamed(tys) => &tys[i],
            FieldsDef::Unit => {
                loop
                    invariant
                        i < self.spec_len(),
                        self is Unit,
                    decreases 0nat,
                {
                }
            },
        }
    }

    /// Number of fields.
    pub fn len(&self) -> (n: usize)
        ensures
            n == self.spec_len(),
    {
        match self {
            FieldsDef::Named(fields) => fields.len(),
            FieldsDef::Unnamed(tys) => tys.len(),
            FieldsDef::Unit => 0,
        }
    }
}

} // verus!
