use vstd::prelude::*;

use crate::macros::derive::code::code_string;
use crate::macros::derive::code::code_text;
use crate::macros::derive::code::CodeToken;
use crate::macros::derive::enums::enum_from_repr_expr;
use crate::macros::derive::enums::enum_from_repr_text;
use crate::macros::derive::enums::enum_repr;
use crate::macros::derive::enums::enum_repr_text;
use crate::macros::derive::enums::enum_to_repr_expr;
use crate::macros::derive::enums::enum_to_repr_text;
use crate::macros::derive::structs::struct_from_repr_expr;
use crate::macros::derive::structs::struct_from_repr_text;
use crate::macros::derive::structs::struct_repr;
use crate::macros::derive::structs::struct_repr_text;
use crate::macros::derive::structs::struct_to_repr_expr;
use crate::macros::derive::structs::struct_to_repr_text;
use crate::macros::derive::DataDef;
use crate::macros::derive::DeriveInputDef;
use crate::macros::derive::Transform;
use crate::macros::generics::generic_param_decl;
use crate::macros::generics::generic_param_to_arg;
use crate::macros::generics::param_arg_text;
use crate::macros::generics::param_decl_text;
use crate::macros::derive::GenericParamDef;
use crate::macros::names::NameGen;
use crate::macros::names::NamesView;
use crate::macros::text::concat_suffixed;
use crate::macros::text::join;
use crate::macros::text::joined_text;
use crate::macros::text::suffixed_text;
use crate::macros::text::texts;
use crate::macros::MacroError;

verus! {

/// Source text of the representation type of `data`, the type named `ident`, and the name
/// generator's state after generating it; nothing for a union
pub open spec fn data_repr_text(
    k: Seq<char>,
    ident: Seq<char>,
    data: DataDef,
    t: Transform,
    g: NamesView,
) -> (Seq<char>, NamesView) {
    match data {
        DataDef::Struct(fields) => struct_repr_text(k, ident, fields, t, g),
        DataDef::Enum(vars) => enum_repr_text(k, ident, vars@, t, g),
        DataDef::Union => (Seq::empty(), g),
    }
}

/// Source text of the expression that converts a value of `data` to its representation of kind
/// `t`; nothing for a union
pub open spec fn data_to_repr_text(k: Seq<char>, data: DataDef, t: Transform) -> Seq<char> {
    match data {
        DataDef::Struct(fields) => struct_to_repr_text(k, fields, t),
        DataDef::Enum(vars) => enum_to_repr_text(k, vars@),
        DataDef::Union => Seq::empty(),
    }
}

/// Source text of the expression that constructs a value of `data` from its representation;
/// nothing for a union
pub open spec fn data_from_repr_text(k: Seq<char>, data: DataDef) -> Seq<char> {
    match data {
        DataDef::Struct(fields) => struct_from_repr_text(k, fields),
        DataDef::Enum(vars) => enum_from_repr_text(k, vars@),
        DataDef::Union => Seq::empty(),
    }
}

/// Source text of the declarations of the generic parameters
pub open spec fn params_text(k: Seq<char>, params: Seq<GenericParamDef>) -> Seq<char> {
    joined_text(params.map_values(|p: GenericParamDef| param_decl_text(k, p)), ", "@)
}

/// Source text of the predicates of the `where` clause
pub open spec fn predicates_text(k: Seq<char>, preds: Seq<Vec<CodeToken>>) -> Seq<Seq<char>> {
    preds.map_values(|p: Vec<CodeToken>| code_text(k, p@))
}

/// Source text of the generic arguments that pass the parameters on
pub open spec fn args_text(params: Seq<GenericParamDef>) -> Seq<char> {
    joined_text(params.map_values(|p: GenericParamDef| param_arg_text(p)), ", "@)
}

/// Source text of the implementation of `DataType` for `input`, whose representation types are
/// `repr`, `repr_ref` and `repr_mut`
pub open spec fn impl_text(
    k: Seq<char>,
    input: DeriveInputDef,
    repr: Seq<char>,
    repr_ref: Seq<char>,
    repr_mut: Seq<char>,
) -> Seq<char> {
    "#[automatically_derived] impl<"@ + params_text(k, input.params@) + "> "@ + k
        + "::generic::datatypes::DataType for "@ + input.ident@ + "<"@ + args_text(input.params@)
        + "> where "@ + suffixed_text(predicates_text(k, input.where_predicates@), ", "@)
        + " { const TYPE_NAME: &'static str = \""@ + input.ident@ + "\"; type Repr = "@ + repr
        + "; type ReprRef<'a> = "@ + repr_ref + " where Self: 'a; type ReprMut<'a> = "@ + repr_mut
        + " where Self: 'a; #[inline] fn into_repr(self) -> Self::Repr { "@ + data_to_repr_text(
        k,
        input.data,
        Transform::Owned,
    ) + " } #[inline] fn as_repr(&self) -> Self::ReprRef<'_> { "@ + data_to_repr_text(
        k,
        input.data,
        Transform::Shared,
    ) + " } #[inline] fn as_repr_mut(&mut self) -> Self::ReprMut<'_> { "@ + data_to_repr_text(
        k,
        input.data,
        Transform::Unique,
    ) + " } #[inline] fn from_repr(repr: Self::Repr) -> Self { "@ + data_from_repr_text(
        k,
        input.data,
    ) + " } }"@
}

/// Source text of the implementation of `DataType` for `input`, and the name generator's state
/// after generating it
pub open spec fn data_type_impl_text(k: Seq<char>, input: DeriveInputDef, g: NamesView) -> (
    Seq<char>,
    NamesView,
) {
    let (repr, g1) = data_repr_text(k, input.ident@, input.data, Transform::Owned, g);
    let (repr_ref, g2) = data_repr_text(k, input.ident@, input.data, Transform::Shared, g1);
    let (repr_mut, g3) = data_repr_text(k, input.ident@, input.data, Transform::Unique, g2);
    (impl_text(k, input, repr, repr_ref, repr_mut), g3)
}

/// Generate a type representation for a data type.
pub fn data_type_repr(
    krate: &str,
    ident: &str,
    data: &DataDef,
    names: &mut NameGen,
    t: Transform,
) -> (repr: Result<String, MacroError>)
    ensures
        match repr {
            Ok(text) => !(data is Union) && (text@, final(names)@) == data_repr_text(
                krate@,
                ident@,
                *data,
                t,
                old(names)@,
            ),
            Err(e) => data is Union && e == MacroError::UnionUnsupported && final(names)@ == old(
                names,
            )@,
        },
{
    match data {
        DataDef::Struct(fields) => Ok(struct_repr(krate, ident, fields, names, t)),
        DataDef::Enum(variants) => Ok(enum_repr(krate, ident, variants, names, t)),
        DataDef::Union => Err(MacroError::UnionUnsupported),
    }
}

/// Generate an expression that converts a data type to its representation.
pub fn data_type_to_repr_expr(krate: &str, data: &DataDef, t: Transform) -> (expr: Result<
    String,
    MacroError,
>)
    ensures
        match expr {
            Ok(text) => !(data is Union) && text@ == data_to_repr_text(krate@, *data, t),
            Err(e) => data is Union && e == MacroError::UnionUnsupported,
        },
{
    match data {
        DataDef::Struct(fields) => Ok(struct_to_repr_expr(krate, fields, t)),
        DataDef::Enum(variants) => Ok(enum_to_repr_expr(krate, variants)),
        DataDef::Union => Err(MacroError::UnionUnsupported),
    }
}

/// Generate an expression that constructs the data type from its representation.
pub fn data_type_from_repr_expr(krate: &str, data: &DataDef) -> (expr: Result<String, MacroError>)
    ensures
        match expr {
            Ok(text) => !(data is Union) && text@ == data_from_repr_text(krate@, *data),
            Err(e) => data is Union && e == MacroError::UnionUnsupported,
        },
{
    match data {
        DataDef::Struct(fields) => Ok(struct_from_repr_expr(krate, fields)),
        DataDef::Enum(variants) => Ok(enum_from_repr_expr(krate, variants)),
        DataDef::Union => Err(MacroError::UnionUnsupported),
    }
}

/// Generate an implementation of the `DataType` trait for the given data type.
pub fn data_type_impl(krate: &str, item: &DeriveInputDef, names: &mut NameGen) -> (imp: Result<
    String,
    MacroError,
>)
    ensures
        match imp {
            Ok(text) => !(item.data is Union) && (text@, final(names)@) == data_type_impl_text(
                krate@,
                *item,
                old(names)@,
            ),
            Err(e) => item.data is Union && e == MacroError::UnionUnsupported && final(names)@
                == old(names)@,
        },
{
    let name = item.ident.as_str();
    let repr = data_type_repr(krate, name, &item.data, names, Transform::Owned)?;
    let repr_ref = data_type_repr(krate, name, &item.data, names, Transform::Shared)?;
    let repr_mut = data_type_repr(krate, name, &item.data, names, Transform::Unique)?;
    let to_impl = data_type_to_repr_expr(krate, &item.data, Transform::Owned)?;
    let to_impl_ref = data_type_to_repr_expr(krate, &item.data, Transform::Shared)?;
    let to_impl_mut = data_type_to_repr_expr(krate, &item.data, Transform::Unique)?;
    let from_impl = data_type_from_repr_expr(krate, &item.data)?;

    let ghost decls = item.params@.map_values(|p: GenericParamDef| param_decl_text(krate@, p));
    let ghost args = item.params@.map_values(|p: GenericParamDef| param_arg_text(p));
    let mut ty_params: Vec<String> = Vec::new();
    let mut ty_args: Vec<String> = Vec::new();
    let mut i: usize = 0;
    while i < item.params.len()
        invariant
            decls == item.params@.map_values(|p: GenericParamDef| param_decl_text(krate@, p)),
            args == item.params@.map_values(|p: GenericParamDef| param_arg_text(p)),
            i <= item.params@.len(),
            ty_params@.len() == i,
            ty_args@.len() == i,
            forall|j: int| 0 <= j < i ==> ty_params@[j]@ == decls[j] && ty_args@[j]@ == args[j],
        decreases item.params@.len() - i,
    {
        ty_params.push(generic_param_decl(krate, &item.params[i]));
        ty_args.push(generic_param_to_arg(&item.params[i]));
        i = i + 1;
    }
    assert(texts(ty_params@) =~= decls);
    assert(texts(ty_args@) =~= args);

    let ghost preds = predicates_text(krate@, item.where_predicates@);
    let mut predicates: Vec<String> = Vec::new();
    let mut j: usize = 0;
    while j < item.where_predicates.len()
        invariant
            preds == predicates_text(krate@, item.where_predicates@),
            j <= item.where_predicates@.len(),
            predicates@.len() == j,
            forall|m: int| 0 <= m < j ==> predicates@[m]@ == preds[m],
        decreases item.where_predicates@.len() - j,
    {
        predicates.push(code_string(krate, &item.where_predicates[j]));
        j = j + 1;
    }
    assert(texts(predicates@) =~= preds);

    let mut imp = String::from_str("#[automatically_derived] impl<");
    imp.append(join(&ty_params, ", ").as_str());
    imp.append("> ");
    imp.append(krate);
    imp.append("::generic::datatypes::DataType for ");
    imp.append(name);
    imp.append("<");
    imp.append(join(&ty_args, ", ").as_str());
    imp.append("> where ");
    imp.append(concat_suffixed(&predicates, ", ").as_str());
    imp.append(" { const TYPE_NAME: &'static str = \"");
    imp.append(name);
    imp.append("\"; type Repr = ");
    imp.append(repr.as_str());
    imp.append("; type ReprRef<'a> = ");
    imp.append(repr_ref.as_str());
    imp.append(" where Self: 'a; type ReprMut<'a> = ");
    imp.append(repr_mut.as_str());
    imp.append(" where Self: 'a; #[inline] fn into_repr(self) -> Self::Repr { ");
    imp.append(to_impl.as_str());
    imp.append(" } #[inline] fn as_repr(&self) -> Self::ReprRef<'_> { ");
    imp.append(to_impl_ref.as_str());
    imp.append(" } #[inline] fn as_repr_mut(&mut self) -> Self::ReprMut<'_> { ");
    imp.append(to_impl_mut.as_str());
    imp.append(" } #[inline] fn from_repr(repr: Self::Repr) -> Self { ");
    imp.append(from_impl.as_str());
    imp.append(" } }");
    Ok(imp)
}

} // verus!
