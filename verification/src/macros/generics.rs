use vstd::prelude::*;

use crate::macros::derive::code::code_string;
use crate::macros::derive::code::code_text;
use crate::macros::derive::GenericParamDef;

verus! {

/// Source text of the generic argument that passes `param` on
pub open spec fn param_arg_text(param: GenericParamDef) -> Seq<char> {
    match param {
        GenericParamDef::Lifetime { lifetime, .. } => lifetime@,
        GenericParamDef::Type { ident, .. } => ident@,
        GenericParamDef::Const { ident, .. } => ident@,
    }
}

/// Source text of the declaration of `param`, in code that refers to the crate at path `k`
pub open spec fn param_decl_text(k: Seq<char>, param: GenericParamDef) -> Seq<char> {
    match param {
        GenericParamDef::Lifetime { decl, .. } => code_text(k, decl@),
        GenericParamDef::Type { decl, .. } => code_text(k, decl@),
        GenericParamDef::Const { decl, .. } => code_text(k, decl@),
    }
}

/// Convert a generic parameter to a generic argument.
pub fn generic_param_to_arg(param: &GenericParamDef) -> (arg: String)
    ensures
        arg@ == param_arg_text(*param),
{
    match param {
        GenericParamDef::Lifetime { lifetime, .. } => String::from_str(lifetime.as_str()),
        GenericParamDef::Type { ident, .. } => String::from_str(ident.as_str()),
        GenericParamDef::Const { ident, .. } => String::from_str(ident.as_str()),
    }
}

/// The declaration of a generic parameter, in code that refers to the crate at path `krate`.
pub fn generic_param_decl(krate: &str, param: &GenericParamDef) -> (decl: String)
    ensures
        decl@ == param_decl_text(krate@, *param),
{
    match param {
        GenericParamDef::Lifetime { decl, .. } => code_string(krate, decl),
        GenericParamDef::Type { decl, .. } => code_string(krate, decl),
        GenericParamDef::Const { decl, .. } => code_string(krate, decl),
    }
}

} // verus!
