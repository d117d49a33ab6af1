use vstd::prelude::*;

use crate::macros::names::inserted_name;
use crate::macros::names::name_type_text;
use crate::macros::names::NameGen;
use crate::macros::text::opt_text;

verus! {

/// Source text of the marker type for a field's name: `ident` where the field is named
pub open spec fn name_marker_text(k: Seq<char>, ident: Option<Seq<char>>) -> Seq<char> {
    match ident {
        Some(ident) => k + "::generic::names::Named<"@ + name_type_text(ident) + ">"@,
        None => k + "::generic::names::Unnamed"@,
    }
}

/// `names` after picking the marker type for a field named `ident`, if it is named
pub open spec fn marker_inserted(names: Seq<Seq<char>>, ident: Option<Seq<char>>) -> Seq<
    Seq<char>,
> {
    match ident {
        Some(ident) => inserted_name(names, ident),
        None => names,
    }
}

/// Pick the marker type for a field's name.
pub fn name_marker_type(krate: &str, ident: Option<&str>, names: &mut NameGen) -> (ty: String)
    ensures
        ty@ == name_marker_text(krate@, opt_text(ident)),
        final(names)@ == (
            marker_inserted(old(names)@.0, opt_text(ident)),
            old(names)@.1,
        ),
{
    match ident {
        Some(ident) => {
            let name = names.insert(ident);
            let mut ty = String::from_str(krate);
            ty.append("::generic::names::Named<");
            ty.append(name.as_str());
            ty.append(">");
            ty
        },
        None => {
            let mut ty = String::from_str(krate);
            ty.append("::generic::names::Unnamed");
            ty
        },
    }
}

} // verus!
