use vstd::prelude::*;

use crate::macros::derive::fields::fields_names_from;
use crate::macros::derive::fields::fields_repr;
use crate::macros::derive::fields::fields_repr_text;
use crate::macros::derive::FieldsDef;
use crate::macros::derive::Transform;
use crate::macros::derive::VariantDef;
use crate::macros::names::inserted_name;
use crate::macros::names::name_type_text;
use crate::macros::names::names_inserted;
use crate::macros::names::NameGen;
use crate::macros::names::NamesView;
use crate::macros::nums::decimal;
use crate::macros::nums::decimal_text;
use crate::macros::nums::num_expr;
use crate::macros::nums::num_term_text;
use crate::macros::nums::num_ty;
use crate::macros::nums::num_type_text;
use crate::macros::product::product_expr;
use crate::macros::product::product_term_text;
use crate::macros::text::join;
use crate::macros::text::joined_text;
use crate::macros::text::texts;

verus! {

/// Source text of the variant flavour marker type for `fields`, and the name generator's state
/// after picking it
pub open spec fn flavour_text(k: Seq<char>, fields: FieldsDef, g: NamesView) -> (
    Seq<char>,
    NamesView,
) {
    match fields {
        FieldsDef::Named(_) => {
            let (names, g1) = names_inserted(g, fields.idents());
            (k + "::generic::variants::StructVariant<"@ + names + ">"@, g1)
        },
        FieldsDef::Unnamed(_) => (k + "::generic::variants::TupleVariant"@, g),
        FieldsDef::Unit => (k + "::generic::variants::UnitVariant"@, g),
    }
}

/// Source text of the representation type of variant `var` at position `idx`, and the name
/// generator's state after generating it
pub open spec fn variant_repr_text(
    k: Seq<char>,
    idx: nat,
    var: VariantDef,
    t: Transform,
    g: NamesView,
) -> (Seq<char>, NamesView) {
    let (flavour, g1) = flavour_text(k, var.fields, g);
    let g2 = (fields_names_from(g1.0, var.fields, 0), g1.1);
    let g3 = (inserted_name(g2.0, var.ident@), g2.1);
    (
        k + "::generic::variants::Variant<"@ + name_type_text(var.ident@) + ", "@ + num_type_text(
            k,
            idx,
        ) + ", "@ + flavour + ", "@ + fields_repr_text(k, var.fields, t) + ">"@,
        g3,
    )
}

/// The variable that a variant pattern binds to field `i`: the field's identifier where it is
/// named, `_i` otherwise
pub open spec fn binding_text(i: nat, ident: Option<Seq<char>>) -> Seq<char> {
    match ident {
        Some(ident) => ident,
        None => "_"@ + decimal_text(i),
    }
}

/// The variables that a variant pattern binds to the fields
pub open spec fn bindings(fields: FieldsDef) -> Seq<Seq<char>> {
    Seq::new(fields.spec_len(), |i: int| binding_text(i as nat, fields.ident_at(i)))
}

/// The pattern that matches variant `name` with `fields` and binds its fields
pub open spec fn variant_pat_text(name: Seq<char>, fields: FieldsDef) -> Seq<char> {
    match fields {
        FieldsDef::Named(_) => "Self::"@ + name + " { "@ + joined_text(bindings(fields), ", "@)
            + " }"@,
        FieldsDef::Unnamed(_) => "Self::"@ + name + "("@ + joined_text(bindings(fields), ", "@)
            + ")"@,
        FieldsDef::Unit => "Self::"@ + name,
    }
}

/// Source text of the expression that builds a field representation from `value`
pub open spec fn field_new_text(k: Seq<char>, value: Seq<char>) -> Seq<char> {
    k + "::generic::fields::Field::new("@ + value + ")"@
}

/// Source text of the match arm that turns variant `var` at position `idx` into its
/// representation
pub open spec fn variant_arm_text(k: Seq<char>, idx: nat, var: VariantDef) -> Seq<char> {
    variant_pat_text(var.ident@, var.fields) + " => { "@ + k + "::generic::sum::Sum::new("@
        + num_term_text(k, idx) + ", "@ + k + "::generic::variants::Variant::new("@
        + product_term_text(
        k,
        bindings(var.fields).map_values(|b: Seq<char>| field_new_text(k, b)),
    ) + "),) }"@
}

/// Returns the variant flavour marker type corresponding to the given fields flavour.
pub fn variant_flavour(krate: &str, fields: &FieldsDef, names: &mut NameGen) -> (ty: String)
    ensures
        (ty@, final(names)@) == flavour_text(krate@, *fields, old(names)@),
{
    match fields {
        FieldsDef::Named(_) => {
            let names = names.insert_fields(fields);
            let mut ty = String::from_str(krate);
            ty.append("::generic::variants::StructVariant<");
            ty.append(names.as_str());
            ty.append(">");
            ty
        },
        FieldsDef::Unnamed(_) => {
            let mut ty = String::from_str(krate);
            ty.append("::generic::variants::TupleVariant");
            ty
        },
        FieldsDef::Unit => {
            let mut ty = String::from_str(krate);
            ty.append("::generic::variants::UnitVariant");
            ty
        },
    }
}

/// Construct the variant representation type.
pub fn variant_repr(
    krate: &str,
    idx: usize,
    var: &VariantDef,
    names: &mut NameGen,
    t: Transform,
) -> (repr: String)
    ensures
        (repr@, final(names)@) == variant_repr_text(krate@, idx as nat, *var, t, old(names)@),
{
    let idx = num_ty(krate, idx);
    let flavour = variant_flavour(krate, &var.fields, names);
    let fields = fields_repr(krate, &var.fields, names, t);
    let name = names.insert(var.ident.as_str());
    let mut repr = String::from_str(krate);
    repr.append("::generic::variants::Variant<");
    repr.append(name.as_str());
    repr.append(", ");
    repr.append(idx.as_str());
    repr.append(", ");
    repr.append(flavour.as_str());
    repr.append(", ");
    repr.append(fields.as_str());
    repr.append(">");
    repr
}

/// The variables that a variant pattern binds to `fields`.
pub fn field_bindings(fields: &FieldsDef) -> (names: Vec<String>)
    ensures
        texts(names@) == bindings(*fields),
{
    let n = fields.len();
    let mut names: Vec<String> = Vec::new();
    let mut i: usize = 0;
    while i < n
        invariant
            n == fields.spec_len(),
            i <= n,
            names@.len() == i,
            forall|j: int|
                0 <= j < i ==> names@[j]@ == binding_text(j as nat, fields.ident_at(j)),
        decreases n - i,
    {
        match fields.ident(i) {
            Some(ident) => names.push(String::from_str(ident)),
            None => {
                let mut name = String::from_str("_");
                name.append(decimal(i).as_str());
                names.push(name);
            },
        }
        i = i + 1;
    }
    assert(texts(names@) =~= bindings(*fields));
    names
}

/// Generate the match arm for the given variant. Its body evaluates to the corresponding variant
/// representation.
pub fn variant_to_repr_arm(krate: &str, idx: usize, var: &VariantDef) -> (arm: String)
    ensures
        arm@ == variant_arm_text(krate@, idx as nat, *var),
{
    let index = num_expr(krate, idx);
    let bound = field_bindings(&var.fields);
    let mut pat = String::from_str("Self::");
    pat.append(var.ident.as_str());
    match &var.fields {
        FieldsDef::Named(_) => {
            pat.append(" { ");
            pat.append(join(&bound, ", ").as_str());
            pat.append(" }");
        },
        FieldsDef::Unnamed(_) => {
            pat.append("(");
            pat.append(join(&bound, ", ").as_str());
            pat.append(")");
        },
        FieldsDef::Unit => {},
    }
    let ghost values = bindings(var.fields).map_values(|b: Seq<char>| field_new_text(krate@, b));
    let mut items: Vec<String> = Vec::new();
    let mut i: usize = 0;
    while i < bound.len()
        invariant
            texts(bound@) == bindings(var.fields),
            values == bindings(var.fields).map_values(|b: Seq<char>| field_new_text(krate@, b)),
            i <= bound@.len(),
            items@.len() == i,
            forall|j: int| 0 <= j < i ==> items@[j]@ == values[j],
        decreases bound@.len() - i,
    {
        let mut item = String::from_str(krate);
        item.append("::generic::fields::Field::new(");
        item.append(bound[i].as_str());
        item.append(")");
        assert(bound@[i as int]@ == texts(bound@)[i as int]);
        items.push(item);
        i = i + 1;
    }
    assert(texts(items@) =~= values);
    let body = product_expr(krate, &items);
    let mut arm = pat;
    arm.append(" => { ");
    arm.append(krate);
    arm.append("::generic::sum::Sum::new(");
    arm.append(index.as_str());
    arm.append(", ");
    arm.append(krate);
    arm.append("::generic::variants::Variant::new(");
    arm.append(body.as_str());
    arm.append("),) }");
    arm
}

} // verus!
