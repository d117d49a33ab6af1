use vstd::prelude::*;

use crate::macros::derive::structs::constructor;
use crate::macros::derive::structs::ctor_text;
use crate::macros::derive::structs::fields_pat;
use crate::macros::derive::structs::fields_pat_text;
use crate::macros::derive::variants::variant_arm_text;
use crate::macros::derive::variants::variant_repr;
use crate::macros::derive::variants::variant_repr_text;
use crate::macros::derive::Transform;
use crate::macros::derive::VariantDef;
use crate::macros::names::inserted_name;
use crate::macros::names::name_type_text;
use crate::macros::names::names_inserted;
use crate::macros::names::NameGen;
use crate::macros::names::NamesView;
use crate::macros::derive::variants::variant_to_repr_arm;
use crate::macros::product::cons_ty;
use crate::macros::product::cons_type_text;
use crate::macros::product::nil;
use crate::macros::product::nil_text;
use crate::macros::product::product_expr;
use crate::macros::product::product_term_text;
use crate::macros::text::join;
use crate::macros::text::joined_text;
use crate::macros::text::texts;

verus! {

/// Source text of the product of the representation types of the variants from `i` on, and the
/// name generator's state after generating them, the last variant first
pub open spec fn variants_repr_from(
    k: Seq<char>,
    vars: Seq<VariantDef>,
    t: Transform,
    g: NamesView,
    i: int,
) -> (Seq<char>, NamesView)
    decreases vars.len() - i,
{
    if i < 0 || i >= vars.len() {
        (nil_text(k), g)
    } else {
        let (rest, g1) = variants_repr_from(k, vars, t, g, i + 1);
        let (item, g2) = variant_repr_text(k, i as nat, vars[i], t, g1);
        (cons_type_text(k, item, rest), g2)
    }
}

/// The identifiers of the variants
pub open spec fn variant_idents(vars: Seq<VariantDef>) -> Seq<Seq<char>> {
    vars.map_values(|v: VariantDef| v.ident@)
}

/// Source text of the representation type of enum `ident` with variants `vars`, and the name
/// generator's state after generating it
pub open spec fn enum_repr_text(
    k: Seq<char>,
    ident: Seq<char>,
    vars: Seq<VariantDef>,
    t: Transform,
    g: NamesView,
) -> (Seq<char>, NamesView) {
    let (repr, g1) = variants_repr_from(k, vars, t, g, 0);
    let (variant_names, g2) = names_inserted(g1, variant_idents(vars));
    let g3 = (inserted_name(g2.0, ident), g2.1);
    (
        k + "::generic::enums::Enum<"@ + name_type_text(ident) + ", "@ + variant_names + ", "@
            + repr + ">"@,
        g3,
    )
}

/// The expression that an enum without variants has in place of a conversion
pub open spec fn no_variants_text() -> Seq<char> {
    "unreachable!(\"Enum has no variants\")"@
}

/// Source text of the expression that converts an enum with variants `vars` to its
/// representation
pub open spec fn enum_to_repr_text(k: Seq<char>, vars: Seq<VariantDef>) -> Seq<char> {
    if vars.len() == 0 {
        no_variants_text()
    } else {
        k + "::generic::enums::Enum::new(match self { "@ + joined_text(
            Seq::new(vars.len(), |i: int| variant_arm_text(k, i as nat, vars[i])),
            ", "@,
        ) + " })"@
    }
}

/// Source text of the closure that rebuilds variant `var` from its representation
pub open spec fn variant_handler_text(k: Seq<char>, var: VariantDef) -> Seq<char> {
    "|var| { let "@ + k + "::generic::variants::Variant { fields: "@ + fields_pat_text(
        k,
        var.fields.spec_len(),
    ) + ", .. } = var; "@ + ctor_text("Self::"@ + var.ident@, var.fields) + " }"@
}

/// Source text of the expression that reconstructs an enum with variants `vars` from its
/// representation `repr`
pub open spec fn enum_from_repr_text(k: Seq<char>, vars: Seq<VariantDef>) -> Seq<char> {
    "repr.variant.reduce("@ + product_term_text(
        k,
        vars.map_values(|v: VariantDef| variant_handler_text(k, v)),
    ) + ")"@
}

/// Generate the enum type representation.
///
/// The variants are visited from the last to the first, then the names of all variants and of the
/// enum are declared.
pub fn enum_repr(
    krate: &str,
    ident: &str,
    variants: &Vec<VariantDef>,
    names: &mut NameGen,
    t: Transform,
) -> (repr: String)
    ensures
        (repr@, final(names)@) == enum_repr_text(krate@, ident@, variants@, t, old(names)@),
{
    let mut repr = nil(krate);
    let mut i = variants.len();
    while i > 0
        invariant
            i <= variants@.len(),
            (repr@, names@) == variants_repr_from(krate@, variants@, t, old(names)@, i as int),
        decreases i,
    {
        i = i - 1;
        let item = variant_repr(krate, i, &variants[i], names, t);
        repr = cons_ty(krate, item.as_str(), repr.as_str());
    }
    let variant_names = names.insert_variants(variants);
    let name = names.insert(ident);
    let mut ty = String::from_str(krate);
    ty.append("::generic::enums::Enum<");
    ty.append(name.as_str());
    ty.append(", ");
    ty.append(variant_names.as_str());
    ty.append(", ");
    ty.append(repr.as_str());
    ty.append(">");
    ty
}

/// Generate an expression that converts an enum to its representation.
pub fn enum_to_repr_expr(krate: &str, variants: &Vec<VariantDef>) -> (expr: String)
    ensures
        expr@ == enum_to_repr_text(krate@, variants@),
{
    if variants.len() == 0 {
        return String::from_str("unreachable!(\"Enum has no variants\")");
    }
    let ghost arms = Seq::new(
        variants@.len(),
        |i: int| variant_arm_text(krate@, i as nat, variants@[i]),
    );
    let mut items: Vec<String> = Vec::new();
    let mut i: usize = 0;
    while i < variants.len()
        invariant
            arms == Seq::new(
                variants@.len(),
                |i: int| variant_arm_text(krate@, i as nat, variants@[i]),
            ),
            i <= variants@.len(),
            items@.len() == i,
            forall|j: int| 0 <= j < i ==> items@[j]@ == arms[j],
        decreases variants@.len() - i,
    {
        items.push(variant_to_repr_arm(krate, i, &variants[i]));
        i = i + 1;
    }
    assert(texts(items@) =~= arms);
    let mut expr = String::from_str(krate);
    expr.append("::generic::enums::Enum::new(match self { ");
    expr.append(join(&items, ", ").as_str());
    expr.append(" })");
    expr
}

/// Generate the closure that rebuilds `var` from its representation.
pub fn variant_handler(krate: &str, var: &VariantDef) -> (handler: String)
    ensures
        handler@ == variant_handler_text(krate@, *var),
{
    let mut head = String::from_str("Self::");
    head.append(var.ident.as_str());
    let mut handler = String::from_str("|var| { let ");
    handler.append(krate);
    handler.append("::generic::variants::Variant { fields: ");
    handler.append(fields_pat(krate, var.fields.len()).as_str());
    handler.append(", .. } = var; ");
    handler.append(constructor(head.as_str(), &var.fields).as_str());
    handler.append(" }");
    handler
}

/// Generate the expression that reconstructs the enum from its representation.
pub fn enum_from_repr_expr(krate: &str, variants: &Vec<VariantDef>) -> (expr: String)
    ensures
        expr@ == enum_from_repr_text(krate@, variants@),
{
    let ghost handlers = variants@.map_values(|v: VariantDef| variant_handler_text(krate@, v));
    let mut items: Vec<String> = Vec::new();
    let mut i: usize = 0;
    while i < variants.len()
        invariant
            handlers == variants@.map_values(|v: VariantDef| variant_handler_text(krate@, v)),
            i <= variants@.len(),
            items@.len() == i,
            forall|j: int| 0 <= j < i ==> items@[j]@ == handlers[j],
        decreases variants@.len() - i,
    {
        items.push(variant_handler(krate, &variants[i]));
        i = i + 1;
    }
    assert(texts(items@) =~= handlers);
    let reducer = product_expr(krate, &items);
    let mut expr = String::from_str("repr.variant.reduce(");
    expr.append(reducer.as_str());
    expr.append(")");
    expr
}

} // verus!
