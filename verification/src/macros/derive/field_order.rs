//! The generated conversions keep the fields in declaration order: the product that converting a
//! value into its representation builds holds field `i` at position `i`, and rebuilding the value
//! from a representation passes the item at position `i` to field `i`. So converting a value into
//! its representation and back gives the value, field by field.
//!
//! Each law below states the generated text in terms of the fields alone, with the product's
//! nesting spelled out, so that a generator that reorders, drops or repeats fields breaks it.

use vstd::prelude::*;

use crate::macros::derive::code::code_text;
use crate::macros::derive::enums::enum_from_repr_text;
use crate::macros::derive::enums::enum_to_repr_text;
use crate::macros::derive::enums::variant_handler_text;
use crate::macros::derive::enums::variants_repr_from;
use crate::macros::derive::fields::fields_repr_text;
use crate::macros::derive::variants::flavour_text;
use crate::macros::derive::variants::variant_repr_text;
use crate::macros::names::name_type_text;
use crate::macros::names::NamesView;
use crate::macros::nums::num_type_text;
use crate::macros::product::product_type_text;
use crate::macros::derive::fields::fields_to_repr_text;
use crate::macros::derive::structs::struct_from_repr_text;
use crate::macros::derive::structs::value_name_text;
use crate::macros::derive::variants::binding_text;
use crate::macros::derive::variants::variant_arm_text;
use crate::macros::derive::variants::variant_pat_text;
use crate::macros::derive::FieldsDef;
use crate::macros::derive::Transform;
use crate::macros::derive::VariantDef;
use crate::macros::nums::decimal_text;
use crate::macros::nums::num_term_text;
use crate::macros::product::product_term_text;
use crate::macros::text::joined_text;

verus! {

/// A product term holds its items in order: the first item outermost, then the product of the
/// rest, down to `Nil`.
pub proof fn law_product_term_order(k: Seq<char>, items: Seq<Seq<char>>)
    ensures
        items.len() == 0 ==> product_term_text(k, items) == k + "::generic::product::Nil"@,
        items.len() > 0 ==> product_term_text(k, items) == k + "::generic::product::Cons("@
            + items[0] + ", "@ + product_term_text(k, items.drop_first()) + ")"@,
{
}

/// A product type holds its items in order: the first item outermost, then the product of the
/// rest, down to `Nil`.
pub proof fn law_product_type_order(k: Seq<char>, items: Seq<Seq<char>>)
    ensures
        items.len() == 0 ==> product_type_text(k, items) == k + "::generic::product::Nil"@,
        items.len() > 0 ==> product_type_text(k, items) == k + "::generic::product::Cons<"@
            + items[0] + ", "@ + product_type_text(k, items.drop_first()) + ">"@,
{
}

/// The representation type of field `i`: its name marker (named by the field's identifier, or
/// unnamed) and its declared type, held as a representation of kind `t` holds it
pub open spec fn field_type_text(k: Seq<char>, fields: FieldsDef, i: int, t: Transform) -> Seq<
    char,
> {
    let marker = match fields.ident_at(i) {
        Some(ident) => k + "::generic::names::Named<"@ + name_type_text(ident) + ">"@,
        None => k + "::generic::names::Unnamed"@,
    };
    let ty = code_text(k, fields.ty_at(i));
    k + "::generic::fields::Field<"@ + marker + ", "@ + match t {
        Transform::Owned => ty,
        Transform::Shared => "&'a "@ + ty,
        Transform::Unique => "&'a mut "@ + ty,
    } + ">"@
}

/// The representation type of a collection of fields is a product whose item at position `i` is
/// the representation type of field `i`, for every field, in declaration order; so it lines up
/// with the product that the conversion builds.
pub proof fn law_fields_repr_keeps_field_order(k: Seq<char>, fields: FieldsDef, t: Transform)
    ensures
        fields_repr_text(k, fields, t) == product_type_text(
            k,
            Seq::new(fields.spec_len(), |i: int| field_type_text(k, fields, i, t)),
        ),
{
    assert(crate::macros::derive::fields::field_reprs(k, fields, t) =~= Seq::new(
        fields.spec_len(),
        |i: int| field_type_text(k, fields, i, t),
    ));
}

/// The representation type of variant `var` at position `idx` carries the type-level number
/// `idx` as its index, with the representation of its fields.
pub proof fn law_variant_repr_index(
    k: Seq<char>,
    idx: nat,
    var: VariantDef,
    t: Transform,
    g: NamesView,
)
    ensures
        variant_repr_text(k, idx, var, t, g).0 == k + "::generic::variants::Variant<"@
            + name_type_text(var.ident@) + ", "@ + num_type_text(k, idx) + ", "@ + flavour_text(
            k,
            var.fields,
            g,
        ).0 + ", "@ + fields_repr_text(k, var.fields, t) + ">"@,
{
}

/// The product of variant representations from position `i` on holds the representation of
/// variant `i` first, built with index `i`, then those of the later variants.
pub proof fn law_variants_repr_order(
    k: Seq<char>,
    vars: Seq<VariantDef>,
    t: Transform,
    g: NamesView,
    i: int,
)
    requires
        0 <= i < vars.len(),
    ensures
        variants_repr_from(k, vars, t, g, i).0 == k + "::generic::product::Cons<"@
            + variant_repr_text(
            k,
            i as nat,
            vars[i],
            t,
            variants_repr_from(k, vars, t, g, i + 1).1,
        ).0 + ", "@ + variants_repr_from(k, vars, t, g, i + 1).0 + ">"@,
{
}

/// Converting an enum value into its representation matches on the variants in declaration
/// order; the arm for variant `i` puts it at sum index `i`.
pub proof fn law_enum_to_repr_indices(k: Seq<char>, vars: Seq<VariantDef>)
    requires
        vars.len() > 0,
    ensures
        enum_to_repr_text(k, vars) == k + "::generic::enums::Enum::new(match self { "@
            + joined_text(
            Seq::new(vars.len(), |i: int| variant_arm_text(k, i as nat, vars[i])),
            ", "@,
        ) + " })"@,
{
}

/// Rebuilding an enum value from its representation reduces the sum with one handler per
/// variant, in declaration order: the handler at position `i` rebuilds variant `i`.
pub proof fn law_enum_from_repr_handlers(k: Seq<char>, vars: Seq<VariantDef>)
    ensures
        enum_from_repr_text(k, vars) == "repr.variant.reduce("@ + product_term_text(
            k,
            Seq::new(vars.len(), |i: int| variant_handler_text(k, vars[i])),
        ) + ")"@,
{
    assert(vars.map_values(|v: VariantDef| variant_handler_text(k, v)) =~= Seq::new(
        vars.len(),
        |i: int| variant_handler_text(k, vars[i]),
    ));
}

/// The expression that takes field `i` of `self`, as a representation of kind `t` holds it: by
/// value, by `&` or by `&mut`; the field is named by its identifier, or by its position
pub open spec fn self_field_text(fields: FieldsDef, i: int, t: Transform) -> Seq<char> {
    let place = "self."@ + match fields.ident_at(i) {
        Some(ident) => ident,
        None => decimal_text(i as nat),
    };
    match t {
        Transform::Owned => place,
        Transform::Shared => "&"@ + place,
        Transform::Unique => "&mut "@ + place,
    }
}

/// Converting a struct into its representation builds a product whose item at position `i`
/// wraps field `i` of `self`, for every field, in declaration order.
pub proof fn law_struct_to_repr_keeps_field_order(k: Seq<char>, fields: FieldsDef, t: Transform)
    ensures
        fields_to_repr_text(k, fields, t) == product_term_text(
            k,
            Seq::new(
                fields.spec_len(),
                |i: int| k + "::generic::fields::Field::new("@ + self_field_text(fields, i, t) + ")"@,
            ),
        ),
{
    assert(Seq::new(
        fields.spec_len(),
        |i: int|
            crate::macros::derive::fields::field_value_text(k, i as nat, fields.ident_at(i), t),
    ) =~= Seq::new(
        fields.spec_len(),
        |i: int| k + "::generic::fields::Field::new("@ + self_field_text(fields, i, t) + ")"@,
    ));
}

/// The variable that a variant pattern binds field `i` to: the field's identifier where the
/// fields are named, `_i` otherwise
pub open spec fn field_variable(fields: FieldsDef, i: int) -> Seq<char> {
    match fields.ident_at(i) {
        Some(ident) => ident,
        None => "_"@ + decimal_text(i as nat),
    }
}

/// The variables that a variant pattern binds the fields to, in declaration order
pub open spec fn field_variables(fields: FieldsDef) -> Seq<Seq<char>> {
    Seq::new(fields.spec_len(), |i: int| field_variable(fields, i))
}

/// Converting variant `var` at position `idx` into its representation: the arm's pattern binds
/// field `i` to `field_variable(i)`, and the arm builds the sum at index `idx` holding a product
/// whose item at position `i` wraps exactly that variable, for every field.
pub proof fn law_variant_arm_keeps_field_order(k: Seq<char>, idx: nat, var: VariantDef)
    ensures
        variant_pat_text(var.ident@, var.fields) == match var.fields {
            FieldsDef::Named(_) => "Self::"@ + var.ident@ + " { "@ + joined_text(
                field_variables(var.fields),
                ", "@,
            ) + " }"@,
            FieldsDef::Unnamed(_) => "Self::"@ + var.ident@ + "("@ + joined_text(
                field_variables(var.fields),
                ", "@,
            ) + ")"@,
            FieldsDef::Unit => "Self::"@ + var.ident@,
        },
        variant_arm_text(k, idx, var) == variant_pat_text(var.ident@, var.fields) + " => { "@ + k
            + "::generic::sum::Sum::new("@ + num_term_text(k, idx) + ", "@ + k
            + "::generic::variants::Variant::new("@ + product_term_text(
            k,
            Seq::new(
                var.fields.spec_len(),
                |i: int|
                    k + "::generic::fields::Field::new("@ + field_variable(var.fields, i) + ")"@,
            ),
        ) + "),) }"@,
{
    let n = var.fields.spec_len();
    assert(crate::macros::derive::variants::bindings(var.fields) =~= field_variables(var.fields))
        by {
        assert forall|i: int| 0 <= i < n implies binding_text(i as nat, var.fields.ident_at(i))
            == field_variable(var.fields, i) by {}
    }
    assert(crate::macros::derive::variants::bindings(var.fields).map_values(
        |b: Seq<char>| crate::macros::derive::variants::field_new_text(k, b),
    ) =~= Seq::new(
        n,
        |i: int| k + "::generic::fields::Field::new("@ + field_variable(var.fields, i) + ")"@,
    ));
}

/// The expression that builds `head` with field `i` set to `value_name_text(i)`, for every field
pub open spec fn rebuild_text(head: Seq<char>, fields: FieldsDef) -> Seq<char> {
    match fields {
        FieldsDef::Named(named) => head + " { "@ + joined_text(
            Seq::new(named@.len(), |i: int| named@[i].ident@ + ": "@ + value_name_text(i as nat)),
            ", "@,
        ) + " }"@,
        FieldsDef::Unnamed(tys) => head + "("@ + joined_text(
            Seq::new(tys@.len(), |i: int| value_name_text(i as nat)),
            ", "@,
        ) + ")"@,
        FieldsDef::Unit => head,
    }
}

/// The pattern that takes the product of `n` field representations apart: the item at position
/// `i` gives its value to `value_name_text(i)`
pub open spec fn take_apart_text(k: Seq<char>, n: nat) -> Seq<char> {
    product_term_text(
        k,
        Seq::new(
            n,
            |i: int| k + "::generic::fields::Field { value: "@ + value_name_text(i as nat) + ", .. }"@,
        ),
    )
}

/// Rebuilding variant `var` from its representation takes the item at position `i` of the
/// field product into `value_name_text(i)`, and passes that variable to field `i` of the variant.
pub proof fn law_variant_handler_keeps_field_order(k: Seq<char>, var: VariantDef)
    ensures
        variant_handler_text(k, var) == "|var| { let "@ + k
            + "::generic::variants::Variant { fields: "@ + take_apart_text(
            k,
            var.fields.spec_len(),
        ) + ", .. } = var; "@ + rebuild_text("Self::"@ + var.ident@, var.fields) + " }"@,
{
    lemma_rebuild_text("Self::"@ + var.ident@, var.fields);
    lemma_take_apart_text(k, var.fields.spec_len());
}

/// Rebuilding a struct with `fields` from its representation takes the item at position `i` of
/// the field product into `value_name_text(i)`, and passes that variable to field `i`.
pub proof fn law_struct_from_repr_keeps_field_order(k: Seq<char>, fields: FieldsDef)
    ensures
        struct_from_repr_text(k, fields) == "{ let "@ + k + "::generic::structs::Struct { fields: "@
            + take_apart_text(k, fields.spec_len()) + ", .. } = repr; "@ + rebuild_text(
            "Self"@,
            fields,
        ) + " }"@,
{
    lemma_rebuild_text("Self"@, fields);
    lemma_take_apart_text(k, fields.spec_len());
}

proof fn lemma_rebuild_text(head: Seq<char>, fields: FieldsDef)
    ensures
        crate::macros::derive::structs::ctor_text(head, fields) == rebuild_text(head, fields),
{
    match fields {
        FieldsDef::Named(named) => {
            assert(crate::macros::derive::structs::ctor_args(fields) =~= Seq::new(
                named@.len(),
                |i: int| named@[i].ident@ + ": "@ + value_name_text(i as nat),
            ));
        },
        FieldsDef::Unnamed(tys) => {
            assert(crate::macros::derive::structs::ctor_args(fields) =~= Seq::new(
                tys@.len(),
                |i: int| value_name_text(i as nat),
            ));
        },
        FieldsDef::Unit => {},
    }
}

proof fn lemma_take_apart_text(k: Seq<char>, n: nat)
    ensures
        crate::macros::derive::structs::fields_pat_text(k, n) == take_apart_text(k, n),
{
    assert(Seq::new(n, |i: int| crate::macros::derive::structs::field_pat_text(k, i as nat))
        =~= Seq::new(
        n,
        |i: int| k + "::generic::fields::Field { value: "@ + value_name_text(i as nat) + ", .. }"@,
    ));
}

} // verus!
