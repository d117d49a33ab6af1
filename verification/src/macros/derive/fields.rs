use vstd::prelude::*;

use crate::macros::derive::code::code_string;
use crate::macros::derive::code::code_text;
use crate::macros::derive::names::marker_inserted;
use crate::macros::derive::names::name_marker_text;
use crate::macros::derive::names::name_marker_type;
use crate::macros::derive::transform_type;
use crate::macros::derive::transform_type_text;
use crate::macros::derive::transform_value;
use crate::macros::derive::transform_value_text;
use crate::macros::derive::FieldsDef;
use crate::macros::derive::Transform;
use crate::macros::names::NameGen;
use crate::macros::nums::decimal;
use crate::macros::nums::decimal_text;
use crate::macros::product::cons_ty;
use crate::macros::product::lemma_suffix_drop_first;
use crate::macros::product::nil;
use crate::macros::product::product_expr;
use crate::macros::product::product_term_text;
use crate::macros::product::product_type_text;
use crate::macros::text::opt_text;
use crate::macros::text::texts;

verus! {

/// Source text of the representation type of a field named `ident` (if named) of type `ty`
pub open spec fn field_repr_text(
    k: Seq<char>,
    ident: Option<Seq<char>>,
    ty: Seq<char>,
    t: Transform,
) -> Seq<char> {
    k + "::generic::fields::Field<"@ + name_marker_text(k, ident) + ", "@ + transform_type_text(
        t,
        ty,
    ) + ">"@
}

/// Source texts of the representation types of the fields, in order
pub open spec fn field_reprs(k: Seq<char>, fields: FieldsDef, t: Transform) -> Seq<Seq<char>> {
    Seq::new(
        fields.spec_len(),
        |i: int| field_repr_text(k, fields.ident_at(i), code_text(k, fields.ty_at(i)), t),
    )
}

/// Source text of the representation type of a collection of fields
pub open spec fn fields_repr_text(k: Seq<char>, fields: FieldsDef, t: Transform) -> Seq<char> {
    product_type_text(k, field_reprs(k, fields, t))
}

/// `names` after picking the marker types for the fields from `i` on, the last field first
pub open spec fn fields_names_from(names: Seq<Seq<char>>, fields: FieldsDef, i: int) -> Seq<
    Seq<char>,
>
    decreases fields.spec_len() - i,
{
    if i < 0 || i >= fields.spec_len() {
        names
    } else {
        marker_inserted(fields_names_from(names, fields, i + 1), fields.ident_at(i))
    }
}

/// The place of field `idx`: its identifier where it is named, its position otherwise
pub open spec fn member_text(idx: nat, ident: Option<Seq<char>>) -> Seq<char> {
    match ident {
        Some(ident) => ident,
        None => decimal_text(idx),
    }
}

/// Source text of the expression that instantiates the representation of field `idx`
pub open spec fn field_value_text(
    k: Seq<char>,
    idx: nat,
    ident: Option<Seq<char>>,
    t: Transform,
) -> Seq<char> {
    k + "::generic::fields::Field::new("@ + transform_value_text(
        t,
        "self."@ + member_text(idx, ident),
    ) + ")"@
}

/// Source text of the expression that instantiates the product of all field representations
pub open spec fn fields_to_repr_text(k: Seq<char>, fields: FieldsDef, t: Transform) -> Seq<char> {
    product_term_text(
        k,
        Seq::new(
            fields.spec_len(),
            |i: int| field_value_text(k, i as nat, fields.ident_at(i), t),
        ),
    )
}

/// Generate the representation type for a field.
///
/// `t` decides the representational field type, given its declared type.
pub fn field_repr(
    krate: &str,
    ident: Option<&str>,
    ty: &str,
    names: &mut NameGen,
    t: Transform,
) -> (repr: String)
    ensures
        repr@ == field_repr_text(krate@, opt_text(ident), ty@, t),
        final(names)@ == (marker_inserted(old(names)@.0, opt_text(ident)), old(names)@.1),
{
    let name = name_marker_type(krate, ident, names);
    let typ = transform_type(t, ty);
    let mut repr = String::from_str(krate);
    repr.append("::generic::fields::Field<");
    repr.append(name.as_str());
    repr.append(", ");
    repr.append(typ.as_str());
    repr.append(">");
    repr
}

/// Generate the representation type for a collection of fields.
///
/// The fields are visited from the last to the first.
pub fn fields_repr(krate: &str, fields: &FieldsDef, names: &mut NameGen, t: Transform) -> (repr:
    String)
    ensures
        repr@ == fields_repr_text(krate@, *fields, t),
        final(names)@ == (fields_names_from(old(names)@.0, *fields, 0), old(names)@.1),
{
    let n = fields.len();
    let ghost reprs = field_reprs(krate@, *fields, t);
    let mut repr = nil(krate);
    let mut i = n;
    while i > 0
        invariant
            n == fields.spec_len(),
            reprs == field_reprs(krate@, *fields, t),
            i <= n,
            repr@ == product_type_text(krate@, reprs.subrange(i as int, n as int)),
            names@ == (fields_names_from(old(names)@.0, *fields, i as int), old(names)@.1),
        decreases i,
    {
        i = i - 1;
        proof {
            lemma_suffix_drop_first(reprs, i as int);
        }
        let ty = code_string(krate, fields.ty(i));
        let item = field_repr(krate, fields.ident(i), ty.as_str(), names, t);
        repr = cons_ty(krate, item.as_str(), repr.as_str());
    }
    assert(reprs.subrange(0, n as int) =~= reprs);
    repr
}

/// Generate an expression that instantiates field `idx`'s representation.
pub fn field_to_repr_expr(krate: &str, idx: usize, ident: Option<&str>, t: Transform) -> (expr:
    String)
    ensures
        expr@ == field_value_text(krate@, idx as nat, opt_text(ident), t),
{
    let mut place = String::from_str("self.");
    match ident {
        Some(ident) => place.append(ident),
        None => place.append(decimal(idx).as_str()),
    }
    let value = transform_value(t, place.as_str());
    let mut expr = String::from_str(krate);
    expr.append("::generic::fields::Field::new(");
    expr.append(value.as_str());
    expr.append(")");
    expr
}

/// Generate an expression that instantiates the product for all field representations.
pub fn fields_to_repr_expr(krate: &str, fields: &FieldsDef, t: Transform) -> (expr: String)
    ensures
        expr@ == fields_to_repr_text(krate@, *fields, t),
{
    let n = fields.len();
    let ghost values = Seq::new(
        fields.spec_len(),
        |i: int| field_value_text(krate@, i as nat, fields.ident_at(i), t),
    );
    let mut items: Vec<String> = Vec::new();
    let mut i: usize = 0;
    while i < n
        invariant
            n == fields.spec_len(),
            values == Seq::new(
                fields.spec_len(),
                |i: int| field_value_text(krate@, i as nat, fields.ident_at(i), t),
            ),
            i <= n,
            items@.len() == i,
            forall|j: int| 0 <= j < i ==> items@[j]@ == values[j],
        decreases n - i,
    {
        items.push(field_to_repr_expr(krate, i, fields.ident(i), t));
        i = i + 1;
    }
    assert(texts(items@) =~= values);
    product_expr(krate, &items)
}

} // verus!
