use vstd::prelude::*;

use crate::macros::derive::fields::fields_names_from;
use crate::macros::derive::fields::fields_repr;
use crate::macros::derive::fields::fields_repr_text;
use crate::macros::derive::fields::fields_to_repr_expr;
use crate::macros::derive::fields::fields_to_repr_text;
use crate::macros::derive::variants::flavour_text;
use crate::macros::derive::variants::variant_flavour;
use crate::macros::derive::FieldsDef;
use crate::macros::derive::Transform;
use crate::macros::names::inserted_name;
use crate::macros::names::name_type_text;
use crate::macros::names::NameGen;
use crate::macros::names::NamesView;
use crate::macros::nums::decimal;
use crate::macros::nums::decimal_text;
use crate::macros::product::product_pat;
use crate::macros::product::product_term_text;
use crate::macros::text::join;
use crate::macros::text::joined_text;
use crate::macros::text::texts;

verus! {

/// Source text of the representation type of struct `ident` with `fields`, and the name
/// generator's state after generating it
pub open spec fn struct_repr_text(
    k: Seq<char>,
    ident: Seq<char>,
    fields: FieldsDef,
    t: Transform,
    g: NamesView,
) -> (Seq<char>, NamesView) {
    let (flavour, g1) = flavour_text(k, fields, g);
    let g2 = (fields_names_from(g1.0, fields, 0), g1.1);
    let g3 = (inserted_name(g2.0, ident), g2.1);
    (
        k + "::generic::structs::Struct<"@ + name_type_text(ident) + ", "@ + flavour + ", "@
            + fields_repr_text(k, fields, t) + ">"@,
        g3,
    )
}

/// Source text of the expression that instantiates the whole struct representation
pub open spec fn struct_to_repr_text(k: Seq<char>, fields: FieldsDef, t: Transform) -> Seq<char> {
    k + "::generic::structs::Struct::new("@ + fields_to_repr_text(k, fields, t) + ")"@
}

/// The variable that takes the value of field `i` out of a representation
pub open spec fn value_name_text(i: nat) -> Seq<char> {
    "field"@ + decimal_text(i)
}

/// The pattern that takes the value of field `i` out of its representation
pub open spec fn field_pat_text(k: Seq<char>, i: nat) -> Seq<char> {
    k + "::generic::fields::Field { value: "@ + value_name_text(i) + ", .. }"@
}

/// The pattern that takes the values of `n` fields out of their product
pub open spec fn fields_pat_text(k: Seq<char>, n: nat) -> Seq<char> {
    product_term_text(k, Seq::new(n, |i: int| field_pat_text(k, i as nat)))
}

/// The arguments of a constructor that builds `fields` from the variables of `value_name_text`
pub open spec fn ctor_args(fields: FieldsDef) -> Seq<Seq<char>> {
    match fields {
        FieldsDef::Named(named) => Seq::new(
            named@.len(),
            |i: int| named@[i].ident@ + ": "@ + value_name_text(i as nat),
        ),
        _ => Seq::new(fields.spec_len(), |i: int| value_name_text(i as nat)),
    }
}

/// The expression that builds `head` (`Self` or a variant of it) with `fields` from the variables
/// of `value_name_text`
pub open spec fn ctor_text(head: Seq<char>, fields: FieldsDef) -> Seq<char> {
    match fields {
        FieldsDef::Named(_) => head + " { "@ + joined_text(ctor_args(fields), ", "@) + " }"@,
        FieldsDef::Unnamed(_) => head + "("@ + joined_text(ctor_args(fields), ", "@) + ")"@,
        FieldsDef::Unit => head,
    }
}

/// Source text of the expression that reconstructs the struct with `fields` from its
/// representation `repr`
pub open spec fn struct_from_repr_text(k: Seq<char>, fields: FieldsDef) -> Seq<char> {
    "{ let "@ + k + "::generic::structs::Struct { fields: "@ + fields_pat_text(k, fields.spec_len())
        + ", .. } = repr; "@ + ctor_text("Self"@, fields) + " }"@
}

/// Generate the struct representation.
pub fn struct_repr(
    krate: &str,
    ident: &str,
    fields: &FieldsDef,
    names: &mut NameGen,
    t: Transform,
) -> (repr: String)
    ensures
        (repr@, final(names)@) == struct_repr_text(krate@, ident@, *fields, t, old(names)@),
{
    let flavour = variant_flavour(krate, fields, names);
    let fields = fields_repr(krate, fields, names, t);
    let name = names.insert(ident);
    let mut repr = String::from_str(krate);
    repr.append("::generic::structs::Struct<");
    repr.append(name.as_str());
    repr.append(", ");
    repr.append(flavour.as_str());
    repr.append(", ");
    repr.append(fields.as_str());
    repr.append(">");
    repr
}

/// Generate an expression that instantiates the whole struct representation.
pub fn struct_to_repr_expr(krate: &str, fields: &FieldsDef, t: Transform) -> (expr: String)
    ensures
        expr@ == struct_to_repr_text(krate@, *fields, t),
{
    let fields_impl = fields_to_repr_expr(krate, fields, t);
    let mut expr = String::from_str(krate);
    expr.append("::generic::structs::Struct::new(");
    expr.append(fields_impl.as_str());
    expr.append(")");
    expr
}

/// The variable that takes the value of field `i` out of a representation.
pub fn value_name(i: usize) -> (name: String)
    ensures
        name@ == value_name_text(i as nat),
{
    let mut name = String::from_str("field");
    name.append(decimal(i).as_str());
    name
}

/// The pattern that takes the values of `n` fields out of their product.
pub fn fields_pat(krate: &str, n: usize) -> (pat: String)
    ensures
        pat@ == fields_pat_text(krate@, n as nat),
{
    let ghost pats = Seq::new(n as nat, |i: int| field_pat_text(krate@, i as nat));
    let mut items: Vec<String> = Vec::new();
    let mut i: usize = 0;
    while i < n
        invariant
            pats == Seq::new(n as nat, |i: int| field_pat_text(krate@, i as nat)),
            i <= n,
            items@.len() == i,
            forall|j: int| 0 <= j < i ==> items@[j]@ == pats[j],
        decreases n - i,
    {
        let mut item = String::from_str(krate);
        item.append("::generic::fields::Field { value: ");
        item.append(value_name(i).as_str());
        item.append(", .. }");
        items.push(item);
        i = i + 1;
    }
    assert(texts(items@) =~= pats);
    product_pat(krate, &items)
}

/// The expression that builds `head` with `fields` from the variables of [`value_name`].
pub fn constructor(head: &str, fields: &FieldsDef) -> (ctor: String)
    ensures
        ctor@ == ctor_text(head@, *fields),
{
    let n = fields.len();
    let ghost args = ctor_args(*fields);
    let mut items: Vec<String> = Vec::new();
    let mut i: usize = 0;
    while i < n
        invariant
            n == fields.spec_len(),
            args == ctor_args(*fields),
            i <= n,
            items@.len() == i,
            forall|j: int| 0 <= j < i ==> items@[j]@ == args[j],
        decreases n - i,
    {
        let item = match fields.ident(i) {
            Some(ident) => {
                let mut item = String::from_str(ident);
                item.append(": ");
                item.append(value_name(i).as_str());
                item
            },
            None => value_name(i),
        };
        items.push(item);
        i = i + 1;
    }
    assert(texts(items@) =~= args);
    let mut ctor = String::from_str(head);
    match fields {
        FieldsDef::Named(_) => {
            ctor.append(" { ");
            ctor.append(join(&items, ", ").as_str());
            ctor.append(" }");
        },
        FieldsDef::Unnamed(_) => {
            ctor.append("(");
            ctor.append(join(&items, ", ").as_str());
            ctor.append(")");
        },
        FieldsDef::Unit => {},
    }
    ctor
}

/// Generate an expression that reconstructs the struct from its representation.
pub fn struct_from_repr_expr(krate: &str, fields: &FieldsDef) -> (expr: String)
    ensures
        expr@ == struct_from_repr_text(krate@, *fields),
{
    let fields_pat = fields_pat(krate, fields.len());
    let ctor = constructor("Self", fields);
    let mut expr = String::from_str("{ let ");
    expr.append(krate);
    expr.append("::generic::structs::Struct { fields: ");
    expr.append(fields_pat.as_str());
    expr.append(", .. } = repr; ");
    expr.append(ctor.as_str());
    expr.append(" }");
    expr
}

} // verus!
