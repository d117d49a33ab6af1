//! The owned, shared and mutable representations of a type are generated one after another with
//! one name generator. Generating a representation only adds marker types, and generating one
//! again adds none and picks the same marker types: the three representations agree on every
//! name marker, and differ only in how they hold the fields.

use vstd::prelude::*;

use crate::macros::derive::datatypes::data_repr_text;
use crate::macros::derive::datatypes::data_type_impl_text;
use crate::macros::derive::datatypes::impl_text;
use crate::macros::derive::enums::enum_repr_text;
use crate::macros::derive::enums::variant_idents;
use crate::macros::derive::enums::variants_repr_from;
use crate::macros::derive::fields::fields_names_from;
use crate::macros::derive::names::marker_inserted;
use crate::macros::derive::structs::struct_repr_text;
use crate::macros::derive::variants::flavour_text;
use crate::macros::derive::variants::variant_repr_text;
use crate::macros::derive::DataDef;
use crate::macros::derive::DeriveInputDef;
use crate::macros::derive::FieldsDef;
use crate::macros::derive::Transform;
use crate::macros::derive::VariantDef;
use crate::macros::names::all_names_inserted;
use crate::macros::names::inserted_name;
use crate::macros::names::lemma_insert_present;
use crate::macros::names::lemma_position_of_found;
use crate::macros::names::names_inserted;
use crate::macros::names::position_of;
use crate::macros::names::NamesView;
use crate::macros::names::law_insert_name;
use crate::macros::names::law_names_inserted;
use crate::macros::names::names_unique;
use crate::macros::names::no_duplicates;

verus! {

/// Whether `a` is a prefix of `b`
pub open spec fn prefix_of<A>(a: Seq<A>, b: Seq<A>) -> bool {
    a.len() <= b.len() && forall|i: int| 0 <= i < a.len() ==> #[trigger] a[i] == b[i]
}

/// Whether state `later` holds every marker type of state `earlier`, at the same positions
pub open spec fn extends(later: NamesView, earlier: NamesView) -> bool {
    prefix_of(earlier.0, later.0) && prefix_of(earlier.1, later.1)
}

proof fn lemma_prefix_trans<A>(a: Seq<A>, b: Seq<A>, c: Seq<A>)
    requires
        prefix_of(a, b),
        prefix_of(b, c),
    ensures
        prefix_of(a, c),
{
    assert forall|i: int| 0 <= i < a.len() implies #[trigger] a[i] == c[i] by {
        assert(a[i] == b[i]);
        assert(b[i] == c[i]);
    }
}

proof fn lemma_extends_trans(a: NamesView, b: NamesView, c: NamesView)
    requires
        extends(b, a),
        extends(c, b),
    ensures
        extends(c, a),
{
    lemma_prefix_trans(a.0, b.0, c.0);
    lemma_prefix_trans(a.1, b.1, c.1);
}

proof fn lemma_prefix_contains<A>(a: Seq<A>, b: Seq<A>, x: A)
    requires
        prefix_of(a, b),
        a.contains(x),
    ensures
        b.contains(x),
{
    let j = choose|j: int| 0 <= j < a.len() && a[j] == x;
    assert(a[j] == b[j]);
}

proof fn lemma_prefix_push<A>(a: Seq<A>, x: A)
    ensures
        prefix_of(a, a.push(x)),
{
    assert forall|i: int| 0 <= i < a.len() implies #[trigger] a[i] == a.push(x)[i] by {}
}

/// Inserting a name only adds, and inserting it into any state that extends the result changes
/// nothing.
proof fn lemma_inserted_name(names: Seq<Seq<char>>, ident: Seq<char>)
    ensures
        prefix_of(names, inserted_name(names, ident)),
        inserted_name(names, ident).contains(ident),
        forall|later: Seq<Seq<char>>| #[trigger]
            prefix_of(inserted_name(names, ident), later) ==> inserted_name(later, ident) == later,
{
    if !names.contains(ident) {
        lemma_prefix_push(names, ident);
        assert(names.push(ident)[names.len() as int] == ident);
    }
    assert forall|later: Seq<Seq<char>>| #[trigger]
        prefix_of(inserted_name(names, ident), later) implies inserted_name(later, ident)
        == later by {
        lemma_prefix_contains(inserted_name(names, ident), later, ident);
    }
}

proof fn lemma_marker_inserted(names: Seq<Seq<char>>, ident: Option<Seq<char>>)
    ensures
        prefix_of(names, marker_inserted(names, ident)),
        forall|later: Seq<Seq<char>>| #[trigger]
            prefix_of(marker_inserted(names, ident), later) ==> marker_inserted(later, ident)
                == later,
{
    match ident {
        Some(i) => lemma_inserted_name(names, i),
        None => {
            assert(prefix_of(names, names));
        },
    }
}

/// Inserting names one by one only adds, and every one of them is present afterwards.
proof fn lemma_all_names_inserted(names: Seq<Seq<char>>, idents: Seq<Seq<char>>)
    ensures
        prefix_of(names, all_names_inserted(names, idents)),
        forall|i: int| #![trigger idents[i]]
            0 <= i < idents.len() ==> all_names_inserted(names, idents).contains(idents[i]),
    decreases idents.len(),
{
    if idents.len() == 0 {
        assert(prefix_of(names, names));
    } else {
        let before = all_names_inserted(names, idents.drop_last());
        lemma_all_names_inserted(names, idents.drop_last());
        lemma_inserted_name(before, idents.last());
        lemma_prefix_trans(names, before, all_names_inserted(names, idents));
        assert forall|i: int| #![trigger idents[i]] 0 <= i < idents.len() implies all_names_inserted(
            names,
            idents,
        ).contains(idents[i]) by {
            if i < idents.len() - 1 {
                assert(idents.drop_last()[i] == idents[i]);
                lemma_prefix_contains(before, all_names_inserted(names, idents), idents[i]);
            }
        }
    }
}

/// Declaring a sequence of names only adds, and declaring it in any state that extends the
/// result changes nothing and gives the same marker type.
proof fn lemma_names_inserted(g: NamesView, idents: Seq<Seq<char>>)
    ensures
        extends(names_inserted(g, idents).1, g),
        forall|later: NamesView| #[trigger]
            extends(later, names_inserted(g, idents).1) ==> names_inserted(later, idents) == (
                names_inserted(g, idents).0,
                later,
            ),
{
    let g1 = names_inserted(g, idents).1;
    lemma_all_names_inserted(g.0, idents);
    lemma_position_of_found(g.1, idents);
    let p = position_of(g.1, idents);
    if p == g.1.len() {
        lemma_prefix_push(g.1, idents);
        assert(g1.1[p as int] == idents);
    } else {
        assert(prefix_of(g.1, g.1));
    }
    assert forall|later: NamesView| #[trigger] extends(later, g1) implies names_inserted(
        later,
        idents,
    ) == (names_inserted(g, idents).0, later) by {
        assert forall|i: int| #![trigger idents[i]] 0 <= i < idents.len() implies later.0.contains(
            idents[i],
        ) by {
            lemma_prefix_contains(g1.0, later.0, idents[i]);
        }
        lemma_insert_present(later.0, idents);
        assert(g1.1[p as int] == later.1[p as int]);
        assert forall|j: int| 0 <= j < p implies later.1[j] != idents by {
            assert(g.1[j] == g1.1[j]);
            assert(g1.1[j] == later.1[j]);
        }
        crate::macros::names::lemma_position_of(later.1, idents, p as int);
        assert(p < later.1.len());
    }
}

/// Picking the marker types of fields from `i` on only adds, and picking them again in any state
/// that extends the result changes nothing.
proof fn lemma_fields_names(names: Seq<Seq<char>>, fields: FieldsDef, i: int)
    ensures
        prefix_of(names, fields_names_from(names, fields, i)),
        forall|later: Seq<Seq<char>>| #[trigger]
            prefix_of(fields_names_from(names, fields, i), later) ==> fields_names_from(
                later,
                fields,
                i,
            ) == later,
    decreases fields.spec_len() - i,
{
    if i < 0 || i >= fields.spec_len() {
        assert(prefix_of(names, names));
    } else {
        let rest = fields_names_from(names, fields, i + 1);
        lemma_fields_names(names, fields, i + 1);
        lemma_marker_inserted(rest, fields.ident_at(i));
        lemma_prefix_trans(names, rest, fields_names_from(names, fields, i));
        assert forall|later: Seq<Seq<char>>| #[trigger]
            prefix_of(fields_names_from(names, fields, i), later) implies fields_names_from(
            later,
            fields,
            i,
        ) == later by {
            lemma_prefix_trans(rest, fields_names_from(names, fields, i), later);
        }
    }
}

proof fn lemma_flavour(k: Seq<char>, fields: FieldsDef, g: NamesView)
    ensures
        extends(flavour_text(k, fields, g).1, g),
        forall|later: NamesView| #[trigger]
            extends(later, flavour_text(k, fields, g).1) ==> flavour_text(k, fields, later) == (
                flavour_text(k, fields, g).0,
                later,
            ),
{
    match fields {
        FieldsDef::Named(_) => lemma_names_inserted(g, fields.idents()),
        _ => {
            assert(prefix_of(g.0, g.0));
            assert(prefix_of(g.1, g.1));
        },
    }
}

proof fn lemma_variant(k: Seq<char>, idx: nat, var: VariantDef, t: Transform, g: NamesView)
    ensures
        extends(variant_repr_text(k, idx, var, t, g).1, g),
        forall|t2: Transform| #[trigger]
            variant_repr_text(k, idx, var, t2, g).1 == variant_repr_text(k, idx, var, t, g).1,
        forall|later: NamesView, t2: Transform| #![trigger variant_repr_text(k, idx, var, t2, later)]
            extends(later, variant_repr_text(k, idx, var, t, g).1) ==> variant_repr_text(
                k,
                idx,
                var,
                t2,
                later,
            ) == (variant_repr_text(k, idx, var, t2, g).0, later),
{
    let g1 = flavour_text(k, var.fields, g).1;
    let g2 = (fields_names_from(g1.0, var.fields, 0), g1.1);
    let g3 = variant_repr_text(k, idx, var, t, g).1;
    lemma_flavour(k, var.fields, g);
    lemma_fields_names(g1.0, var.fields, 0);
    lemma_inserted_name(g2.0, var.ident@);
    assert(prefix_of(g1.1, g1.1));
    lemma_extends_trans(g, g1, g2);
    lemma_extends_trans(g, g2, g3);
    assert forall|later: NamesView, t2: Transform| #![trigger variant_repr_text(k, idx, var, t2, later)]
        extends(later, variant_repr_text(k, idx, var, t, g).1) implies variant_repr_text(
        k,
        idx,
        var,
        t2,
        later,
    ) == (variant_repr_text(k, idx, var, t2, g).0, later) by {
        lemma_extends_trans(g2, g3, later);
        lemma_extends_trans(g1, g2, later);
    }
}

proof fn lemma_variants(k: Seq<char>, vars: Seq<VariantDef>, t: Transform, g: NamesView, i: int)
    ensures
        extends(variants_repr_from(k, vars, t, g, i).1, g),
        forall|t2: Transform| #[trigger]
            variants_repr_from(k, vars, t2, g, i).1 == variants_repr_from(k, vars, t, g, i).1,
        forall|later: NamesView, t2: Transform| #![trigger variants_repr_from(k, vars, t2, later, i)]
            extends(later, variants_repr_from(k, vars, t, g, i).1) ==> variants_repr_from(
                k,
                vars,
                t2,
                later,
                i,
            ) == (variants_repr_from(k, vars, t2, g, i).0, later),
    decreases vars.len() - i,
{
    if i < 0 || i >= vars.len() {
        assert(prefix_of(g.0, g.0));
        assert(prefix_of(g.1, g.1));
    } else {
        let g1 = variants_repr_from(k, vars, t, g, i + 1).1;
        lemma_variants(k, vars, t, g, i + 1);
        lemma_variant(k, i as nat, vars[i], t, g1);
        let g2 = variant_repr_text(k, i as nat, vars[i], t, g1).1;
        lemma_extends_trans(g, g1, g2);
        assert forall|t2: Transform| #[trigger]
            variants_repr_from(k, vars, t2, g, i).1 == variants_repr_from(k, vars, t, g, i).1 by {
            assert(variants_repr_from(k, vars, t2, g, i + 1).1 == g1);
            assert(variant_repr_text(k, i as nat, vars[i], t2, g1).1 == g2);
        }
        assert forall|later: NamesView, t2: Transform| #![trigger variants_repr_from(k, vars, t2, later, i)]
            extends(later, variants_repr_from(k, vars, t, g, i).1) implies variants_repr_from(
            k,
            vars,
            t2,
            later,
            i,
        ) == (variants_repr_from(k, vars, t2, g, i).0, later) by {
            lemma_extends_trans(g1, g2, later);
            assert(variants_repr_from(k, vars, t2, later, i + 1) == (
                variants_repr_from(k, vars, t2, g, i + 1).0,
                later,
            ));
            assert(variants_repr_from(k, vars, t2, g, i + 1).1 == g1);
            assert(variant_repr_text(k, i as nat, vars[i], t2, later) == (
                variant_repr_text(k, i as nat, vars[i], t2, g1).0,
                later,
            ));
        }
    }
}

proof fn lemma_data_repr(k: Seq<char>, ident: Seq<char>, data: DataDef, t: Transform, g: NamesView)
    ensures
        extends(data_repr_text(k, ident, data, t, g).1, g),
        forall|t2: Transform| #[trigger]
            data_repr_text(k, ident, data, t2, g).1 == data_repr_text(k, ident, data, t, g).1,
        forall|later: NamesView, t2: Transform| #![trigger data_repr_text(k, ident, data, t2, later)]
            extends(later, data_repr_text(k, ident, data, t, g).1) ==> data_repr_text(
                k,
                ident,
                data,
                t2,
                later,
            ) == (data_repr_text(k, ident, data, t2, g).0, later),
{
    match data {
        DataDef::Struct(fields) => {
            let g1 = flavour_text(k, fields, g).1;
            let g2 = (fields_names_from(g1.0, fields, 0), g1.1);
            let g3 = struct_repr_text(k, ident, fields, t, g).1;
            lemma_flavour(k, fields, g);
            lemma_fields_names(g1.0, fields, 0);
            lemma_inserted_name(g2.0, ident);
            assert(prefix_of(g1.1, g1.1));
            lemma_extends_trans(g, g1, g2);
            lemma_extends_trans(g, g2, g3);
            assert forall|later: NamesView, t2: Transform| #![trigger data_repr_text(k, ident, data, t2, later)]
                extends(later, data_repr_text(k, ident, data, t, g).1) implies data_repr_text(
                k,
                ident,
                data,
                t2,
                later,
            ) == (data_repr_text(k, ident, data, t2, g).0, later) by {
                lemma_extends_trans(g2, g3, later);
                lemma_extends_trans(g1, g2, later);
            }
        },
        DataDef::Enum(vars) => {
            let g1 = variants_repr_from(k, vars@, t, g, 0).1;
            let g2 = names_inserted(g1, variant_idents(vars@)).1;
            let g3 = enum_repr_text(k, ident, vars@, t, g).1;
            lemma_variants(k, vars@, t, g, 0);
            lemma_names_inserted(g1, variant_idents(vars@));
            lemma_inserted_name(g2.0, ident);
            assert(prefix_of(g2.1, g2.1));
            lemma_extends_trans(g, g1, g2);
            lemma_extends_trans(g, g2, g3);
            assert forall|t2: Transform| #[trigger]
                data_repr_text(k, ident, data, t2, g).1 == data_repr_text(k, ident, data, t, g).1 by {
                assert(variants_repr_from(k, vars@, t2, g, 0).1 == g1);
            }
            assert forall|later: NamesView, t2: Transform| #![trigger data_repr_text(k, ident, data, t2, later)]
                extends(later, data_repr_text(k, ident, data, t, g).1) implies data_repr_text(
                k,
                ident,
                data,
                t2,
                later,
            ) == (data_repr_text(k, ident, data, t2, g).0, later) by {
                lemma_extends_trans(g2, g3, later);
                lemma_extends_trans(g1, g2, later);
                assert(variants_repr_from(k, vars@, t2, later, 0) == (
                    variants_repr_from(k, vars@, t2, g, 0).0,
                    later,
                ));
                assert(variants_repr_from(k, vars@, t2, g, 0).1 == g1);
            }
        },
        DataDef::Union => {
            assert(prefix_of(g.0, g.0));
            assert(prefix_of(g.1, g.1));
        },
    }
}

/// Generating a representation of a type only adds marker types; generating another
/// representation of it afterwards declares no new marker type and gives the text it would give
/// from the state before the first: all representations of a type refer to the same markers.
pub proof fn law_representations_share_names(
    k: Seq<char>,
    ident: Seq<char>,
    data: DataDef,
    first: Transform,
    second: Transform,
    g: NamesView,
)
    ensures
        extends(data_repr_text(k, ident, data, first, g).1, g),
        data_repr_text(k, ident, data, second, data_repr_text(k, ident, data, first, g).1) == (
            data_repr_text(k, ident, data, second, g).0,
            data_repr_text(k, ident, data, first, g).1,
        ),
{
    let g1 = data_repr_text(k, ident, data, first, g).1;
    lemma_data_repr(k, ident, data, first, g);
    assert(prefix_of(g1.0, g1.0));
    assert(prefix_of(g1.1, g1.1));
}

/// The implementation of `DataType` that the derive generates declares its owned, shared and
/// mutable representations with the same marker types: each is the representation that the
/// type would have from the name generator's starting state, and only the first declares any.
pub proof fn law_impl_representations(k: Seq<char>, input: DeriveInputDef, g: NamesView)
    ensures
        ({
            let (repr, g1) = data_repr_text(k, input.ident@, input.data, Transform::Owned, g);
            data_type_impl_text(k, input, g) == (
                impl_text(
                    k,
                    input,
                    repr,
                    data_repr_text(k, input.ident@, input.data, Transform::Shared, g).0,
                    data_repr_text(k, input.ident@, input.data, Transform::Unique, g).0,
                ),
                g1,
            )
        }),
{
    let g1 = data_repr_text(k, input.ident@, input.data, Transform::Owned, g).1;
    law_representations_share_names(
        k,
        input.ident@,
        input.data,
        Transform::Owned,
        Transform::Shared,
        g,
    );
    law_representations_share_names(
        k,
        input.ident@,
        input.data,
        Transform::Owned,
        Transform::Unique,
        g,
    );
}

proof fn lemma_marker_unique(names: Seq<Seq<char>>, ident: Option<Seq<char>>)
    requires
        no_duplicates(names),
    ensures
        no_duplicates(marker_inserted(names, ident)),
{
    if let Some(i) = ident {
        law_insert_name(names, i);
    }
}

proof fn lemma_fields_unique(names: Seq<Seq<char>>, fields: FieldsDef, i: int)
    requires
        no_duplicates(names),
    ensures
        no_duplicates(fields_names_from(names, fields, i)),
    decreases fields.spec_len() - i,
{
    if 0 <= i < fields.spec_len() {
        lemma_fields_unique(names, fields, i + 1);
        lemma_marker_unique(fields_names_from(names, fields, i + 1), fields.ident_at(i));
    }
}

proof fn lemma_flavour_unique(k: Seq<char>, fields: FieldsDef, g: NamesView)
    requires
        names_unique(g),
    ensures
        names_unique(flavour_text(k, fields, g).1),
{
    if fields is Named {
        law_names_inserted(g, fields.idents());
    }
}

proof fn lemma_variant_unique(k: Seq<char>, idx: nat, var: VariantDef, t: Transform, g: NamesView)
    requires
        names_unique(g),
    ensures
        names_unique(variant_repr_text(k, idx, var, t, g).1),
{
    let g1 = flavour_text(k, var.fields, g).1;
    lemma_flavour_unique(k, var.fields, g);
    lemma_fields_unique(g1.0, var.fields, 0);
    law_insert_name(fields_names_from(g1.0, var.fields, 0), var.ident@);
}

proof fn lemma_variants_unique(
    k: Seq<char>,
    vars: Seq<VariantDef>,
    t: Transform,
    g: NamesView,
    i: int,
)
    requires
        names_unique(g),
    ensures
        names_unique(variants_repr_from(k, vars, t, g, i).1),
    decreases vars.len() - i,
{
    if 0 <= i < vars.len() {
        lemma_variants_unique(k, vars, t, g, i + 1);
        lemma_variant_unique(
            k,
            i as nat,
            vars[i],
            t,
            variants_repr_from(k, vars, t, g, i + 1).1,
        );
    }
}

/// Generating a representation keeps every identifier and every sequence of identifiers with
/// one marker type at most.
pub proof fn law_representation_names_unique(
    k: Seq<char>,
    ident: Seq<char>,
    data: DataDef,
    t: Transform,
    g: NamesView,
)
    requires
        names_unique(g),
    ensures
        names_unique(data_repr_text(k, ident, data, t, g).1),
{
    match data {
        DataDef::Struct(fields) => {
            let g1 = flavour_text(k, fields, g).1;
            lemma_flavour_unique(k, fields, g);
            lemma_fields_unique(g1.0, fields, 0);
            law_insert_name(fields_names_from(g1.0, fields, 0), ident);
        },
        DataDef::Enum(vars) => {
            let g1 = variants_repr_from(k, vars@, t, g, 0).1;
            lemma_variants_unique(k, vars@, t, g, 0);
            law_names_inserted(g1, variant_idents(vars@));
            law_insert_name(names_inserted(g1, variant_idents(vars@)).1.0, ident);
        },
        DataDef::Union => {},
    }
}

/// The code that the derive generates declares one marker type at most for each identifier and
/// for each sequence of identifiers, however often the type uses them.
pub proof fn law_derive_declares_names_once(k: Seq<char>, input: DeriveInputDef)
    ensures
        names_unique(
            data_type_impl_text(
                k,
                input,
                (Seq::<Seq<char>>::empty(), Seq::<Seq<Seq<char>>>::empty()),
            ).1,
        ),
{
    let g = (Seq::<Seq<char>>::empty(), Seq::<Seq<Seq<char>>>::empty());
    law_impl_representations(k, input, g);
    law_representation_names_unique(k, input.ident@, input.data, Transform::Owned, g);
}

} // verus!
