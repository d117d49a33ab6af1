//! Type-level name generation for fields and enum variants
//!
//! The generated representation types use Rust identifiers at the type level. For each distinct
//! identifier passed to [`NameGen::insert`], the generator emits a zero-sized marker type named
//! `<Ident>Name` and an implementation of `HasName` for it, which exposes the identifier as a
//! string constant. For each distinct sequence of identifiers passed to [`NameGen::insert_fields`]
//! or [`NameGen::insert_variants`], it emits a marker type `__SeuNames_<n>` that implements
//! `HasNames`, where `n` counts the distinct sequences inserted before it.
//!
//! Reusing an identifier, or a sequence of identifiers, returns the same marker type and emits a
//! single declaration.

use vstd::prelude::*;

use crate::macros::derive::FieldsDef;
use crate::macros::derive::VariantDef;
use crate::macros::nums::decimal;
use crate::macros::nums::decimal_text;
use crate::macros::text::join;
use crate::macros::text::joined_text;
use crate::macros::text::strings_eq;
use crate::macros::text::texts;
use crate::serde::value::str_eq;

verus! {

/// What a name generator has collected: the identifiers with a marker type, in the order they were
/// first inserted, and the sequences of identifiers with a marker type, in the same order
pub type NamesView = (Seq<Seq<char>>, Seq<Seq<Seq<char>>>);

/// Position of the first `x` in `s`, or the length of `s` where there is none
pub open spec fn position_of<A>(s: Seq<A>, x: A) -> nat
    decreases s.len(),
{
    if s.len() == 0 {
        0
    } else if s[0] == x {
        0
    } else {
        1 + position_of(s.drop_first(), x)
    }
}

/// Whether no item occurs twice in `s`
pub open spec fn no_duplicates<A>(s: Seq<A>) -> bool {
    forall|i: int, j: int| 0 <= i < j < s.len() ==> s[i] != s[j]
}

/// Source text of the marker type for the identifier `ident`
pub open spec fn name_type_text(ident: Seq<char>) -> Seq<char> {
    ident + "Name"@
}

/// Source text of the marker type for the sequence of identifiers at position `idx`
pub open spec fn seq_type_text(idx: nat) -> Seq<char> {
    "__SeuNames_"@ + decimal_text(idx)
}

/// `names` after inserting `ident`: unchanged where it holds `ident` already
pub open spec fn inserted_name(names: Seq<Seq<char>>, ident: Seq<char>) -> Seq<Seq<char>> {
    if names.contains(ident) {
        names
    } else {
        names.push(ident)
    }
}

/// `names` after inserting each of `idents`, in order
pub open spec fn all_names_inserted(names: Seq<Seq<char>>, idents: Seq<Seq<char>>) -> Seq<
    Seq<char>,
>
    decreases idents.len(),
{
    if idents.len() == 0 {
        names
    } else {
        inserted_name(all_names_inserted(names, idents.drop_last()), idents.last())
    }
}

/// `seqs` after inserting `idents`: unchanged where it holds `idents` already
pub open spec fn inserted_seq(seqs: Seq<Seq<Seq<char>>>, idents: Seq<Seq<char>>) -> Seq<
    Seq<Seq<char>>,
> {
    if position_of(seqs, idents) < seqs.len() {
        seqs
    } else {
        seqs.push(idents)
    }
}

/// The marker type for the sequence `idents`, and the generator's state after inserting it
pub open spec fn names_inserted(g: NamesView, idents: Seq<Seq<char>>) -> (Seq<char>, NamesView) {
    (
        seq_type_text(position_of(g.1, idents)),
        (all_names_inserted(g.0, idents), inserted_seq(g.1, idents)),
    )
}

/// Declaration of the marker type for `ident`
pub open spec fn name_decl_text(ident: Seq<char>) -> Seq<char> {
    "#[automatically_derived] struct "@ + ident + "Name;"@
}

/// Implementation of `HasName` for the marker type of `ident`, in the crate at path `k`
pub open spec fn name_impl_text(k: Seq<char>, ident: Seq<char>) -> Seq<char> {
    "#[automatically_derived] impl "@ + k + "::generic::names::HasName for "@ + ident
        + "Name { const NAME: &'static str = \""@ + ident + "\"; }"@
}

/// The name constant of the marker type for `ident`
pub open spec fn name_ref_text(k: Seq<char>, ident: Seq<char>) -> Seq<char> {
    "<"@ + ident + "Name as "@ + k + "::generic::names::HasName>::NAME"@
}

/// The name constants of the marker types for `idents`
pub open spec fn name_refs(k: Seq<char>, idents: Seq<Seq<char>>) -> Seq<Seq<char>> {
    idents.map_values(|ident: Seq<char>| name_ref_text(k, ident))
}

/// Declaration of the marker type for the sequence at position `idx`
pub open spec fn seq_decl_text(idx: nat) -> Seq<char> {
    "struct __SeuNames_"@ + decimal_text(idx) + ";"@
}

/// Implementation of `HasNames` for the marker type of the sequence `idents` at position `idx`
pub open spec fn seq_impl_text(k: Seq<char>, idx: nat, idents: Seq<Seq<char>>) -> Seq<char> {
    "impl "@ + k + "::generic::names::HasNames for __SeuNames_"@ + decimal_text(idx)
        + " { const NAMES: &'static [&'static str] = &["@ + joined_text(name_refs(k, idents), ", "@)
        + "]; }"@
}

/// The items that declare the marker types of `names`
pub open spec fn name_items(k: Seq<char>, names: Seq<Seq<char>>) -> Seq<Seq<char>>
    decreases names.len(),
{
    if names.len() == 0 {
        Seq::empty()
    } else {
        name_items(k, names.drop_last()) + seq![
            name_decl_text(names.last()),
            name_impl_text(k, names.last()),
        ]
    }
}

/// The items that declare the marker types of `seqs`
pub open spec fn seq_items(k: Seq<char>, seqs: Seq<Seq<Seq<char>>>) -> Seq<Seq<char>>
    decreases seqs.len(),
{
    if seqs.len() == 0 {
        Seq::empty()
    } else {
        seq_items(k, seqs.drop_last()) + seq![
            seq_decl_text((seqs.len() - 1) as nat),
            seq_impl_text(k, (seqs.len() - 1) as nat, seqs.last()),
        ]
    }
}

/// All items that a generator in state `g` declares
pub open spec fn done_items(k: Seq<char>, g: NamesView) -> Seq<Seq<char>> {
    name_items(k, g.0) + seq_items(k, g.1)
}

/// `position_of` is the first position that holds `x`.
pub proof fn lemma_position_of<A>(s: Seq<A>, x: A, i: int)
    requires
        0 <= i <= s.len(),
        forall|j: int| 0 <= j < i ==> s[j] != x,
        i == s.len() || s[i] == x,
    ensures
        position_of(s, x) == i,
    decreases i,
{
    if i > 0 {
        lemma_position_of(s.drop_first(), x, i - 1);
    } else if s.len() > 0 {
    }
}

/// Collects and de-duplicates generated name marker types
///
/// Use [`NameGen::insert`] while constructing type-level representations, then append the items
/// returned by [`NameGen::done`] to the generated code so every referenced marker type is in
/// scope.
pub struct NameGen {
    /// Identifiers with a marker type, in the order they were first inserted
    names: Vec<String>,
    /// Sequences of identifiers with a marker type, in the order they were first inserted
    name_seqs: Vec<Vec<String>>,
}

impl View for NameGen {
    type V = NamesView;

    closed spec fn view(&self) -> NamesView {
        (texts(self.names@), self.name_seqs@.map_values(|v: Vec<String>| texts(v@)))
    }
}

impl Default for NameGen {
    fn default() -> (g: Self)
        ensures
            g@ == (Seq::<Seq<char>>::empty(), Seq::<Seq<Seq<char>>>::empty()),
    {
        let g = NameGen { names: Vec::new(), name_seqs: Vec::new() };
        assert(g@.0 =~= Seq::<Seq<char>>::empty());
        assert(g@.1 =~= Seq::<Seq<Seq<char>>>::empty());
        g
    }
}

impl NameGen {
    /// Whether `ident` has a marker type already.
    fn has_name(&self, ident: &str) -> (found: bool)
        ensures
            found == self@.0.contains(ident@),
    {
        let mut i: usize = 0;
        while i < self.names.len()
            invariant
                i <= self.names@.len(),
                forall|j: int| 0 <= j < i ==> self.names@[j]@ != ident@,
            decreases self.names@.len() - i,
        {
            if str_eq(self.names[i].as_str(), ident) {
                assert(self@.0[i as int] == ident@);
                return true;
            }
            i = i + 1;
        }
        assert(!self@.0.contains(ident@)) by {
            if self@.0.contains(ident@) {
                let j = choose|j: int| 0 <= j < self@.0.len() && self@.0[j] == ident@;
                assert(self.names@[j]@ == ident@);
            }
        }
        false
    }

    /// Position of the first sequence equal to `idents`, or the number of sequences where none
    /// is.
    fn seq_position(&self, idents: &Vec<String>) -> (idx: usize)
        ensures
            idx == position_of(self@.1, texts(idents@)),
            idx <= self@.1.len(),
    {
        let mut i: usize = 0;
        while i < self.name_seqs.len()
            invariant
                i <= self.name_seqs@.len(),
                forall|j: int| 0 <= j < i ==> self@.1[j] != texts(idents@),
            decreases self.name_seqs@.len() - i,
        {
            if strings_eq(&self.name_seqs[i], idents) {
                proof {
                    lemma_position_of(self@.1, texts(idents@), i as int);
                }
                return i;
            }
            i = i + 1;
        }
        proof {
            lemma_position_of(self@.1, texts(idents@), i as int);
        }
        i
    }

    /// Declare a name marker type.
    ///
    /// Subsequent calls with the same identifier return the same type without adding duplicate
    /// declarations.
    pub fn insert(&mut self, ident: &str) -> (ty: String)
        ensures
            ty@ == name_type_text(ident@),
            final(self)@ == (inserted_name(old(self)@.0, ident@), old(self)@.1),
    {
        if !self.has_name(ident) {
            self.names.push(String::from_str(ident));
            assert(self@.0 =~= old(self)@.0.push(ident@));
            assert(self@.1 =~= old(self)@.1);
        }
        let mut ty = String::from_str(ident);
        ty.append("Name");
        ty
    }

    /// Declare the names for a product of fields.
    pub fn insert_fields(&mut self, fields: &FieldsDef) -> (ty: String)
        ensures
            (ty@, final(self)@) == names_inserted(old(self)@, fields.idents()),
    {
        let mut idents: Vec<String> = Vec::new();
        match fields {
            FieldsDef::Named(named) => {
                let mut i: usize = 0;
                while i < named.len()
                    invariant
                        i <= named@.len(),
                        idents@.len() == i,
                        forall|k: int| 0 <= k < i ==> idents@[k]@ == named@[k].ident@,
                    decreases named@.len() - i,
                {
                    idents.push(String::from_str(named[i].ident.as_str()));
                    i = i + 1;
                }
                assert(texts(idents@) =~= fields.idents());
            },
            _ => {
                assert(texts(idents@) =~= fields.idents());
            },
        }
        self.insert_names(&idents)
    }

    /// Declare the names for a product of variants.
    pub fn insert_variants(&mut self, variants: &Vec<VariantDef>) -> (ty: String)
        ensures
            (ty@, final(self)@) == names_inserted(
                old(self)@,
                variants@.map_values(|v: VariantDef| v.ident@),
            ),
    {
        let mut idents: Vec<String> = Vec::new();
        let mut i: usize = 0;
        while i < variants.len()
            invariant
                i <= variants@.len(),
                idents@.len() == i,
                forall|k: int| 0 <= k < i ==> idents@[k]@ == variants@[k].ident@,
            decreases variants@.len() - i,
        {
            idents.push(String::from_str(variants[i].ident.as_str()));
            i = i + 1;
        }
        assert(texts(idents@) =~= variants@.map_values(|v: VariantDef| v.ident@));
        self.insert_names(&idents)
    }

    /// Declare the marker types for each of `idents`, and the one for the sequence of them.
    fn insert_names(&mut self, idents: &Vec<String>) -> (ty: String)
        ensures
            (ty@, final(self)@) == names_inserted(old(self)@, texts(idents@)),
    {
        let mut i: usize = 0;
        while i < idents.len()
            invariant
                i <= idents@.len(),
                self@ == (
                    all_names_inserted(old(self)@.0, texts(idents@).take(i as int)),
                    old(self)@.1,
                ),
            decreases idents@.len() - i,
        {
            assert(texts(idents@).take(i + 1).drop_last() =~= texts(idents@).take(i as int));
            self.insert(idents[i].as_str());
            i = i + 1;
        }
        assert(texts(idents@).take(idents@.len() as int) =~= texts(idents@));
        let next_idx = self.seq_position(idents);
        if next_idx == self.name_seqs.len() {
            let mut copy: Vec<String> = Vec::new();
            let mut j: usize = 0;
            while j < idents.len()
                invariant
                    j <= idents@.len(),
                    copy@.len() == j,
                    forall|k: int| 0 <= k < j ==> copy@[k]@ == idents@[k]@,
                decreases idents@.len() - j,
            {
                copy.push(String::from_str(idents[j].as_str()));
                j = j + 1;
            }
            assert(texts(copy@) =~= texts(idents@));
            let ghost before = self@;
            self.name_seqs.push(copy);
            assert(self@.1 =~= before.1.push(texts(idents@)));
            assert(self@.0 =~= before.0);
        }
        let mut ty = String::from_str("__SeuNames_");
        ty.append(decimal(next_idx).as_str());
        ty
    }

    /// Consumes the generator and yields the declarations required by all inserted names.
    ///
    /// The caller must include these items in the generated code; otherwise representation code
    /// that references the returned marker types will fail to compile.
    pub fn done(self, krate: &str) -> (items: Vec<String>)
        ensures
            texts(items@) == done_items(krate@, self@),
    {
        let mut items: Vec<String> = Vec::new();
        let mut i: usize = 0;
        while i < self.names.len()
            invariant
                i <= self.names@.len(),
                texts(items@) == name_items(krate@, self@.0.take(i as int)),
            decreases self.names@.len() - i,
        {
            let ident = self.names[i].as_str();
            let mut decl = String::from_str("#[automatically_derived] struct ");
            decl.append(ident);
            decl.append("Name;");
            let mut imp = String::from_str("#[automatically_derived] impl ");
            imp.append(krate);
            imp.append("::generic::names::HasName for ");
            imp.append(ident);
            imp.append("Name { const NAME: &'static str = \"");
            imp.append(ident);
            imp.append("\"; }");
            let ghost before = items@;
            items.push(decl);
            items.push(imp);
            assert(self@.0.take(i + 1).drop_last() =~= self@.0.take(i as int));
            assert(texts(items@) =~= texts(before) + seq![decl@, imp@]);
            i = i + 1;
        }
        assert(self@.0.take(self.names@.len() as int) =~= self@.0);
        let ghost named = items@;
        let mut s: usize = 0;
        while s < self.name_seqs.len()
            invariant
                s <= self.name_seqs@.len(),
                texts(named) == name_items(krate@, self@.0),
                texts(items@) == texts(named) + seq_items(krate@, self@.1.take(s as int)),
            decreases self.name_seqs@.len() - s,
        {
            let idents = &self.name_seqs[s];
            let mut refs: Vec<String> = Vec::new();
            let mut j: usize = 0;
            while j < idents.len()
                invariant
                    j <= idents@.len(),
                    refs@.len() == j,
                    forall|k: int|
                        0 <= k < j ==> refs@[k]@ == name_ref_text(krate@, idents@[k]@),
                decreases idents@.len() - j,
            {
                let mut r = String::from_str("<");
                r.append(idents[j].as_str());
                r.append("Name as ");
                r.append(krate);
                r.append("::generic::names::HasName>::NAME");
                refs.push(r);
                j = j + 1;
            }
            assert(texts(refs@) =~= name_refs(krate@, texts(idents@)));
            let mut decl = String::from_str("struct __SeuNames_");
            decl.append(decimal(s).as_str());
            decl.append(";");
            let mut imp = String::from_str("impl ");
            imp.append(krate);
            imp.append("::generic::names::HasNames for __SeuNames_");
            imp.append(decimal(s).as_str());
            imp.append(" { const NAMES: &'static [&'static str] = &[");
            imp.append(join(&refs, ", ").as_str());
            imp.append("]; }");
            let ghost before = items@;
            items.push(decl);
            items.push(imp);
            assert(self@.1.take(s + 1).drop_last() =~= self@.1.take(s as int));
            assert(self@.1[s as int] == texts(idents@));
            assert(texts(items@) =~= texts(before) + seq![decl@, imp@]);
            s = s + 1;
        }
        assert(self@.1.take(self.name_seqs@.len() as int) =~= self@.1);
        items
    }
}

} // verus!

verus! {

/// Whether no identifier and no sequence of identifiers has two marker types
pub open spec fn names_unique(g: NamesView) -> bool {
    no_duplicates(g.0) && no_duplicates(g.1)
}

/// A position of `x` in `s` that is below the length holds `x`, and no earlier position does.
pub proof fn lemma_position_of_found<A>(s: Seq<A>, x: A)
    ensures
        position_of(s, x) <= s.len(),
        position_of(s, x) < s.len() <==> s.contains(x),
        position_of(s, x) < s.len() ==> s[position_of(s, x) as int] == x,
        forall|j: int| 0 <= j < position_of(s, x) ==> s[j] != x,
    decreases s.len(),
{
    if s.len() > 0 && s[0] != x {
        lemma_position_of_found(s.drop_first(), x);
        if s.contains(x) {
            let j = choose|j: int| 0 <= j < s.len() && s[j] == x;
            assert(s.drop_first()[j - 1] == x);
        }
        if s.drop_first().contains(x) {
            let j = choose|j: int| 0 <= j < s.drop_first().len() && s.drop_first()[j] == x;
            assert(s[j + 1] == x);
        }
        assert forall|j: int| 0 <= j < position_of(s, x) implies s[j] != x by {
            if j > 0 {
                assert(s[j] == s.drop_first()[j - 1]);
            }
        }
    } else if s.len() > 0 {
        assert(s[0] == x);
    }
}

/// Appending a new item keeps a sequence without duplicates.
proof fn lemma_push_unique<A>(s: Seq<A>, x: A)
    requires
        no_duplicates(s),
        !s.contains(x),
    ensures
        no_duplicates(s.push(x)),
{
    assert forall|i: int, j: int| 0 <= i < j < s.push(x).len() implies s.push(x)[i] != s.push(
        x,
    )[j] by {
        if j == s.len() {
            assert(s[i] == s.push(x)[i]);
        }
    }
}

/// Inserting an identifier keeps each identifier with one marker type at most, and the
/// identifier has one afterwards; inserting it again changes nothing.
pub proof fn law_insert_name(names: Seq<Seq<char>>, ident: Seq<char>)
    requires
        no_duplicates(names),
    ensures
        no_duplicates(inserted_name(names, ident)),
        inserted_name(names, ident).contains(ident),
        inserted_name(inserted_name(names, ident), ident) == inserted_name(names, ident),
        forall|other: Seq<char>| #[trigger]
            names.contains(other) ==> inserted_name(names, ident).contains(other),
{
    if !names.contains(ident) {
        lemma_push_unique(names, ident);
        assert(names.push(ident)[names.len() as int] == ident);
        assert forall|other: Seq<char>| #[trigger] names.contains(other) implies names.push(
            ident,
        ).contains(other) by {
            let j = choose|j: int| 0 <= j < names.len() && names[j] == other;
            assert(names.push(ident)[j] == other);
        }
    }
}

/// Inserting identifiers one by one keeps each identifier with one marker type at most, and
/// every inserted identifier has one afterwards.
pub proof fn law_insert_all_names(names: Seq<Seq<char>>, idents: Seq<Seq<char>>)
    requires
        no_duplicates(names),
    ensures
        no_duplicates(all_names_inserted(names, idents)),
        forall|i: int| #![trigger idents[i]]
            0 <= i < idents.len() ==> all_names_inserted(names, idents).contains(idents[i]),
        forall|other: Seq<char>| #[trigger]
            names.contains(other) ==> all_names_inserted(names, idents).contains(other),
    decreases idents.len(),
{
    if idents.len() > 0 {
        let before = all_names_inserted(names, idents.drop_last());
        law_insert_all_names(names, idents.drop_last());
        law_insert_name(before, idents.last());
        assert forall|i: int| #![trigger idents[i]] 0 <= i < idents.len() implies all_names_inserted(
            names,
            idents,
        ).contains(idents[i]) by {
            if i < idents.len() - 1 {
                assert(idents.drop_last()[i] == idents[i]);
            }
        }
    }
}

/// Declaring the names of a sequence of identifiers keeps every identifier and every sequence
/// with one marker type at most; the marker type returned is that of the sequence, and declaring
/// the same sequence again returns the same marker type and changes nothing.
pub proof fn law_names_inserted(g: NamesView, idents: Seq<Seq<char>>)
    requires
        names_unique(g),
    ensures
        names_unique(names_inserted(g, idents).1),
        ({
            let (ty, g1) = names_inserted(g, idents);
            let idx = position_of(g1.1, idents);
            &&& idx < g1.1.len()
            &&& g1.1[idx as int] == idents
            &&& ty == seq_type_text(idx)
            &&& names_inserted(g1, idents) == (ty, g1)
        }),
{
    let (ty, g1) = names_inserted(g, idents);
    law_insert_all_names(g.0, idents);
    lemma_position_of_found(g.1, idents);
    if position_of(g.1, idents) == g.1.len() {
        lemma_push_unique(g.1, idents);
        assert(g1.1[g.1.len() as int] == idents);
        assert forall|j: int| 0 <= j < g.1.len() implies g1.1[j] != idents by {
            assert(g1.1[j] == g.1[j]);
        }
        lemma_position_of(g1.1, idents, g.1.len() as int);
    }
    lemma_position_of_found(g1.1, idents);
    assert(all_names_inserted(g1.0, idents) == g1.0) by {
        lemma_insert_present(g1.0, idents);
    }
}

/// Inserting identifiers that are all present already changes nothing.
pub proof fn lemma_insert_present(names: Seq<Seq<char>>, idents: Seq<Seq<char>>)
    requires
        forall|i: int| #![trigger idents[i]] 0 <= i < idents.len() ==> names.contains(idents[i]),
    ensures
        all_names_inserted(names, idents) == names,
    decreases idents.len(),
{
    if idents.len() > 0 {
        assert forall|i: int| #![trigger idents.drop_last()[i]]
            0 <= i < idents.drop_last().len() implies names.contains(idents.drop_last()[i]) by {
            assert(idents.drop_last()[i] == idents[i]);
        }
        lemma_insert_present(names, idents.drop_last());
        assert(names.contains(idents[idents.len() - 1]));
    }
}

} // verus!
