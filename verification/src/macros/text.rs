use vstd::prelude::*;

use crate::serde::value::str_eq;

verus! {

/// The text of each string
pub open spec fn texts(items: Seq<String>) -> Seq<Seq<char>> {
    items.map_values(|s: String| s@)
}

/// The text of a string, if there is one
pub open spec fn opt_text(s: Option<&str>) -> Option<Seq<char>> {
    match s {
        Some(s) => Some(s@),
        None => None,
    }
}

/// `items` one after another, with `sep` between each two
pub open spec fn joined_text(items: Seq<Seq<char>>, sep: Seq<char>) -> Seq<char>
    decreases items.len(),
{
    if items.len() == 0 {
        Seq::empty()
    } else if items.len() == 1 {
        items[0]
    } else {
        joined_text(items.drop_last(), sep) + sep + items.last()
    }
}

/// `items` one after another, each followed by `suffix`
pub open spec fn suffixed_text(items: Seq<Seq<char>>, suffix: Seq<char>) -> Seq<char>
    decreases items.len(),
{
    if items.len() == 0 {
        Seq::empty()
    } else {
        suffixed_text(items.drop_last(), suffix) + items.last() + suffix
    }
}

/// Join `items` with `sep` between each two.
pub fn join(items: &Vec<String>, sep: &str) -> (text: String)
    ensures
        text@ == joined_text(texts(items@), sep@),
{
    let mut text = String::new();
    let mut i: usize = 0;
    while i < items.len()
        invariant
            i <= items.len(),
            text@ == joined_text(texts(items@).take(i as int), sep@),
        decreases items.len() - i,
    {
        assert(texts(items@).take(i + 1).drop_last() =~= texts(items@).take(i as int));
        if i > 0 {
            text.append(sep);
        }
        text.append(items[i].as_str());
        i = i + 1;
    }
    assert(texts(items@).take(items.len() as int) =~= texts(items@));
    text
}

/// Concatenate `items`, each followed by `suffix`.
pub fn concat_suffixed(items: &Vec<String>, suffix: &str) -> (text: String)
    ensures
        text@ == suffixed_text(texts(items@), suffix@),
{
    let mut text = String::new();
    let mut i: usize = 0;
    while i < items.len()
        invariant
            i <= items.len(),
            text@ == suffixed_text(texts(items@).take(i as int), suffix@),
        decreases items.len() - i,
    {
        assert(texts(items@).take(i + 1).drop_last() =~= texts(items@).take(i as int));
        text.append(items[i].as_str());
        text.append(suffix);
        i = i + 1;
    }
    assert(texts(items@).take(items.len() as int) =~= texts(items@));
    text
}

/// Whether two lists of strings hold the same texts.
pub fn strings_eq(a: &Vec<String>, b: &Vec<String>) -> (eq: bool)
    ensures
        eq == (texts(a@) == texts(b@)),
{
    if a.len() != b.len() {
        assert(texts(a@).len() != texts(b@).len());
        return false;
    }
    let mut i: usize = 0;
    while i < a.len()
        invariant
            a@.len() == b@.len(),
            i <= a@.len(),
            forall|j: int| 0 <= j < i ==> a@[j]@ == b@[j]@,
        decreases a@.len() - i,
    {
        if !str_eq(a[i].as_str(), b[i].as_str()) {
            assert(texts(a@)[i as int] != texts(b@)[i as int]);
            return false;
        }
        i = i + 1;
    }
    assert(texts(a@) =~= texts(b@));
    true
}

} // verus!
