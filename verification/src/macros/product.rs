use vstd::prelude::*;

use crate::macros::text::texts;

verus! {

/// Source text of the empty product, in the crate at path `k`
pub open spec fn nil_text(k: Seq<char>) -> Seq<char> {
    k + "::generic::product::Nil"@
}

/// Source text of the product type with `head` in front of `tail`
pub open spec fn cons_type_text(k: Seq<char>, head: Seq<char>, tail: Seq<char>) -> Seq<char> {
    k + "::generic::product::Cons<"@ + head + ", "@ + tail + ">"@
}

/// Source text of the product term (expression or pattern) with `head` in front of `tail`
pub open spec fn cons_term_text(k: Seq<char>, head: Seq<char>, tail: Seq<char>) -> Seq<char> {
    k + "::generic::product::Cons("@ + head + ", "@ + tail + ")"@
}

/// Source text of the product type of `items`, first item outermost
pub open spec fn product_type_text(k: Seq<char>, items: Seq<Seq<char>>) -> Seq<char>
    decreases items.len(),
{
    if items.len() == 0 {
        nil_text(k)
    } else {
        cons_type_text(k, items[0], product_type_text(k, items.drop_first()))
    }
}

/// Source text of the product term (expression or pattern) of `items`, first item outermost
pub open spec fn product_term_text(k: Seq<char>, items: Seq<Seq<char>>) -> Seq<char>
    decreases items.len(),
{
    if items.len() == 0 {
        nil_text(k)
    } else {
        cons_term_text(k, items[0], product_term_text(k, items.drop_first()))
    }
}

/// The empty product in the crate at path `krate`.
pub fn nil(krate: &str) -> (text: String)
    ensures
        text@ == nil_text(krate@),
{
    let mut text = String::from_str(krate);
    text.append("::generic::product::Nil");
    text
}

/// The product type with `head` in front of `tail`.
pub fn cons_ty(krate: &str, head: &str, tail: &str) -> (text: String)
    ensures
        text@ == cons_type_text(krate@, head@, tail@),
{
    let mut text = String::from_str(krate);
    text.append("::generic::product::Cons<");
    text.append(head);
    text.append(", ");
    text.append(tail);
    text.append(">");
    text
}

/// The product term (expression or pattern) with `head` in front of `tail`.
pub fn cons_term(krate: &str, head: &str, tail: &str) -> (text: String)
    ensures
        text@ == cons_term_text(krate@, head@, tail@),
{
    let mut text = String::from_str(krate);
    text.append("::generic::product::Cons(");
    text.append(head);
    text.append(", ");
    text.append(tail);
    text.append(")");
    text
}

/// Dropping the first of the items from `i` on leaves the items from `i + 1` on.
pub proof fn lemma_suffix_drop_first<A>(items: Seq<A>, i: int)
    requires
        0 <= i < items.len(),
    ensures
        items.subrange(i, items.len() as int).drop_first() == items.subrange(
            i + 1,
            items.len() as int,
        ),
        items.subrange(i, items.len() as int)[0] == items[i],
{
    assert(items.subrange(i, items.len() as int).drop_first() =~= items.subrange(
        i + 1,
        items.len() as int,
    ));
}

/// Construct a product type from the given types.
pub fn product_ty(krate: &str, items: &Vec<String>) -> (ty: String)
    ensures
        ty@ == product_type_text(krate@, texts(items@)),
{
    let mut ty = nil(krate);
    let mut i = items.len();
    while i > 0
        invariant
            i <= items.len(),
            ty@ == product_type_text(krate@, texts(items@).subrange(i as int, items.len() as int)),
        decreases i,
    {
        i = i - 1;
        proof {
            lemma_suffix_drop_first(texts(items@), i as int);
        }
        ty = cons_ty(krate, items[i].as_str(), ty.as_str());
    }
    assert(texts(items@).subrange(0, items.len() as int) =~= texts(items@));
    ty
}

/// Construct a term-level product from the given expressions.
pub fn product_expr(krate: &str, items: &Vec<String>) -> (expr: String)
    ensures
        expr@ == product_term_text(krate@, texts(items@)),
{
    let mut expr = nil(krate);
    let mut i = items.len();
    while i > 0
        invariant
            i <= items.len(),
            expr@ == product_term_text(krate@, texts(items@).subrange(i as int, items.len() as int)),
        decreases i,
    {
        i = i - 1;
        proof {
            lemma_suffix_drop_first(texts(items@), i as int);
        }
        expr = cons_term(krate, items[i].as_str(), expr.as_str());
    }
    assert(texts(items@).subrange(0, items.len() as int) =~= texts(items@));
    expr
}

/// Construct a product pattern from the given patterns.
///
/// Product patterns are written as product terms.
pub fn product_pat(krate: &str, items: &Vec<String>) -> (pat: String)
    ensures
        pat@ == product_term_text(krate@, texts(items@)),
{
    product_expr(krate, items)
}

} // verus!
