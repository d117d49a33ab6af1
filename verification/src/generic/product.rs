use vstd::prelude::*;

verus! {

/// Product type: a type-level list built from [`Nil`] and [`Cons`].
///
/// Every product also describes the union of its item types (`UnionRepr`): a value of the union
/// holds exactly one of the items, identified by its position in the product.
pub trait Product {
    /// Number of items in the product
    const LEN: usize;

    /// Number of items in the product, as a mathematical number
    spec fn spec_len() -> nat;

    /// Union of the item types of this product
    type UnionRepr;

    /// Whether `repr` holds one of the items (the union of the empty product holds none).
    spec fn repr_valid(repr: Self::UnionRepr) -> bool;

    /// Position of the item that `repr` holds
    spec fn repr_index(repr: Self::UnionRepr) -> nat;

    /// Every valid union value holds an item at a position below the product's length.
    proof fn lemma_repr_index_bound(repr: Self::UnionRepr)
        requires
            Self::repr_valid(repr),
        ensures
            Self::repr_index(repr) < Self::spec_len(),
    ;
}

/// Empty product
pub struct Nil;

/// The union of the empty product: it holds no item.
pub struct NilRepr;

impl Product for Nil {
    const LEN: usize = 0;

    open spec fn spec_len() -> nat {
        0
    }

    type UnionRepr = NilRepr;

    open spec fn repr_valid(repr: NilRepr) -> bool {
        false
    }

    open spec fn repr_index(repr: NilRepr) -> nat {
        0
    }

    proof fn lemma_repr_index_bound(repr: NilRepr) {
    }
}

/// Prepend a head item onto a product tail
pub struct Cons<Head, Tail: Product>(pub Head, pub Tail);

/// The union of a non-empty product: either its head item or an item of its tail.
pub enum ConsRepr<Head, Tail: Product> {
    Head(Head),
    Tail(Tail::UnionRepr),
}

impl<Head, Tail: Product> Product for Cons<Head, Tail> {
    const LEN: usize = 1 + Tail::LEN;

    open spec fn spec_len() -> nat {
        1 + Tail::spec_len()
    }

    type UnionRepr = ConsRepr<Head, Tail>;

    open spec fn repr_valid(repr: ConsRepr<Head, Tail>) -> bool {
        match repr {
            ConsRepr::Head(_) => true,
            ConsRepr::Tail(tail) => Tail::repr_valid(tail),
        }
    }

    open spec fn repr_index(repr: ConsRepr<Head, Tail>) -> nat {
        match repr {
            ConsRepr::Head(_) => 0,
            ConsRepr::Tail(tail) => 1 + Tail::repr_index(tail),
        }
    }

    proof fn lemma_repr_index_bound(repr: ConsRepr<Head, Tail>) {
        match repr {
            ConsRepr::Head(_) => {},
            ConsRepr::Tail(tail) => {
                Tail::lemma_repr_index_bound(tail);
            },
        }
    }
}

} // verus!
