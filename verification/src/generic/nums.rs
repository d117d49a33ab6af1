use vstd::prelude::*;

use crate::generic::product::Cons;
use crate::generic::product::ConsRepr;
use crate::generic::product::Product;

verus! {

/// Marker trait for type-level Peano numbers
pub trait Num: Default {
    /// Runtime value for this type-level number
    const NUM: usize;

    /// Value of this type-level number, as a mathematical number
    spec fn spec_num() -> nat;

    /// The runtime value is the mathematical value, for every number that fits in `usize`.
    proof fn lemma_num()
        requires
            Self::spec_num() <= usize::MAX,
        ensures
            Self::NUM == Self::spec_num(),
    ;
}

/// Helper trait for indexing into a product using a type-level number
///
/// The selected position is `spec_num()`: the item at that position in a product, and the
/// variant at that position in the product's union.
pub trait Index<Prod: Product>: Num {
    /// Type at the selected index
    type Selected;

    /// The item of `subject` at the selected index
    spec fn spec_select(subject: Prod) -> Self::Selected;

    /// `subject` with the item at the selected index replaced by `item`
    spec fn spec_replace(subject: Prod, item: Self::Selected) -> Prod;

    /// The union value that holds `item` at the selected index
    spec fn spec_inject(item: Self::Selected) -> Prod::UnionRepr;

    /// The item that `repr` holds, if it holds one at the selected index
    spec fn spec_project(repr: Prod::UnionRepr) -> Option<Self::Selected>;

    /// Replacing the selected item by itself changes nothing, and the replaced item is selected
    /// afterwards.
    proof fn lemma_replace(subject: Prod, item: Self::Selected)
        ensures
            Self::spec_replace(subject, Self::spec_select(subject)) == subject,
            Self::spec_select(Self::spec_replace(subject, item)) == item,
    ;

    /// A union value built from an item holds that item, at the selected index.
    proof fn lemma_inject(item: Self::Selected)
        ensures
            Prod::repr_valid(Self::spec_inject(item)),
            Prod::repr_index(Self::spec_inject(item)) == Self::spec_num(),
            Self::spec_project(Self::spec_inject(item)) == Some(item),
    ;

    /// A valid union value holds an item at the selected index exactly when its position is the
    /// selected index, and it is then the value built from that item.
    proof fn lemma_project(repr: Prod::UnionRepr)
        requires
            Prod::repr_valid(repr),
        ensures
            Self::spec_project(repr) is Some <==> Prod::repr_index(repr) == Self::spec_num(),
            Self::spec_project(repr) matches Some(item) ==> repr == Self::spec_inject(item),
    ;

    /// Extract only the item at the selected index.
    fn into_selected(self, subject: Prod) -> (item: Self::Selected)
        ensures
            item == Self::spec_select(subject),
    ;

    /// Borrow the item at the selected index.
    fn selected_ref<'a>(&self, subject: &'a Prod) -> (item: &'a Self::Selected)
        ensures
            *item == Self::spec_select(*subject),
    ;

    /// Mutably borrow the item at the selected index.
    fn selected_mut<'a>(&mut self, subject: &'a mut Prod) -> (item: &'a mut Self::Selected)
        ensures
            *item == Self::spec_select(*old(subject)),
            *final(subject) == Self::spec_replace(*old(subject), *final(item)),
    ;

    /// Build the union value that holds `item` at the selected index.
    fn inject(item: Self::Selected) -> (repr: Prod::UnionRepr)
        ensures
            repr == Self::spec_inject(item),
    ;

    /// Extract the item that `repr` holds at the selected index.
    fn project_into(repr: Prod::UnionRepr) -> (item: Self::Selected)
        requires
            Self::spec_project(repr) is Some,
        ensures
            Self::spec_project(repr) == Some(item),
    ;

    /// Borrow the item that `repr` holds at the selected index.
    fn project_ref<'a>(repr: &'a Prod::UnionRepr) -> (item: &'a Self::Selected)
        requires
            Self::spec_project(*repr) is Some,
        ensures
            Self::spec_project(*repr) == Some(*item),
    ;

    /// Mutably borrow the item that `repr` holds at the selected index.
    fn project_mut<'a>(repr: &'a mut Prod::UnionRepr) -> (item: &'a mut Self::Selected)
        requires
            Self::spec_project(*old(repr)) is Some,
        ensures
            Self::spec_project(*old(repr)) == Some(*item),
            *final(repr) == Self::spec_inject(*final(item)),
    ;
}

/// `0`
pub struct Zero;

impl Default for Zero {
    fn default() -> (r: Self)
        ensures
            r == Zero,
    {
        Zero
    }
}

impl Num for Zero {
    const NUM: usize = 0;

    open spec fn spec_num() -> nat {
        0
    }

    proof fn lemma_num() {
    }
}

impl<Head, Tail: Product> Index<Cons<Head, Tail>> for Zero {
    type Selected = Head;

    open spec fn spec_select(subject: Cons<Head, Tail>) -> Head {
        subject.0
    }

    open spec fn spec_replace(subject: Cons<Head, Tail>, item: Head) -> Cons<Head, Tail> {
        Cons(item, subject.1)
    }

    open spec fn spec_inject(item: Head) -> ConsRepr<Head, Tail> {
        ConsRepr::Head(item)
    }

    open spec fn spec_project(repr: ConsRepr<Head, Tail>) -> Option<Head> {
        match repr {
            ConsRepr::Head(item) => Some(item),
            ConsRepr::Tail(_) => None,
        }
    }

    proof fn lemma_replace(subject: Cons<Head, Tail>, item: Head) {
    }

    proof fn lemma_inject(item: Head) {
    }

    proof fn lemma_project(repr: ConsRepr<Head, Tail>) {
    }

    #[inline(always)]
    fn into_selected(self, subject: Cons<Head, Tail>) -> (item: Head) {
        subject.0
    }

    #[inline(always)]
    fn selected_ref<'a>(&self, subject: &'a Cons<Head, Tail>) -> (item: &'a Head) {
        &subject.0
    }

    #[inline(always)]
    fn selected_mut<'a>(&mut self, subject: &'a mut Cons<Head, Tail>) -> (item: &'a mut Head) {
        &mut subject.0
    }

    fn inject(item: Head) -> (repr: ConsRepr<Head, Tail>) {
        ConsRepr::Head(item)
    }

    fn project_into(repr: ConsRepr<Head, Tail>) -> (item: Head) {
        match repr {
            ConsRepr::Head(item) => item,
            ConsRepr::Tail(_) => {
                loop
                    invariant
                        Self::spec_project(repr) is Some,
                        repr is Tail,
                    decreases 0nat,
                {
                }
            },
        }
    }

    fn project_ref<'a>(repr: &'a ConsRepr<Head, Tail>) -> (item: &'a Head) {
        match repr {
            ConsRepr::Head(item) => item,
            ConsRepr::Tail(_) => {
                loop
                    invariant
                        Self::spec_project(*repr) is Some,
                        *repr is Tail,
                    decreases 0nat,
                {
                }
            },
        }
    }

    fn project_mut<'a>(repr: &'a mut ConsRepr<Head, Tail>) -> (item: &'a mut Head) {
        match repr {
            ConsRepr::Head(item) => item,
            ConsRepr::Tail(_) => {
                loop
                    invariant
                        Self::spec_project(*old(repr)) is Some,
                        *old(repr) is Tail,
                    decreases 0nat,
                {
                }
            },
        }
    }
}

/// `1 + Pred`
pub struct Succ<Pred: Num>(pub Pred);

impl<Pred: Num> Default for Succ<Pred> {
    fn default() -> (r: Self) {
        Succ(Pred::default())
    }
}

impl<Pred: Num> Num for Succ<Pred> {
    const NUM: usize = 1 + Pred::NUM;

    open spec fn spec_num() -> nat {
        1 + Pred::spec_num()
    }

    proof fn lemma_num() {
        Pred::lemma_num();
    }
}

impl<Pred, Head, Tail> Index<Cons<Head, Tail>> for Succ<Pred> where
    Pred: Index<Tail>,
    Tail: Product,
 {
    type Selected = <Pred as Index<Tail>>::Selected;

    open spec fn spec_select(subject: Cons<Head, Tail>) -> Self::Selected {
        Pred::spec_select(subject.1)
    }

    open spec fn spec_replace(subject: Cons<Head, Tail>, item: Self::Selected) -> Cons<
        Head,
        Tail,
    > {
        Cons(subject.0, Pred::spec_replace(subject.1, item))
    }

    open spec fn spec_inject(item: Self::Selected) -> ConsRepr<Head, Tail> {
        ConsRepr::Tail(Pred::spec_inject(item))
    }

    open spec fn spec_project(repr: ConsRepr<Head, Tail>) -> Option<Self::Selected> {
        match repr {
            ConsRepr::Head(_) => None,
            ConsRepr::Tail(tail) => Pred::spec_project(tail),
        }
    }

    proof fn lemma_replace(subject: Cons<Head, Tail>, item: Self::Selected) {
        Pred::lemma_replace(subject.1, item);
    }

    proof fn lemma_inject(item: Self::Selected) {
        Pred::lemma_inject(item);
    }

    proof fn lemma_project(repr: ConsRepr<Head, Tail>) {
        match repr {
            ConsRepr::Head(_) => {},
            ConsRepr::Tail(tail) => {
                Pred::lemma_project(tail);
            },
        }
    }

    #[inline(always)]
    fn into_selected(self, subject: Cons<Head, Tail>) -> (item: Self::Selected) {
        self.0.into_selected(subject.1)
    }

    #[inline(always)]
    fn selected_ref<'a>(&self, subject: &'a Cons<Head, Tail>) -> (item: &'a Self::Selected) {
        self.0.selected_ref(&subject.1)
    }

    #[inline(always)]
    fn selected_mut<'a>(&mut self, subject: &'a mut Cons<Head, Tail>) -> (item:
        &'a mut Self::Selected) {
        self.0.selected_mut(&mut subject.1)
    }

    fn inject(item: Self::Selected) -> (repr: ConsRepr<Head, Tail>) {
        ConsRepr::Tail(Pred::inject(item))
    }

    fn project_into(repr: ConsRepr<Head, Tail>) -> (item: Self::Selected) {
        match repr {
            ConsRepr::Tail(tail) => Pred::project_into(tail),
            ConsRepr::Head(_) => {
                loop
                    invariant
                        Self::spec_project(repr) is Some,
                        repr is Head,
                    decreases 0nat,
                {
                }
            },
        }
    }

    fn project_ref<'a>(repr: &'a ConsRepr<Head, Tail>) -> (item: &'a Self::Selected) {
        match repr {
            ConsRepr::Tail(tail) => Pred::project_ref(tail),
            ConsRepr::Head(_) => {
                loop
                    invariant
                        Self::spec_project(*repr) is Some,
                        *repr is Head,
                    decreases 0nat,
                {
                }
            },
        }
    }

    fn project_mut<'a>(repr: &'a mut ConsRepr<Head, Tail>) -> (item:
        &'a mut Self::Selected) {
        match repr {
            ConsRepr::Tail(tail) => Pred::project_mut(tail),
            ConsRepr::Head(_) => {
                loop
                    invariant
                        Self::spec_project(*old(repr)) is Some,
                        *old(repr) is Head,
                    decreases 0nat,
                {
                }
            },
        }
    }
}

} // verus!
