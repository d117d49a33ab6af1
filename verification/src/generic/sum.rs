use vstd::prelude::*;
use core::mem::ManuallyDrop;

use crate::generic::nums::Index;
use crate::generic::product::Cons;
use crate::generic::product::ConsRepr;
use crate::generic::product::Nil;
use crate::generic::product::NilRepr;
use crate::generic::product::Product;
use crate::generic::untagged_sum::UnionFields;
use crate::generic::untagged_sum::UntaggedSum;

verus! {

/// Mark a product as containing only variant information
pub trait SumVariants: UnionFields {

}

impl SumVariants for Nil {

}

impl<Head, Tail: SumVariants> SumVariants for Cons<Head, Tail> {

}

/// Tagged union type
///
/// A sum holds exactly one of its variants; which one is known from the type-level index it was
/// built with.
pub struct Sum<Variants: SumVariants> {
    untagged_sum: UntaggedSum<Variants>,
}

impl<Variants: SumVariants> Sum<Variants> {
    #[verifier::type_invariant]
    spec fn holds_variant(self) -> bool {
        Variants::repr_valid(self.untagged_sum.repr())
    }

    /// The union value this sum holds: the active variant and its data
    pub closed spec fn repr(self) -> Variants::UnionRepr {
        self.untagged_sum.repr()
    }

    /// Position of the active variant
    pub open spec fn index(self) -> nat {
        Variants::repr_index(self.repr())
    }

    /// Construct the sum as the provided variant.
    ///
    /// `Idx` identifies the variant.
    #[inline]
    pub fn new<Idx: Index<Variants>>(index: Idx, data: Idx::Selected) -> (sum: Self)
        ensures
            sum.repr() == Idx::spec_inject(data),
            sum.index() == Idx::spec_num(),
            Idx::spec_project(sum.repr()) == Some(data),
    {
        proof {
            Idx::lemma_inject(data);
        }
        let data = ManuallyDrop::new(data);
        let untagged_sum = UntaggedSum::new(index, data);
        Self { untagged_sum }
    }

    /// Borrow the union value this sum holds.
    pub fn repr_ref(&self) -> (repr: &Variants::UnionRepr)
        ensures
            *repr == self.repr(),
            Variants::repr_valid(*repr),
    {
        proof {
            use_type_invariant(self);
        }
        self.untagged_sum.repr_ref()
    }

    /// Consume the sum using the corresponding handler from `handlers`.
    #[inline]
    pub fn reduce<Output, Handlers>(self, handlers: Handlers) -> (out: Output) where
        Handlers: Reducer<Variants, Output>,

        requires
            handlers.can_reduce(self.repr()),
        ensures
            handlers.reduces_to(self.repr(), out),
    {
        let Sum { untagged_sum } = self;
        handlers.reduce(untagged_sum.into_repr())
    }

    /// Call the appropriate handler from `handlers` using the variant data in this sum.
    #[inline]
    pub fn reduce_ref<'a, Output, Handlers>(&'a self, handlers: Handlers) -> (out: Output) where
        Handlers: ReducerRef<'a, Variants, Output>,

        requires
            handlers.can_reduce_ref(self.repr()),
        ensures
            handlers.reduces_ref_to(self.repr(), out),
    {
        handlers.reduce_ref(self.untagged_sum.repr_ref())
    }
}

/// Product that consists of functions which can be applied to the variants of a [`Sum`]
///
/// The handler at each position takes the data of the variant at the same position.
pub trait Reducer<Variants: SumVariants, Output>: Product {
    /// Whether the handler for the variant that `repr` holds accepts its data
    spec fn can_reduce(self, repr: Variants::UnionRepr) -> bool;

    /// Whether `out` is a possible result of the handler for the variant that `repr` holds,
    /// applied to its data
    spec fn reduces_to(self, repr: Variants::UnionRepr, out: Output) -> bool;

    /// Apply the handler for the variant that `repr` holds to its data.
    fn reduce(self, repr: Variants::UnionRepr) -> (out: Output)
        requires
            self.can_reduce(repr),
        ensures
            self.reduces_to(repr, out),
    ;
}

impl<Output> Reducer<Nil, Output> for Nil {
    open spec fn can_reduce(self, repr: NilRepr) -> bool {
        false
    }

    open spec fn reduces_to(self, repr: NilRepr, out: Output) -> bool {
        true
    }

    #[inline]
    fn reduce(self, repr: NilRepr) -> (out: Output) {
        loop
            invariant
                <Nil as Reducer<Nil, Output>>::can_reduce(self, repr),
            decreases 0nat,
        {
        }
    }
}

impl<HeadDisc, TailDisc, HeadHandler, TailHandler, Output> Reducer<
    Cons<HeadDisc, TailDisc>,
    Output,
> for Cons<HeadHandler, TailHandler> where
    TailDisc: SumVariants,
    HeadHandler: FnOnce(HeadDisc) -> Output,
    TailHandler: Reducer<TailDisc, Output>,
 {
    open spec fn can_reduce(self, repr: ConsRepr<HeadDisc, TailDisc>) -> bool {
        match repr {
            ConsRepr::Head(head) => call_requires(self.0, (head,)),
            ConsRepr::Tail(tail) => self.1.can_reduce(tail),
        }
    }

    open spec fn reduces_to(self, repr: ConsRepr<HeadDisc, TailDisc>, out: Output) -> bool {
        match repr {
            ConsRepr::Head(head) => call_ensures(self.0, (head,), out),
            ConsRepr::Tail(tail) => self.1.reduces_to(tail, out),
        }
    }

    #[inline]
    fn reduce(self, repr: ConsRepr<HeadDisc, TailDisc>) -> (out: Output) {
        match repr {
            ConsRepr::Head(head) => (self.0)(head),
            ConsRepr::Tail(tail) => self.1.reduce(tail),
        }
    }
}

/// Like [`Reducer`] but borrows the [`Sum`] variant instead
pub trait ReducerRef<'a, Variants: SumVariants, Output>: Product {
    /// Whether the handler for the variant that `repr` holds accepts a reference to its data
    spec fn can_reduce_ref(self, repr: Variants::UnionRepr) -> bool;

    /// Whether `out` is a possible result of the handler for the variant that `repr` holds,
    /// applied to a reference to its data
    spec fn reduces_ref_to(self, repr: Variants::UnionRepr, out: Output) -> bool;

    /// Apply the handler for the variant that `repr` holds to a reference to its data.
    fn reduce_ref(self, repr: &'a Variants::UnionRepr) -> (out: Output)
        requires
            self.can_reduce_ref(*repr),
        ensures
            self.reduces_ref_to(*repr, out),
    ;
}

/// What a product of handlers with a function at its head does with a union value: where the
/// value holds the head variant, the head function takes its data, and its results are the
/// results; otherwise the tail of the handlers takes the rest of the value.
///
/// This states the definitions of `can_reduce` and `reduces_to` for such a product, for callers
/// whose handlers are functions or closures of a known type.
pub proof fn lemma_cons_reduce<HeadDisc, TailDisc, HeadHandler, TailHandler, Output>(
    handlers: Cons<HeadHandler, TailHandler>,
    repr: ConsRepr<HeadDisc, TailDisc>,
    out: Output,
) where
    TailDisc: SumVariants,
    HeadHandler: FnOnce(HeadDisc) -> Output,
    TailHandler: Reducer<TailDisc, Output>,

    ensures
        handlers.can_reduce(repr) == match repr {
            ConsRepr::Head(head) => call_requires(handlers.0, (head,)),
            ConsRepr::Tail(tail) => handlers.1.can_reduce(tail),
        },
        handlers.reduces_to(repr, out) == match repr {
            ConsRepr::Head(head) => call_ensures(handlers.0, (head,), out),
            ConsRepr::Tail(tail) => handlers.1.reduces_to(tail, out),
        },
{
}

impl<'a, Output> ReducerRef<'a, Nil, Output> for Nil {
    open spec fn can_reduce_ref(self, repr: NilRepr) -> bool {
        false
    }

    open spec fn reduces_ref_to(self, repr: NilRepr, out: Output) -> bool {
        true
    }

    #[inline]
    fn reduce_ref(self, repr: &'a NilRepr) -> (out: Output) {
        loop
            invariant
                <Nil as ReducerRef<'a, Nil, Output>>::can_reduce_ref(self, *repr),
            decreases 0nat,
        {
        }
    }
}

impl<'a, HeadDisc, TailDisc, Head, Tail, Output> ReducerRef<
    'a,
    Cons<HeadDisc, TailDisc>,
    Output,
> for Cons<Head, Tail> where
    HeadDisc: 'a,
    TailDisc: SumVariants,
    Head: FnOnce(&'a HeadDisc) -> Output,
    Tail: ReducerRef<'a, TailDisc, Output>,
 {
    open spec fn can_reduce_ref(self, repr: ConsRepr<HeadDisc, TailDisc>) -> bool {
        match repr {
            ConsRepr::Head(head) => call_requires(self.0, (&head,)),
            ConsRepr::Tail(tail) => self.1.can_reduce_ref(tail),
        }
    }

    open spec fn reduces_ref_to(self, repr: ConsRepr<HeadDisc, TailDisc>, out: Output) -> bool {
        match repr {
            ConsRepr::Head(head) => call_ensures(self.0, (&head,), out),
            ConsRepr::Tail(tail) => self.1.reduces_ref_to(tail, out),
        }
    }

    #[inline]
    fn reduce_ref(self, repr: &'a ConsRepr<HeadDisc, TailDisc>) -> (out: Output) {
        match repr {
            ConsRepr::Head(head) => (self.0)(head),
            ConsRepr::Tail(tail) => self.1.reduce_ref(tail),
        }
    }
}

/// What a product of handlers with a function at its head does with a reference to a union
/// value: where the value holds the head variant, the head function takes a reference to its
/// data, and its results are the results; otherwise the tail of the handlers takes the rest of
/// the value.
///
/// This states the definitions of `can_reduce_ref` and `reduces_ref_to` for such a product, for
/// callers whose handlers are functions or closures of a known type.
pub proof fn lemma_cons_reduce_ref<'a, HeadDisc, TailDisc, Head, Tail, Output>(
    handlers: Cons<Head, Tail>,
    repr: ConsRepr<HeadDisc, TailDisc>,
    out: Output,
) where
    HeadDisc: 'a,
    TailDisc: SumVariants,
    Head: FnOnce(&'a HeadDisc) -> Output,
    Tail: ReducerRef<'a, TailDisc, Output>,

    ensures
        handlers.can_reduce_ref(repr) == match repr {
            ConsRepr::Head(head) => call_requires(handlers.0, (&head,)),
            ConsRepr::Tail(tail) => handlers.1.can_reduce_ref(tail),
        },
        handlers.reduces_ref_to(repr, out) == match repr {
            ConsRepr::Head(head) => call_ensures(handlers.0, (&head,), out),
            ConsRepr::Tail(tail) => handlers.1.reduces_ref_to(tail, out),
        },
{
}

} // verus!
