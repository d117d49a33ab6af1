use vstd::prelude::*;

verus! {

/// Types that represent a name (e.g. of a field, variant)
pub trait HasName: HasOptionalName {
    const NAME: &'static str;
}

/// Types that represent an optional name
pub trait HasOptionalName {
    /// The name, if there is one
    spec fn spec_opt_name() -> Option<&'static str>;

    /// The name, if there is one
    fn opt_name() -> (name: Option<&'static str>)
        ensures
            name == Self::spec_opt_name(),
    ;
}

impl<T: HasName> HasOptionalName for T {
    open spec fn spec_opt_name() -> Option<&'static str> {
        Some(T::NAME)
    }

    fn opt_name() -> (name: Option<&'static str>) {
        Some(T::NAME)
    }
}

/// Marker for named things (e.g. fields of a struct)
pub struct Named<Name: HasName>(pub Name);

impl<Name: HasName> HasName for Named<Name> {
    const NAME: &'static str = Name::NAME;
}

/// Marker for unnamed things (e.g. fields of a tuple struct or variant)
pub struct Unnamed;

impl HasOptionalName for Unnamed {
    open spec fn spec_opt_name() -> Option<&'static str> {
        None
    }

    fn opt_name() -> (name: Option<&'static str>) {
        None
    }
}

/// Something that contains a sequence of names
pub trait HasNames {
    const NAMES: &'static [&'static str];
}

} // verus!
