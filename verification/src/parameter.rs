use vstd::prelude::*;

verus! {

/// One member of a fixed, closed set of tagged values: one tag per field of
/// the shared content, each tag carrying that field's value type.
///
/// Every tag maps to a dense, stable ordinal in `[0, N)` where `N` is the
/// number of fields; the payload never influences the ordinal, so a tag
/// constructed with any payload selects the same field.
pub trait DatabaseParameter: Sized + Clone + Copy {
    /// The dense ordinal of the field this tagged value belongs to.
    spec fn ordinal(&self) -> int;

    /// Look up the ordinal of this tagged value.
    fn ordinal_index(&self) -> (index: usize)
        ensures
            index as int == self.ordinal(),
    ;

    /// Decide whether two tagged values are equal, payload included.
    fn same_value(&self, other: &Self) -> (r: bool)
        ensures
            r == (*self == *other),
    ;
}

} // verus!
