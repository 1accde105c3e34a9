use vstd::prelude::*;

use crate::parameter::DatabaseParameter;

verus! {

/// The `DatabaseContent` is a structure containing all parameters in the
/// database: the current value of every field, one field per ordinal.
///
/// An implementation is total and variant-preserving over all
/// `PARAMETER_COUNT` ordinals: `get` returns a parameter of the same variant
/// as the requested tag, whatever payload the tag was constructed with, and
/// `set` overwrites exactly the field selected by the parameter's tag.
pub trait DatabaseContent<Parameter, const PARAMETER_COUNT: usize>: Sized + Clone +
    Copy where Parameter: DatabaseParameter {
    /// The current value of every field, indexed by ordinal.
    spec fn params(&self) -> Seq<Parameter>;

    /// Every content value carries one field per ordinal, and the field at
    /// ordinal `i` is tagged with ordinal `i`.
    proof fn lemma_params_wf(&self)
        ensures
            self.params().len() == PARAMETER_COUNT as int,
            forall|i: int|
                0 <= i < PARAMETER_COUNT as int ==> (#[trigger] self.params()[i]).ordinal() == i,
    ;

    /// Get the value of the field selected by `parameter`'s tag; the payload
    /// of `parameter` is ignored.
    fn get(&self, parameter: &Parameter) -> (r: Parameter)
        requires
            0 <= parameter.ordinal() < PARAMETER_COUNT as int,
        ensures
            r == self.params()[parameter.ordinal()],
    ;

    /// Overwrite the field selected by `parameter`'s tag with `parameter`.
    fn set(&mut self, parameter: Parameter)
        requires
            0 <= parameter.ordinal() < PARAMETER_COUNT as int,
        ensures
            final(self).params() =~= old(self).params().update(parameter.ordinal(), parameter),
    ;
}

} // verus!
