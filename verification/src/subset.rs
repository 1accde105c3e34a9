use vstd::prelude::*;

use crate::change_list::ParameterChangeList;
use crate::database::DatabaseRef;
use crate::parameter::DatabaseParameter;

verus! {

/// A fixed group of ordinals of interest, with its own value type carrying
/// only those fields.
///
/// A subset is bound to its ordinals when it is declared; `is_subscribed`
/// scans only those ordinals, and `build_from_database` reads one live field
/// per owned ordinal, so a dispatched value always reflects the freshest
/// state even if a field was overwritten again after the pending changes were
/// drained.
pub trait Subset<Parameter, const PARAMETER_COUNT: usize>: Sized + Clone + Copy where
    Parameter: DatabaseParameter {
    /// Whether the subset owns the field at `ordinal`.
    spec fn owns(ordinal: int) -> bool;

    /// The subset value extracted from the live field values `params`.
    spec fn built_from(params: Seq<Parameter>) -> Self;

    /// Check if the parameter change list contains any changes relevant to
    /// the subset.
    fn is_subscribed(parameter_change: &ParameterChangeList<Parameter, PARAMETER_COUNT>) -> (r:
        bool)
        requires
            parameter_change.wf(),
        ensures
            r == exists|i: int|
                0 <= i < PARAMETER_COUNT as int && Self::owns(i) && (#[trigger] parameter_change@[i]) is Some,
    ;

    /// Build the subset value from the database's live content, one `get`
    /// per owned ordinal.
    fn build_from_database<DB: DatabaseRef<Parameter>>(database: &DB) -> (s: Self)
        requires
            database.live_params().len() == PARAMETER_COUNT as int,
        ensures
            s == Self::built_from(database.live_params()),
    ;
}

} // verus!
