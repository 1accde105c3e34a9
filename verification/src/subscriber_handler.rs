use vstd::prelude::*;

use crate::change_list::ParameterChangeList;
use crate::database::DatabaseRef;
use crate::database_error::DatabaseError;
use crate::parameter::DatabaseParameter;
use crate::subset::Subset;

verus! {

/// A `DatabaseSubscriber` is any entity that needs to subscribe to a subset
/// of parameters in a database. The observer is handed the freshly built
/// subset value whenever any of the subset's parameters changed.
pub trait DatabaseSubscriber<
    ParameterSubset,
    Parameter,
    const PARAMETER_COUNT: usize,
>: Sized where
    Parameter: DatabaseParameter,
    ParameterSubset: Subset<Parameter, PARAMETER_COUNT>,
 {
    /// What one delivery of `change` does to the observer's state.
    spec fn notified(pre: Self, change: ParameterSubset) -> Self;

    /// Deliver a change. Runs synchronously on the notifying context, so it
    /// must be bounded and must not call back into `notify_subscribers`.
    fn on_set(&mut self, change: &ParameterSubset)
        ensures
            *final(self) == Self::notified(*old(self), *change),
    ;
}

/// A `DatabaseSubscriberHandler` is the registry of observers of one
/// database: fixed-capacity slots of registered observers, one group per
/// declared subset type. One notification round walks the declared subsets
/// in declaration order and, for each subset that owns a changed ordinal,
/// delivers a freshly built subset value to that subset's observers in
/// registration order.
pub trait DatabaseSubscriberHandler<Parameter, const PARAMETER_COUNT: usize>: Sized where
    Parameter: DatabaseParameter {
    /// How one notification round with live field values `live` and drained
    /// pending changes `changes` relates the registry's observers before
    /// (`pre`) and after (`post`) the round.
    spec fn notify_relation(
        pre: Self,
        post: Self,
        live: Seq<Parameter>,
        changes: Seq<Option<Parameter>>,
    ) -> bool;

    /// Go through the drained change list and notify every observer relevant
    /// to the changes, reading dispatched values from the database's live
    /// content.
    fn notify_subscribers<DB: DatabaseRef<Parameter>>(
        &mut self,
        database: &DB,
        parameter_change: &ParameterChangeList<Parameter, PARAMETER_COUNT>,
    )
        requires
            database.live_params().len() == PARAMETER_COUNT as int,
            parameter_change.wf(),
        ensures
            Self::notify_relation(
                *old(self),
                *final(self),
                database.live_params(),
                parameter_change@,
            ),
    ;
}

/// Whether the drained pending changes `changes` trigger the subset `S`:
/// some ordinal owned by `S` has a change pending.
pub open spec fn subset_triggered<S, Parameter, const PARAMETER_COUNT: usize>(
    changes: Seq<Option<Parameter>>,
) -> bool where Parameter: DatabaseParameter, S: Subset<Parameter, PARAMETER_COUNT> {
    exists|i: int|
        0 <= i < PARAMETER_COUNT as int && S::owns(i) && (#[trigger] changes[i]) is Some
}

/// One subset's observer group after one notification round: if the drained
/// changes trigger the subset, every observer has been delivered the subset
/// value built from the live field values, in registration order; otherwise
/// the group is untouched.
pub open spec fn group_notified<Sub, S, Parameter, const PARAMETER_COUNT: usize>(
    pre: Seq<Sub>,
    live: Seq<Parameter>,
    changes: Seq<Option<Parameter>>,
) -> Seq<Sub> where
    Parameter: DatabaseParameter,
    S: Subset<Parameter, PARAMETER_COUNT>,
    Sub: DatabaseSubscriber<S, Parameter, PARAMETER_COUNT>,
 {
    if subset_triggered::<S, Parameter, PARAMETER_COUNT>(changes) {
        pre.map_values(|observer: Sub| Sub::notified(observer, S::built_from(live)))
    } else {
        pre
    }
}

/// Scan an observer group for the first empty slot and install the
/// subscriber there; fail with an overflow, changing nothing, once every
/// one of the `capacity` slots is taken.
pub fn subscribe_in_group<Sub>(
    group: &mut Vec<Sub>,
    capacity: usize,
    subscriber: Sub,
) -> (r: Result<(), DatabaseError>)
    ensures
        old(group)@.len() < capacity as int ==> r is Ok && final(group)@ == old(group)@.push(
            subscriber,
        ),
        old(group)@.len() >= capacity as int ==> r == Err::<(), DatabaseError>(
            DatabaseError::SubscriberOverflow,
        ) && final(group)@ == old(group)@,
{
    if group.len() < capacity {
        group.push(subscriber);
        Ok(())
    } else {
        Err(DatabaseError::SubscriberOverflow)
    }
}

/// Borrow one observer of a group for delivery.
fn group_entry_mut<Sub>(group: &mut Vec<Sub>, i: usize) -> (entry: &mut Sub)
    requires
        i < old(group)@.len(),
    ensures
        *entry == old(group)@[i as int],
        final(group)@ == old(group)@.update(i as int, *final(entry)),
{
    &mut group[i]
}

/// Dispatch one subset to its observer group: if any ordinal owned by the
/// subset `S` has a change pending, build the subset value once from the
/// database's live content and deliver it to every registered observer, in
/// registration order.
pub fn dispatch_group<Sub, S, DB, Parameter, const PARAMETER_COUNT: usize>(
    group: &mut Vec<Sub>,
    database: &DB,
    parameter_change: &ParameterChangeList<Parameter, PARAMETER_COUNT>,
) where
    Parameter: DatabaseParameter,
    S: Subset<Parameter, PARAMETER_COUNT>,
    Sub: DatabaseSubscriber<S, Parameter, PARAMETER_COUNT>,
    DB: DatabaseRef<Parameter>,

    requires
        database.live_params().len() == PARAMETER_COUNT as int,
        parameter_change.wf(),
    ensures
        final(group)@ == group_notified::<Sub, S, Parameter, PARAMETER_COUNT>(
            old(group)@,
            database.live_params(),
            parameter_change@,
        ),
{
    if S::is_subscribed(parameter_change) {
        let subset = S::build_from_database(database);
        let ghost target = old(group)@.map_values(
            |observer: Sub| Sub::notified(observer, S::built_from(database.live_params())),
        );
        let mut i: usize = 0;
        while i < group.len()
            invariant
                i <= group@.len(),
                group@.len() == old(group)@.len(),
                target.len() == old(group)@.len(),
                subset == S::built_from(database.live_params()),
                target == old(group)@.map_values(
                    |observer: Sub| Sub::notified(observer, S::built_from(database.live_params())),
                ),
                forall|j: int| 0 <= j < i as int ==> group@[j] == target[j],
                forall|j: int| i as int <= j < group@.len() ==> group@[j] == old(group)@[j],
            decreases group@.len() - i as int,
        {
            let entry = group_entry_mut(group, i);
            entry.on_set(&subset);
            i = i + 1;
        }
        proof {
            assert(group@ =~= target);
        }
    }
}

} // verus!
