use vstd::prelude::*;
use vstd::pervasive::unreached;

use crate::change_list::ParameterChangeList;
use crate::database::DatabaseRef;
use crate::database_content::MyDatabaseMember;
use crate::subscriber_handler::DatabaseSubscriber;
use crate::subscriber_handler::subset_triggered;
use crate::subset::Subset;

verus! {

/// `AliceAndBobSubset` is the subset of the example database's members
/// `alice` and `bob`: it owns ordinals 0 and 1.
#[derive(Debug, Clone, Copy, Default, PartialEq, Eq, Structural)]
pub struct AliceAndBobSubset {
    pub alice: u8,
    pub bob: u16,
}

impl Subset<MyDatabaseMember, 4> for AliceAndBobSubset {
    open spec fn owns(ordinal: int) -> bool {
        ordinal == 0 || ordinal == 1
    }

    open spec fn built_from(params: Seq<MyDatabaseMember>) -> Self {
        AliceAndBobSubset { alice: params[0]->Alice_0, bob: params[1]->Bob_0 }
    }

    fn is_subscribed(parameter_change: &ParameterChangeList<MyDatabaseMember, 4>) -> (r: bool) {
        let r = parameter_change.slot(0).is_some() || parameter_change.slot(1).is_some();
        proof {
            if parameter_change@[0] is Some {
                assert(Self::owns(0) && parameter_change@[0] is Some);
            } else if parameter_change@[1] is Some {
                assert(Self::owns(1) && parameter_change@[1] is Some);
            }
        }
        r
    }

    fn build_from_database<DB: DatabaseRef<MyDatabaseMember>>(database: &DB) -> (s: Self) {
        proof {
            database.lemma_live_params_wf();
        }
        let alice = match database.internal_get(&MyDatabaseMember::Alice(0)) {
            MyDatabaseMember::Alice(value) => value,
            _ => unreached(),
        };
        let bob = match database.internal_get(&MyDatabaseMember::Bob(0)) {
            MyDatabaseMember::Bob(value) => value,
            _ => unreached(),
        };
        AliceAndBobSubset { alice, bob }
    }
}

/// Law: subset correctness for `AliceAndBobSubset`, which owns ordinals 0
/// and 1. The subset is triggered by a drained ledger if and only if slot 0
/// or slot 1 holds a pending change — `is_subscribed` decides exactly this
/// — and the subset value built from the live field values carries exactly
/// the payloads of fields 0 and 1 at that moment, as `build_from_database`
/// returns it.
pub proof fn lemma_alice_and_bob_subset_correct(
    changes: Seq<Option<MyDatabaseMember>>,
    params: Seq<MyDatabaseMember>,
)
    requires
        changes.len() == 4,
        params.len() == 4,
    ensures
        subset_triggered::<AliceAndBobSubset, MyDatabaseMember, 4>(changes) == (changes[0] is Some
            || changes[1] is Some),
        AliceAndBobSubset::built_from(params) == (AliceAndBobSubset {
            alice: params[0]->Alice_0,
            bob: params[1]->Bob_0,
        }),
{
    if changes[0] is Some {
        assert(AliceAndBobSubset::owns(0) && changes[0] is Some);
    }
    if changes[1] is Some {
        assert(AliceAndBobSubset::owns(1) && changes[1] is Some);
    }
}

/// Observer of `AliceAndBobSubset`: remembers how often it was notified and
/// the last subset value it was handed.
#[derive(Debug, Clone, Copy, PartialEq, Eq, Structural)]
pub struct AliceAndBobSubscriber {
    pub times_notified: u64,
    pub last_change: Option<AliceAndBobSubset>,
}

impl DatabaseSubscriber<AliceAndBobSubset, MyDatabaseMember, 4> for AliceAndBobSubscriber {
    open spec fn notified(pre: Self, change: AliceAndBobSubset) -> Self {
        AliceAndBobSubscriber {
            times_notified: if pre.times_notified == u64::MAX {
                u64::MAX
            } else {
                (pre.times_notified + 1) as u64
            },
            last_change: Some(change),
        }
    }

    fn on_set(&mut self, change: &AliceAndBobSubset) {
        if self.times_notified < u64::MAX {
            self.times_notified = self.times_notified + 1;
        }
        self.last_change = Some(*change);
    }
}

} // verus!
