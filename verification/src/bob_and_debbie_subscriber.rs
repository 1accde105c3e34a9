use vstd::prelude::*;
use vstd::pervasive::unreached;

use crate::change_list::ParameterChangeList;
use crate::database::DatabaseRef;
use crate::database_content::MyDatabaseMember;
use crate::subscriber_handler::DatabaseSubscriber;
use crate::subset::Subset;

verus! {

/// `BobAndDebbieSubset` is the subset of the example database's members
/// `bob` and `debbie`: it owns ordinals 1 and 3.
#[derive(Debug, Clone, Copy, Default, PartialEq, Eq, Structural)]
pub struct BobAndDebbieSubset {
    pub bob: u16,
    pub debbie: bool,
}

impl Subset<MyDatabaseMember, 4> for BobAndDebbieSubset {
    open spec fn owns(ordinal: int) -> bool {
        ordinal == 1 || ordinal == 3
    }

    open spec fn built_from(params: Seq<MyDatabaseMember>) -> Self {
        BobAndDebbieSubset { bob: params[1]->Bob_0, debbie: params[3]->Debbie_0 }
    }

    fn is_subscribed(parameter_change: &ParameterChangeList<MyDatabaseMember, 4>) -> (r: bool) {
        let r = parameter_change.slot(1).is_some() || parameter_change.slot(3).is_some();
        proof {
            if parameter_change@[1] is Some {
                assert(Self::owns(1) && parameter_change@[1] is Some);
            } else if parameter_change@[3] is Some {
                assert(Self::owns(3) && parameter_change@[3] is Some);
            }
        }
        r
    }

    fn build_from_database<DB: DatabaseRef<MyDatabaseMember>>(database: &DB) -> (s: Self) {
        proof {
            database.lemma_live_params_wf();
        }
        let bob = match database.internal_get(&MyDatabaseMember::Bob(0)) {
            MyDatabaseMember::Bob(value) => value,
            _ => unreached(),
        };
        let debbie = match database.internal_get(&MyDatabaseMember::Debbie(false)) {
            MyDatabaseMember::Debbie(value) => value,
            _ => unreached(),
        };
        BobAndDebbieSubset { bob, debbie }
    }
}

/// Observer of `BobAndDebbieSubset`: remembers how often it was notified
/// and the last subset value it was handed.
#[derive(Debug, Clone, Copy, PartialEq, Eq, Structural)]
pub struct BobAndDebbieSubscriber {
    pub times_notified: u64,
    pub last_change: Option<BobAndDebbieSubset>,
}

impl DatabaseSubscriber<BobAndDebbieSubset, MyDatabaseMember, 4> for BobAndDebbieSubscriber {
    open spec fn notified(pre: Self, change: BobAndDebbieSubset) -> Self {
        BobAndDebbieSubscriber {
            times_notified: if pre.times_notified == u64::MAX {
                u64::MAX
            } else {
                (pre.times_notified + 1) as u64
            },
            last_change: Some(change),
        }
    }

    fn on_set(&mut self, change: &BobAndDebbieSubset) {
        if self.times_notified < u64::MAX {
            self.times_notified = self.times_notified + 1;
        }
        self.last_change = Some(*change);
    }
}

} // verus!
