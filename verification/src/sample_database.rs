//! A second, smaller database of three members, written out by hand: it
//! exercises the engine with a subset that owns two ordinals and a subset
//! that owns a single one.

use vstd::prelude::*;
use vstd::pervasive::unreached;

use crate::change_list::ParameterChangeList;
use crate::content::DatabaseContent;
use crate::database::DatabaseRef;
use crate::database_error::DatabaseError;
use crate::parameter::DatabaseParameter;
use crate::subscriber_handler::DatabaseSubscriber;
use crate::subscriber_handler::DatabaseSubscriberHandler;
use crate::subscriber_handler::dispatch_group;
use crate::subscriber_handler::group_notified;
use crate::subscriber_handler::subscribe_in_group;
use crate::subset::Subset;

verus! {

/// The number of observer slots of each subscriber group of the sample
/// database.
pub const SAMPLE_SUBSCRIBER_CAPACITY: usize = 128;

/// One tagged member of the sample database's content.
#[derive(Debug, Clone, Copy, PartialEq, Eq, Structural)]
pub enum MyDatabaseMember {
    Alice(u8),
    Bob(u16),
    Debbie(isize),
}

impl DatabaseParameter for MyDatabaseMember {
    open spec fn ordinal(&self) -> int {
        match *self {
            MyDatabaseMember::Alice(_) => 0,
            MyDatabaseMember::Bob(_) => 1,
            MyDatabaseMember::Debbie(_) => 2,
        }
    }

    fn ordinal_index(&self) -> (index: usize) {
        match *self {
            MyDatabaseMember::Alice(_) => 0,
            MyDatabaseMember::Bob(_) => 1,
            MyDatabaseMember::Debbie(_) => 2,
        }
    }

    fn same_value(&self, other: &Self) -> (r: bool) {
        self == other
    }
}

/// The content of the sample database.
#[derive(Clone, Copy, Default)]
pub struct MyDatabaseContent {
    pub alice: u8,
    pub bob: u16,
    pub debbie: isize,
}

impl MyDatabaseContent {
    /// The initial content of the sample database.
    pub fn new() -> (r: Self)
        ensures
            r.params() == seq![
                MyDatabaseMember::Alice(13u8),
                MyDatabaseMember::Bob(4443u16),
                MyDatabaseMember::Debbie(-1isize),
            ],
    {
        let r = MyDatabaseContent { alice: 13, bob: 4443, debbie: -1 };
        proof {
            assert(r.params() =~= seq![
                MyDatabaseMember::Alice(13u8),
                MyDatabaseMember::Bob(4443u16),
                MyDatabaseMember::Debbie(-1isize),
            ]);
        }
        r
    }
}

impl DatabaseContent<MyDatabaseMember, 3> for MyDatabaseContent {
    open spec fn params(&self) -> Seq<MyDatabaseMember> {
        seq![
            MyDatabaseMember::Alice(self.alice),
            MyDatabaseMember::Bob(self.bob),
            MyDatabaseMember::Debbie(self.debbie),
        ]
    }

    proof fn lemma_params_wf(&self) {
    }

    fn get(&self, parameter: &MyDatabaseMember) -> (r: MyDatabaseMember) {
        match parameter {
            MyDatabaseMember::Alice(_) => MyDatabaseMember::Alice(self.alice),
            MyDatabaseMember::Bob(_) => MyDatabaseMember::Bob(self.bob),
            MyDatabaseMember::Debbie(_) => MyDatabaseMember::Debbie(self.debbie),
        }
    }

    fn set(&mut self, parameter: MyDatabaseMember) {
        match parameter {
            MyDatabaseMember::Alice(value) => self.alice = value,
            MyDatabaseMember::Bob(value) => self.bob = value,
            MyDatabaseMember::Debbie(value) => self.debbie = value,
        }
        proof {
            assert(self.params() =~= old(self).params().update(parameter.ordinal(), parameter));
        }
    }
}

/// The subset of the sample database's members `alice` and `debbie`: it
/// owns ordinals 0 and 2.
#[derive(Debug, Clone, Copy, PartialEq, Eq, Structural)]
pub struct MyContentSubset1 {
    pub alice: u8,
    pub debbie: isize,
}

impl Subset<MyDatabaseMember, 3> for MyContentSubset1 {
    open spec fn owns(ordinal: int) -> bool {
        ordinal == 0 || ordinal == 2
    }

    open spec fn built_from(params: Seq<MyDatabaseMember>) -> Self {
        MyContentSubset1 { alice: params[0]->Alice_0, debbie: params[2]->Debbie_0 }
    }

    fn is_subscribed(parameter_change: &ParameterChangeList<MyDatabaseMember, 3>) -> (r: bool) {
        let r = parameter_change.slot(0).is_some() || parameter_change.slot(2).is_some();
        proof {
            if parameter_change@[0] is Some {
                assert(Self::owns(0) && parameter_change@[0] is Some);
            } else if parameter_change@[2] is Some {
                assert(Self::owns(2) && parameter_change@[2] is Some);
            }
        }
        r
    }

    fn build_from_database<DB: DatabaseRef<MyDatabaseMember>>(database: &DB) -> (s: Self) {
        proof {
            database.lemma_live_params_wf();
        }
        let alice = match database.internal_get(&MyDatabaseMember::Alice(0)) {
            MyDatabaseMember::Alice(value) => value,
            _ => unreached(),
        };
        let debbie = match database.internal_get(&MyDatabaseMember::Debbie(0)) {
            MyDatabaseMember::Debbie(value) => value,
            _ => unreached(),
        };
        MyContentSubset1 { alice, debbie }
    }
}

/// The subset of the sample database's single member `debbie`: it owns
/// ordinal 2.
#[derive(Debug, Clone, Copy, PartialEq, Eq, Structural)]
pub struct MyContentSubset2 {
    pub debbie: isize,
}

impl Subset<MyDatabaseMember, 3> for MyContentSubset2 {
    open spec fn owns(ordinal: int) -> bool {
        ordinal == 2
    }

    open spec fn built_from(params: Seq<MyDatabaseMember>) -> Self {
        MyContentSubset2 { debbie: params[2]->Debbie_0 }
    }

    fn is_subscribed(parameter_change: &ParameterChangeList<MyDatabaseMember, 3>) -> (r: bool) {
        let r = parameter_change.slot(2).is_some();
        proof {
            if parameter_change@[2] is Some {
                assert(Self::owns(2) && parameter_change@[2] is Some);
            }
        }
        r
    }

    fn build_from_database<DB: DatabaseRef<MyDatabaseMember>>(database: &DB) -> (s: Self) {
        proof {
            database.lemma_live_params_wf();
        }
        let debbie = match database.internal_get(&MyDatabaseMember::Debbie(0)) {
            MyDatabaseMember::Debbie(value) => value,
            _ => unreached(),
        };
        MyContentSubset2 { debbie }
    }
}

/// Observer of `MyContentSubset1`: remembers how often it was notified and
/// the last subset value it was handed.
#[derive(Debug, Clone, Copy, PartialEq, Eq, Structural)]
pub struct MyContentSubset1Subscriber {
    pub times_notified: u64,
    pub last_change: Option<MyContentSubset1>,
}

impl DatabaseSubscriber<MyContentSubset1, MyDatabaseMember, 3> for MyContentSubset1Subscriber {
    open spec fn notified(pre: Self, change: MyContentSubset1) -> Self {
        MyContentSubset1Subscriber {
            times_notified: if pre.times_notified == u64::MAX {
                u64::MAX
            } else {
                (pre.times_notified + 1) as u64
            },
            last_change: Some(change),
        }
    }

    fn on_set(&mut self, change: &MyContentSubset1) {
        if self.times_notified < u64::MAX {
            self.times_notified = self.times_notified + 1;
        }
        self.last_change = Some(*change);
    }
}

/// Observer of `MyContentSubset2`: remembers how often it was notified and
/// the last subset value it was handed.
#[derive(Debug, Clone, Copy, PartialEq, Eq, Structural)]
pub struct MyContentSubset2Subscriber {
    pub times_notified: u64,
    pub last_change: Option<MyContentSubset2>,
}

impl DatabaseSubscriber<MyContentSubset2, MyDatabaseMember, 3> for MyContentSubset2Subscriber {
    open spec fn notified(pre: Self, change: MyContentSubset2) -> Self {
        MyContentSubset2Subscriber {
            times_notified: if pre.times_notified == u64::MAX {
                u64::MAX
            } else {
                (pre.times_notified + 1) as u64
            },
            last_change: Some(change),
        }
    }

    fn on_set(&mut self, change: &MyContentSubset2) {
        if self.times_notified < u64::MAX {
            self.times_notified = self.times_notified + 1;
        }
        self.last_change = Some(*change);
    }
}

/// The subscriber registry of the sample database: one fixed-capacity group
/// of observer slots per subset, in declaration order `MyContentSubset1`,
/// `MyContentSubset2`.
pub struct MySubscriberHandler {
    my_content_subset1_subscribers: Vec<MyContentSubset1Subscriber>,
    my_content_subset2_subscribers: Vec<MyContentSubset2Subscriber>,
}

impl MySubscriberHandler {
    /// The observers registered for `MyContentSubset1`, in registration
    /// order.
    pub closed spec fn subset1_group(&self) -> Seq<MyContentSubset1Subscriber> {
        self.my_content_subset1_subscribers@
    }

    /// The observers registered for `MyContentSubset2`, in registration
    /// order.
    pub closed spec fn subset2_group(&self) -> Seq<MyContentSubset2Subscriber> {
        self.my_content_subset2_subscribers@
    }

    /// An empty registry: every observer slot free.
    pub fn new() -> (r: Self)
        ensures
            r.subset1_group() == Seq::<MyContentSubset1Subscriber>::empty(),
            r.subset2_group() == Seq::<MyContentSubset2Subscriber>::empty(),
    {
        MySubscriberHandler {
            my_content_subset1_subscribers: Vec::new(),
            my_content_subset2_subscribers: Vec::new(),
        }
    }

    /// Register an observer for `MyContentSubset1` in the first free slot;
    /// fails with an overflow, changing nothing, once every slot is taken.
    pub fn subscribe_with_my_content_subset1(
        &mut self,
        subscriber: MyContentSubset1Subscriber,
    ) -> (r: Result<(), DatabaseError>)
        ensures
            old(self).subset1_group().len() < SAMPLE_SUBSCRIBER_CAPACITY as int ==> r is Ok
                && final(self).subset1_group() == old(self).subset1_group().push(subscriber),
            old(self).subset1_group().len() >= SAMPLE_SUBSCRIBER_CAPACITY as int ==> r == Err::<
                (),
                DatabaseError,
            >(DatabaseError::SubscriberOverflow) && final(self).subset1_group() == old(
                self,
            ).subset1_group(),
            final(self).subset2_group() == old(self).subset2_group(),
    {
        subscribe_in_group(
            &mut self.my_content_subset1_subscribers,
            SAMPLE_SUBSCRIBER_CAPACITY,
            subscriber,
        )
    }

    /// Register an observer for `MyContentSubset2` in the first free slot;
    /// fails with an overflow, changing nothing, once every slot is taken.
    pub fn subscribe_with_my_content_subset2(
        &mut self,
        subscriber: MyContentSubset2Subscriber,
    ) -> (r: Result<(), DatabaseError>)
        ensures
            old(self).subset2_group().len() < SAMPLE_SUBSCRIBER_CAPACITY as int ==> r is Ok
                && final(self).subset2_group() == old(self).subset2_group().push(subscriber),
            old(self).subset2_group().len() >= SAMPLE_SUBSCRIBER_CAPACITY as int ==> r == Err::<
                (),
                DatabaseError,
            >(DatabaseError::SubscriberOverflow) && final(self).subset2_group() == old(
                self,
            ).subset2_group(),
            final(self).subset1_group() == old(self).subset1_group(),
    {
        subscribe_in_group(
            &mut self.my_content_subset2_subscribers,
            SAMPLE_SUBSCRIBER_CAPACITY,
            subscriber,
        )
    }

    /// The observers registered for `MyContentSubset1`.
    pub fn subset1_subscribers(&self) -> (g: &Vec<MyContentSubset1Subscriber>)
        ensures
            g@ == self.subset1_group(),
    {
        &self.my_content_subset1_subscribers
    }

    /// The observers registered for `MyContentSubset2`.
    pub fn subset2_subscribers(&self) -> (g: &Vec<MyContentSubset2Subscriber>)
        ensures
            g@ == self.subset2_group(),
    {
        &self.my_content_subset2_subscribers
    }
}

impl DatabaseSubscriberHandler<MyDatabaseMember, 3> for MySubscriberHandler {
    open spec fn notify_relation(
        pre: Self,
        post: Self,
        live: Seq<MyDatabaseMember>,
        changes: Seq<Option<MyDatabaseMember>>,
    ) -> bool {
        &&& post.subset1_group() == group_notified::<
            MyContentSubset1Subscriber,
            MyContentSubset1,
            MyDatabaseMember,
            3,
        >(pre.subset1_group(), live, changes)
        &&& post.subset2_group() == group_notified::<
            MyContentSubset2Subscriber,
            MyContentSubset2,
            MyDatabaseMember,
            3,
        >(pre.subset2_group(), live, changes)
    }

    fn notify_subscribers<DB: DatabaseRef<MyDatabaseMember>>(
        &mut self,
        database: &DB,
        parameter_change: &ParameterChangeList<MyDatabaseMember, 3>,
    ) {
        dispatch_group::<MyContentSubset1Subscriber, MyContentSubset1, DB, MyDatabaseMember, 3>(
            &mut self.my_content_subset1_subscribers,
            database,
            parameter_change,
        );
        dispatch_group::<MyContentSubset2Subscriber, MyContentSubset2, DB, MyDatabaseMember, 3>(
            &mut self.my_content_subset2_subscribers,
            database,
            parameter_change,
        );
    }
}

} // verus!
