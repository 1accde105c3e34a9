use vstd::prelude::*;

use crate::alice_and_bob_subscriber::AliceAndBobSubscriber;
use crate::alice_and_bob_subscriber::AliceAndBobSubset;
use crate::bob_and_debbie_subscriber::BobAndDebbieSubscriber;
use crate::bob_and_debbie_subscriber::BobAndDebbieSubset;
use crate::change_list::ParameterChangeList;
use crate::change_list::all_slots_clear;
use crate::content::DatabaseContent;
use crate::database::DatabaseHandler;
use crate::database::DatabaseRef;
use crate::database_error::DatabaseError;
use crate::parameter::DatabaseParameter;
use crate::subscriber_handler::DatabaseSubscriberHandler;
use crate::subscriber_handler::dispatch_group;
use crate::subscriber_handler::group_notified;
use crate::subscriber_handler::subscribe_in_group;

verus! {

/// The number of members of `MyDatabaseContent`, and so the number of
/// ordinals of the example database.
pub const MY_DATABASE_MEMBER_COUNT: usize = 4;

/// One tagged member of `MyDatabaseContent`, carrying that member's value.
/// Each member maps to a dense, stable ordinal in declaration order.
#[derive(Debug, Clone, Copy, PartialEq, Eq, Structural)]
pub enum MyDatabaseMember {
    Alice(u8),
    Bob(u16),
    Charlie(isize),
    Debbie(bool),
}

impl DatabaseParameter for MyDatabaseMember {
    open spec fn ordinal(&self) -> int {
        match *self {
            MyDatabaseMember::Alice(_) => 0,
            MyDatabaseMember::Bob(_) => 1,
            MyDatabaseMember::Charlie(_) => 2,
            MyDatabaseMember::Debbie(_) => 3,
        }
    }

    fn ordinal_index(&self) -> (index: usize) {
        match *self {
            MyDatabaseMember::Alice(_) => 0,
            MyDatabaseMember::Bob(_) => 1,
            MyDatabaseMember::Charlie(_) => 2,
            MyDatabaseMember::Debbie(_) => 3,
        }
    }

    fn same_value(&self, other: &Self) -> (r: bool) {
        self == other
    }
}

/// Declares the content of the example database: all parameters it holds,
/// with one tagged member per field.
#[derive(Clone, Copy, Default)]
pub struct MyDatabaseContent {
    pub alice: u8,
    pub bob: u16,
    pub charlie: isize,
    pub debbie: bool,
}

impl MyDatabaseContent {
    /// The initial content of the example database.
    pub fn new() -> (r: Self)
        ensures
            r.params() == seq![
                MyDatabaseMember::Alice(4u8),
                MyDatabaseMember::Bob(5333u16),
                MyDatabaseMember::Charlie(-1isize),
                MyDatabaseMember::Debbie(true),
            ],
    {
        let r = MyDatabaseContent { alice: 4, bob: 5333, charlie: -1, debbie: true };
        proof {
            assert(r.params() =~= seq![
                MyDatabaseMember::Alice(4u8),
                MyDatabaseMember::Bob(5333u16),
                MyDatabaseMember::Charlie(-1isize),
                MyDatabaseMember::Debbie(true),
            ]);
        }
        r
    }
}

impl DatabaseContent<MyDatabaseMember, 4> for MyDatabaseContent {
    open spec fn params(&self) -> Seq<MyDatabaseMember> {
        seq![
            MyDatabaseMember::Alice(self.alice),
            MyDatabaseMember::Bob(self.bob),
            MyDatabaseMember::Charlie(self.charlie),
            MyDatabaseMember::Debbie(self.debbie),
        ]
    }

    proof fn lemma_params_wf(&self) {
    }

    fn get(&self, parameter: &MyDatabaseMember) -> (r: MyDatabaseMember) {
        match parameter {
            MyDatabaseMember::Alice(_) => MyDatabaseMember::Alice(self.alice),
            MyDatabaseMember::Bob(_) => MyDatabaseMember::Bob(self.bob),
            MyDatabaseMember::Charlie(_) => MyDatabaseMember::Charlie(self.charlie),
            MyDatabaseMember::Debbie(_) => MyDatabaseMember::Debbie(self.debbie),
        }
    }

    fn set(&mut self, parameter: MyDatabaseMember) {
        match parameter {
            MyDatabaseMember::Alice(value) => self.alice = value,
            MyDatabaseMember::Bob(value) => self.bob = value,
            MyDatabaseMember::Charlie(value) => self.charlie = value,
            MyDatabaseMember::Debbie(value) => self.debbie = value,
        }
        proof {
            assert(self.params() =~= old(self).params().update(parameter.ordinal(), parameter));
        }
    }
}

/// The number of observer slots of each subscriber group of the example
/// database.
pub const SUBSCRIBER_CAPACITY: usize = 4;

/// The subscriber registry of the example database: one fixed-capacity
/// group of observer slots per declared subset, in declaration order
/// `AliceAndBobSubset`, `BobAndDebbieSubset`.
pub struct MyDatabaseContentSubscriberHandler {
    alice_and_bob_subset_subscribers: Vec<AliceAndBobSubscriber>,
    bob_and_debbie_subset_subscribers: Vec<BobAndDebbieSubscriber>,
}

impl MyDatabaseContentSubscriberHandler {
    /// The observers registered for `AliceAndBobSubset`, in registration
    /// order.
    pub closed spec fn alice_and_bob_group(&self) -> Seq<AliceAndBobSubscriber> {
        self.alice_and_bob_subset_subscribers@
    }

    /// The observers registered for `BobAndDebbieSubset`, in registration
    /// order.
    pub closed spec fn bob_and_debbie_group(&self) -> Seq<BobAndDebbieSubscriber> {
        self.bob_and_debbie_subset_subscribers@
    }

    /// An empty registry: every observer slot free.
    pub fn new() -> (r: Self)
        ensures
            r.alice_and_bob_group() == Seq::<AliceAndBobSubscriber>::empty(),
            r.bob_and_debbie_group() == Seq::<BobAndDebbieSubscriber>::empty(),
    {
        MyDatabaseContentSubscriberHandler {
            alice_and_bob_subset_subscribers: Vec::new(),
            bob_and_debbie_subset_subscribers: Vec::new(),
        }
    }

    /// Register an observer for `AliceAndBobSubset` in the first free slot;
    /// fails with an overflow, changing nothing, once every slot is taken.
    pub fn subscribe_with_alice_and_bob_subset(
        &mut self,
        subscriber: AliceAndBobSubscriber,
    ) -> (r: Result<(), DatabaseError>)
        ensures
            old(self).alice_and_bob_group().len() < SUBSCRIBER_CAPACITY as int ==> r is Ok
                && final(self).alice_and_bob_group() == old(self).alice_and_bob_group().push(
                subscriber,
            ),
            old(self).alice_and_bob_group().len() >= SUBSCRIBER_CAPACITY as int ==> r == Err::<
                (),
                DatabaseError,
            >(DatabaseError::SubscriberOverflow) && final(self).alice_and_bob_group() == old(
                self,
            ).alice_and_bob_group(),
            final(self).bob_and_debbie_group() == old(self).bob_and_debbie_group(),
    {
        subscribe_in_group(&mut self.alice_and_bob_subset_subscribers, SUBSCRIBER_CAPACITY, subscriber)
    }

    /// Register an observer for `BobAndDebbieSubset` in the first free slot;
    /// fails with an overflow, changing nothing, once every slot is taken.
    pub fn subscribe_with_bob_and_debbie_subset(
        &mut self,
        subscriber: BobAndDebbieSubscriber,
    ) -> (r: Result<(), DatabaseError>)
        ensures
            old(self).bob_and_debbie_group().len() < SUBSCRIBER_CAPACITY as int ==> r is Ok
                && final(self).bob_and_debbie_group() == old(self).bob_and_debbie_group().push(
                subscriber,
            ),
            old(self).bob_and_debbie_group().len() >= SUBSCRIBER_CAPACITY as int ==> r == Err::<
                (),
                DatabaseError,
            >(DatabaseError::SubscriberOverflow) && final(self).bob_and_debbie_group() == old(
                self,
            ).bob_and_debbie_group(),
            final(self).alice_and_bob_group() == old(self).alice_and_bob_group(),
    {
        subscribe_in_group(&mut self.bob_and_debbie_subset_subscribers, SUBSCRIBER_CAPACITY, subscriber)
    }

    /// The observers registered for `AliceAndBobSubset`.
    pub fn alice_and_bob_subscribers(&self) -> (g: &Vec<AliceAndBobSubscriber>)
        ensures
            g@ == self.alice_and_bob_group(),
    {
        &self.alice_and_bob_subset_subscribers
    }

    /// The observers registered for `BobAndDebbieSubset`.
    pub fn bob_and_debbie_subscribers(&self) -> (g: &Vec<BobAndDebbieSubscriber>)
        ensures
            g@ == self.bob_and_debbie_group(),
    {
        &self.bob_and_debbie_subset_subscribers
    }
}

impl DatabaseSubscriberHandler<MyDatabaseMember, 4> for MyDatabaseContentSubscriberHandler {
    open spec fn notify_relation(
        pre: Self,
        post: Self,
        live: Seq<MyDatabaseMember>,
        changes: Seq<Option<MyDatabaseMember>>,
    ) -> bool {
        &&& post.alice_and_bob_group() == group_notified::<
            AliceAndBobSubscriber,
            AliceAndBobSubset,
            MyDatabaseMember,
            4,
        >(pre.alice_and_bob_group(), live, changes)
        &&& post.bob_and_debbie_group() == group_notified::<
            BobAndDebbieSubscriber,
            BobAndDebbieSubset,
            MyDatabaseMember,
            4,
        >(pre.bob_and_debbie_group(), live, changes)
    }

    fn notify_subscribers<DB: DatabaseRef<MyDatabaseMember>>(
        &mut self,
        database: &DB,
        parameter_change: &ParameterChangeList<MyDatabaseMember, 4>,
    ) {
        dispatch_group::<AliceAndBobSubscriber, AliceAndBobSubset, DB, MyDatabaseMember, 4>(
            &mut self.alice_and_bob_subset_subscribers,
            database,
            parameter_change,
        );
        dispatch_group::<BobAndDebbieSubscriber, BobAndDebbieSubset, DB, MyDatabaseMember, 4>(
            &mut self.bob_and_debbie_subset_subscribers,
            database,
            parameter_change,
        );
    }
}

/// The example database: `MyDatabaseContent` composed with its subscriber
/// registry by a `DatabaseHandler`.
pub struct MyDatabase(
    pub DatabaseHandler<
        MyDatabaseContent,
        MyDatabaseContentSubscriberHandler,
        MyDatabaseMember,
        4,
    >,
);

impl MyDatabase {
    /// Create the example database over its initial content, with an empty
    /// subscriber registry.
    pub fn new(content: MyDatabaseContent) -> (r: Self)
        ensures
            r.0.wf(),
            r.0.params() == content.params(),
            all_slots_clear(r.0.pending()),
            !r.0.dirty(),
            !r.0.registry_locked(),
            r.0.handler() is Some,
            r.0.handler()->0.alice_and_bob_group() == Seq::<AliceAndBobSubscriber>::empty(),
            r.0.handler()->0.bob_and_debbie_group() == Seq::<BobAndDebbieSubscriber>::empty(),
    {
        MyDatabase(DatabaseHandler::new(content, MyDatabaseContentSubscriberHandler::new()))
    }

    /// Retrieve a value from the database.
    pub fn get(&self, parameter: &MyDatabaseMember) -> (r: MyDatabaseMember)
        ensures
            r == self.0.params()[parameter.ordinal()],
    {
        self.0.get(parameter)
    }

    /// Set an array of parameters in the database, recording every change
    /// for a later `notify_subscribers` call.
    pub fn multi_set(&mut self, parameters: &[MyDatabaseMember])
        requires
            old(self).0.wf(),
        ensures
            final(self).0.wf(),
            final(self).0.params() == crate::database::params_after(
                old(self).0.params(),
                parameters@,
            ),
            final(self).0.pending() == crate::database::ledger_after(
                old(self).0.pending(),
                parameters@,
            ),
            final(self).0.dirty() == (old(self).0.dirty() || crate::database::batch_changes(
                old(self).0.params(),
                parameters@,
            )),
            final(self).0.handler() == old(self).0.handler(),
            final(self).0.registry_locked() == old(self).0.registry_locked(),
    {
        self.0.multi_set(parameters)
    }

    /// Set a single parameter in the database, recording the change for a
    /// later `notify_subscribers` call.
    pub fn set(&mut self, parameter: &MyDatabaseMember)
        requires
            old(self).0.wf(),
        ensures
            final(self).0.wf(),
            final(self).0.params() == old(self).0.params().update(
                parameter.ordinal(),
                *parameter,
            ),
            final(self).0.pending() == old(self).0.pending().update(
                parameter.ordinal(),
                Some(*parameter),
            ),
            final(self).0.dirty() == (old(self).0.dirty() || *parameter != old(
                self,
            ).0.params()[parameter.ordinal()]),
            final(self).0.handler() == old(self).0.handler(),
            final(self).0.registry_locked() == old(self).0.registry_locked(),
    {
        self.0.set(parameter)
    }

    /// Notify all subscribers of changes made to the database.
    pub fn notify_subscribers(&mut self) -> (r: Result<(), DatabaseError>)
        requires
            old(self).0.wf(),
        ensures
            final(self).0.wf(),
            final(self).0.params() == old(self).0.params(),
            r == DatabaseHandler::notify_result(old(self).0),
            final(self).0.dirty() == DatabaseHandler::dirty_after_notify(old(self).0),
            final(self).0.pending() == DatabaseHandler::pending_after_notify(old(self).0),
            final(self).0.registry_locked() == old(self).0.registry_locked(),
            DatabaseHandler::notify_dispatches(old(self).0) ==> final(self).0.handler() is Some
                && MyDatabaseContentSubscriberHandler::notify_relation(
                old(self).0.handler()->0,
                final(self).0.handler()->0,
                old(self).0.params(),
                old(self).0.pending(),
            ),
            !DatabaseHandler::notify_dispatches(old(self).0) ==> final(self).0.handler() == old(
                self,
            ).0.handler(),
    {
        self.0.notify_subscribers()
    }

    /// Take exclusive access to the subscriber registry, as for registering
    /// observers before the database is actively used.
    pub fn lock_subscriber_handler(&mut self) -> (r: Option<MyDatabaseContentSubscriberHandler>)
        ensures
            r == old(self).0.handler(),
            final(self).0.registry_locked(),
            final(self).0.handler() is None,
            final(self).0.params() == old(self).0.params(),
            final(self).0.pending() == old(self).0.pending(),
            final(self).0.dirty() == old(self).0.dirty(),
            final(self).0.wf() == old(self).0.wf(),
    {
        self.0.lock_subscriber_handler()
    }

    /// Release the subscriber registry lock, handing the registry back.
    pub fn unlock_subscriber_handler(&mut self, handler: MyDatabaseContentSubscriberHandler)
        requires
            old(self).0.registry_locked(),
        ensures
            !final(self).0.registry_locked(),
            final(self).0.handler() == Some(handler),
            final(self).0.params() == old(self).0.params(),
            final(self).0.pending() == old(self).0.pending(),
            final(self).0.dirty() == old(self).0.dirty(),
            final(self).0.wf() == old(self).0.wf(),
    {
        self.0.unlock_subscriber_handler(handler)
    }
}

} // verus!
