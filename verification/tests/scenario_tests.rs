use database::{
    AliceAndBobSubscriber, AliceAndBobSubset, BobAndDebbieSubscriber, BobAndDebbieSubset,
    DatabaseError, MyDatabase, MyDatabaseContent, MyDatabaseMember, SUBSCRIBER_CAPACITY,
};

fn fresh_alice_and_bob_subscriber() -> AliceAndBobSubscriber {
    AliceAndBobSubscriber { times_notified: 0, last_change: None }
}

fn fresh_bob_and_debbie_subscriber() -> BobAndDebbieSubscriber {
    BobAndDebbieSubscriber { times_notified: 0, last_change: None }
}

fn build_database_with_observers() -> MyDatabase {
    let mut database = MyDatabase::new(MyDatabaseContent::new());
    let mut handler = database.lock_subscriber_handler().unwrap();
    handler
        .subscribe_with_alice_and_bob_subset(fresh_alice_and_bob_subscriber())
        .unwrap();
    handler
        .subscribe_with_bob_and_debbie_subset(fresh_bob_and_debbie_subscriber())
        .unwrap();
    database.unlock_subscriber_handler(handler);
    database
}

#[test]
fn batch_notifies_only_touched_subset() {
    let mut database = build_database_with_observers();

    let changes = [MyDatabaseMember::Alice(2), MyDatabaseMember::Charlie(-1)];
    database.multi_set(&changes);
    database.notify_subscribers().unwrap();

    let handler = database.lock_subscriber_handler().unwrap();
    let alice_and_bob = &handler.alice_and_bob_subscribers()[0];
    assert_eq!(alice_and_bob.times_notified, 1);
    assert_eq!(
        alice_and_bob.last_change.unwrap(),
        AliceAndBobSubset { alice: 2, bob: 5333 }
    );
    let bob_and_debbie = &handler.bob_and_debbie_subscribers()[0];
    assert_eq!(bob_and_debbie.times_notified, 0);
    assert!(bob_and_debbie.last_change.is_none());
}

#[test]
fn real_change_notifies_both_subsets() {
    let mut database = build_database_with_observers();

    database.set(&MyDatabaseMember::Bob(2));
    database.notify_subscribers().unwrap();

    let handler = database.lock_subscriber_handler().unwrap();
    let alice_and_bob = &handler.alice_and_bob_subscribers()[0];
    assert_eq!(alice_and_bob.times_notified, 1);
    assert_eq!(
        alice_and_bob.last_change.unwrap(),
        AliceAndBobSubset { alice: 4, bob: 2 }
    );
    let bob_and_debbie = &handler.bob_and_debbie_subscribers()[0];
    assert_eq!(bob_and_debbie.times_notified, 1);
    assert_eq!(
        bob_and_debbie.last_change.unwrap(),
        BobAndDebbieSubset { bob: 2, debbie: true }
    );
}

#[test]
fn unchanged_value_notifies_nobody() {
    let mut database = build_database_with_observers();

    // Bob already holds 5333: writing the same value is no real change.
    database.set(&MyDatabaseMember::Bob(5333));
    assert_eq!(database.notify_subscribers(), Ok(()));

    let handler = database.lock_subscriber_handler().unwrap();
    assert_eq!(handler.alice_and_bob_subscribers()[0].times_notified, 0);
    assert_eq!(handler.bob_and_debbie_subscribers()[0].times_notified, 0);
}

#[test]
fn overflowing_registration_keeps_earlier_observers() {
    let mut database = MyDatabase::new(MyDatabaseContent::new());
    let mut handler = database.lock_subscriber_handler().unwrap();
    for _ in 0..SUBSCRIBER_CAPACITY {
        handler
            .subscribe_with_alice_and_bob_subset(fresh_alice_and_bob_subscriber())
            .unwrap();
    }
    let overflow = handler.subscribe_with_alice_and_bob_subset(fresh_alice_and_bob_subscriber());
    assert_eq!(overflow, Err(DatabaseError::SubscriberOverflow));
    assert_eq!(handler.alice_and_bob_subscribers().len(), SUBSCRIBER_CAPACITY);
    database.unlock_subscriber_handler(handler);

    database.set(&MyDatabaseMember::Alice(9));
    database.notify_subscribers().unwrap();

    let handler = database.lock_subscriber_handler().unwrap();
    let observers = handler.alice_and_bob_subscribers();
    assert_eq!(observers.len(), SUBSCRIBER_CAPACITY);
    for observer in observers.iter() {
        assert_eq!(observer.times_notified, 1);
        assert_eq!(
            observer.last_change.unwrap(),
            AliceAndBobSubset { alice: 9, bob: 5333 }
        );
    }
}
