use database::{
    AliceAndBobSubscriber, AliceAndBobSubset, BobAndDebbieSubscriber, BobAndDebbieSubset,
    DatabaseError, MyDatabase, MyDatabaseContent, MyDatabaseMember,
};

fn fresh_alice_and_bob_subscriber() -> AliceAndBobSubscriber {
    AliceAndBobSubscriber { times_notified: 0, last_change: None }
}

fn fresh_bob_and_debbie_subscriber() -> BobAndDebbieSubscriber {
    BobAndDebbieSubscriber { times_notified: 0, last_change: None }
}

#[test]
fn get_returns_current_values() {
    let mut database = MyDatabase::new(MyDatabaseContent::new());
    assert_eq!(
        database.get(&MyDatabaseMember::Alice(0)),
        MyDatabaseMember::Alice(4)
    );
    assert_eq!(
        database.get(&MyDatabaseMember::Bob(0)),
        MyDatabaseMember::Bob(5333)
    );
    assert_eq!(
        database.get(&MyDatabaseMember::Charlie(0)),
        MyDatabaseMember::Charlie(-1)
    );
    assert_eq!(
        database.get(&MyDatabaseMember::Debbie(false)),
        MyDatabaseMember::Debbie(true)
    );

    database.set(&MyDatabaseMember::Alice(77));
    assert_eq!(
        database.get(&MyDatabaseMember::Alice(0)),
        MyDatabaseMember::Alice(77)
    );
}

#[test]
fn second_notification_is_a_no_op() {
    let mut database = MyDatabase::new(MyDatabaseContent::new());
    let mut handler = database.lock_subscriber_handler().unwrap();
    handler
        .subscribe_with_alice_and_bob_subset(fresh_alice_and_bob_subscriber())
        .unwrap();
    database.unlock_subscriber_handler(handler);

    database.set(&MyDatabaseMember::Alice(1));
    assert_eq!(database.notify_subscribers(), Ok(()));
    assert_eq!(database.notify_subscribers(), Ok(()));

    let handler = database.lock_subscriber_handler().unwrap();
    assert_eq!(handler.alice_and_bob_subscribers()[0].times_notified, 1);
}

#[test]
fn coalesced_writes_dispatch_once_with_last_value() {
    let mut database = MyDatabase::new(MyDatabaseContent::new());
    let mut handler = database.lock_subscriber_handler().unwrap();
    handler
        .subscribe_with_bob_and_debbie_subset(fresh_bob_and_debbie_subscriber())
        .unwrap();
    database.unlock_subscriber_handler(handler);

    database.multi_set(&[MyDatabaseMember::Bob(100)]);
    database.multi_set(&[MyDatabaseMember::Bob(200)]);
    database.notify_subscribers().unwrap();

    let handler = database.lock_subscriber_handler().unwrap();
    let observer = &handler.bob_and_debbie_subscribers()[0];
    assert_eq!(observer.times_notified, 1);
    assert_eq!(
        observer.last_change.unwrap(),
        BobAndDebbieSubset { bob: 200, debbie: true }
    );
}

#[test]
fn contended_notification_loses_nothing() {
    let mut database = MyDatabase::new(MyDatabaseContent::new());

    // Hold the registry lock, as an overlapping notification would.
    let held = database.lock_subscriber_handler().unwrap();
    database.set(&MyDatabaseMember::Alice(7));
    assert_eq!(
        database.notify_subscribers(),
        Err(DatabaseError::SubscriberLock)
    );
    database.unlock_subscriber_handler(held);

    // The change survived the failed drain: an observer registered only now
    // still sees it on the next notification.
    let mut handler = database.lock_subscriber_handler().unwrap();
    handler
        .subscribe_with_alice_and_bob_subset(fresh_alice_and_bob_subscriber())
        .unwrap();
    database.unlock_subscriber_handler(handler);

    assert_eq!(database.notify_subscribers(), Ok(()));
    let handler = database.lock_subscriber_handler().unwrap();
    let observer = &handler.alice_and_bob_subscribers()[0];
    assert_eq!(observer.times_notified, 1);
    assert_eq!(
        observer.last_change.unwrap(),
        AliceAndBobSubset { alice: 7, bob: 5333 }
    );
}

#[test]
fn lock_is_exclusive_until_released() {
    let mut database = MyDatabase::new(MyDatabaseContent::new());
    let held = database.lock_subscriber_handler().unwrap();
    assert!(database.lock_subscriber_handler().is_none());
    database.unlock_subscriber_handler(held);
    assert!(database.lock_subscriber_handler().is_some());
}

#[test]
fn batch_with_no_real_change_stays_clean() {
    let mut database = MyDatabase::new(MyDatabaseContent::new());
    let mut handler = database.lock_subscriber_handler().unwrap();
    handler
        .subscribe_with_alice_and_bob_subset(fresh_alice_and_bob_subscriber())
        .unwrap();
    database.unlock_subscriber_handler(handler);

    // Every value written equals the value already stored.
    let changes = [
        MyDatabaseMember::Alice(4),
        MyDatabaseMember::Bob(5333),
        MyDatabaseMember::Charlie(-1),
        MyDatabaseMember::Debbie(true),
    ];
    database.multi_set(&changes);
    assert_eq!(database.notify_subscribers(), Ok(()));

    let handler = database.lock_subscriber_handler().unwrap();
    assert_eq!(handler.alice_and_bob_subscribers()[0].times_notified, 0);
}
