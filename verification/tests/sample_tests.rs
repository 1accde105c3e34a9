use database::DatabaseHandler;
use database::sample_database::{
    MyContentSubset1Subscriber, MyContentSubset2Subscriber, MyDatabaseContent, MyDatabaseMember,
    MySubscriberHandler,
};

type SampleDatabase = DatabaseHandler<MyDatabaseContent, MySubscriberHandler, MyDatabaseMember, 3>;

fn build_database() -> SampleDatabase {
    DatabaseHandler::new(MyDatabaseContent::new(), MySubscriberHandler::new())
}

fn fresh_subset1_subscriber() -> MyContentSubset1Subscriber {
    MyContentSubset1Subscriber { times_notified: 0, last_change: None }
}

fn fresh_subset2_subscriber() -> MyContentSubset2Subscriber {
    MyContentSubset2Subscriber { times_notified: 0, last_change: None }
}

#[test]
fn manual_implementation_simple_test() {
    let mut database = build_database();

    let mut handler = database.lock_subscriber_handler().unwrap();
    handler
        .subscribe_with_my_content_subset1(fresh_subset1_subscriber())
        .unwrap();
    database.unlock_subscriber_handler(handler);

    let changes: [MyDatabaseMember; 2] = [MyDatabaseMember::Alice(2), MyDatabaseMember::Bob(144)];

    database.multi_set(&changes);
    database.notify_subscribers().unwrap();

    let handler = database.lock_subscriber_handler().unwrap();
    let subscriber = &handler.subset1_subscribers()[0];
    assert!(subscriber.times_notified > 0);
    let change = subscriber.last_change.unwrap();
    assert_eq!(change.alice, 2);
    assert_eq!(change.debbie, -1);
}

#[test]
fn manual_implementation_dont_notify_non_subscribed() {
    let mut database = build_database();

    let mut handler = database.lock_subscriber_handler().unwrap();
    handler
        .subscribe_with_my_content_subset1(fresh_subset1_subscriber())
        .unwrap();
    database.unlock_subscriber_handler(handler);

    database.set(&MyDatabaseMember::Bob(2));
    database.notify_subscribers().unwrap();

    let handler = database.lock_subscriber_handler().unwrap();
    let subscriber = &handler.subset1_subscribers()[0];
    assert!(subscriber.times_notified == 0);
}

#[test]
fn manual_implementation_multi_subscriber_test() {
    let mut database = build_database();

    let mut handler = database.lock_subscriber_handler().unwrap();
    handler
        .subscribe_with_my_content_subset1(fresh_subset1_subscriber())
        .unwrap();
    handler
        .subscribe_with_my_content_subset2(fresh_subset2_subscriber())
        .unwrap();
    database.unlock_subscriber_handler(handler);

    let changes: [MyDatabaseMember; 2] = [MyDatabaseMember::Alice(2), MyDatabaseMember::Bob(144)];

    database.multi_set(&changes);
    database.notify_subscribers().unwrap();

    let handler = database.lock_subscriber_handler().unwrap();
    let subscriber1 = &handler.subset1_subscribers()[0];
    let subscriber2 = &handler.subset2_subscribers()[0];
    assert!(subscriber1.times_notified > 0);
    let change = subscriber1.last_change.unwrap();
    assert_eq!(change.alice, 2);
    assert_eq!(change.debbie, -1);
    assert!(subscriber2.times_notified == 0);
}

#[test]
fn macro_implementation_simple_test() {
    let mut database = build_database();

    let mut handler = database.lock_subscriber_handler().unwrap();
    handler
        .subscribe_with_my_content_subset1(fresh_subset1_subscriber())
        .unwrap();
    database.unlock_subscriber_handler(handler);

    let changes: [MyDatabaseMember; 2] = [MyDatabaseMember::Alice(2), MyDatabaseMember::Bob(144)];

    database.multi_set(&changes);
    database.notify_subscribers().unwrap();

    let handler = database.lock_subscriber_handler().unwrap();
    let subscriber = &handler.subset1_subscribers()[0];
    assert!(subscriber.times_notified > 0);
    let change = subscriber.last_change.unwrap();
    assert_eq!(change.alice, 2);
    assert_eq!(change.debbie, -1);
}

#[test]
fn macro_implementation_dont_notify_non_subscribed() {
    let mut database = build_database();

    let mut handler = database.lock_subscriber_handler().unwrap();
    handler
        .subscribe_with_my_content_subset1(fresh_subset1_subscriber())
        .unwrap();
    database.unlock_subscriber_handler(handler);

    database.set(&MyDatabaseMember::Bob(2));
    database.notify_subscribers().unwrap();

    let handler = database.lock_subscriber_handler().unwrap();
    let subscriber = &handler.subset1_subscribers()[0];
    assert!(subscriber.times_notified == 0);
}

#[test]
fn macro_implementation_multi_subscriber_test() {
    let mut database = build_database();

    let mut handler = database.lock_subscriber_handler().unwrap();
    handler
        .subscribe_with_my_content_subset1(fresh_subset1_subscriber())
        .unwrap();
    handler
        .subscribe_with_my_content_subset2(fresh_subset2_subscriber())
        .unwrap();
    database.unlock_subscriber_handler(handler);

    let changes: [MyDatabaseMember; 2] = [MyDatabaseMember::Alice(2), MyDatabaseMember::Bob(144)];

    database.multi_set(&changes);
    database.notify_subscribers().unwrap();

    let handler = database.lock_subscriber_handler().unwrap();
    let subscriber1 = &handler.subset1_subscribers()[0];
    let subscriber2 = &handler.subset2_subscribers()[0];
    assert!(subscriber1.times_notified > 0);
    let change = subscriber1.last_change.unwrap();
    assert_eq!(change.alice, 2);
    assert_eq!(change.debbie, -1);
    assert!(subscriber2.times_notified == 0);
}
