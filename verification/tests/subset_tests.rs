use database::{
    AliceAndBobSubset, BobAndDebbieSubset, MyDatabase, MyDatabaseContent, MyDatabaseMember,
    ParameterChangeList, Subset,
};

#[test]
fn is_subscribed_scans_owned_ordinals_only() {
    let mut pending: ParameterChangeList<MyDatabaseMember, 4> = ParameterChangeList::new();
    assert!(!AliceAndBobSubset::is_subscribed(&pending));
    assert!(!BobAndDebbieSubset::is_subscribed(&pending));

    // A pending change for charlie (ordinal 2) belongs to neither subset.
    pending.record(MyDatabaseMember::Charlie(5));
    assert!(!AliceAndBobSubset::is_subscribed(&pending));
    assert!(!BobAndDebbieSubset::is_subscribed(&pending));

    // A pending change for alice (ordinal 0) triggers only AliceAndBob.
    pending.record(MyDatabaseMember::Alice(1));
    assert!(AliceAndBobSubset::is_subscribed(&pending));
    assert!(!BobAndDebbieSubset::is_subscribed(&pending));

    // A pending change for bob (ordinal 1) triggers both subsets.
    pending.record(MyDatabaseMember::Bob(1));
    assert!(AliceAndBobSubset::is_subscribed(&pending));
    assert!(BobAndDebbieSubset::is_subscribed(&pending));
}

#[test]
fn build_from_database_reads_live_values() {
    let mut database = MyDatabase::new(MyDatabaseContent::new());
    assert_eq!(
        AliceAndBobSubset::build_from_database(&database.0),
        AliceAndBobSubset { alice: 4, bob: 5333 }
    );
    assert_eq!(
        BobAndDebbieSubset::build_from_database(&database.0),
        BobAndDebbieSubset { bob: 5333, debbie: true }
    );

    // The built value follows the live content, not any snapshot.
    database.set(&MyDatabaseMember::Bob(17));
    assert_eq!(
        AliceAndBobSubset::build_from_database(&database.0),
        AliceAndBobSubset { alice: 4, bob: 17 }
    );
    assert_eq!(
        BobAndDebbieSubset::build_from_database(&database.0),
        BobAndDebbieSubset { bob: 17, debbie: true }
    );
}
