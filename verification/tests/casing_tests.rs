use database::{to_dromedar_case, to_snake_case, to_upper_snake_case};

#[test]
fn dromedar_case_capitalizes_words() {
    assert_eq!(to_dromedar_case("alice_and_bob"), "AliceAndBob");
    assert_eq!(to_dromedar_case("alice"), "Alice");
    assert_eq!(to_dromedar_case(""), "");
    assert_eq!(to_dromedar_case("a__b"), "AB");
    assert_eq!(to_dromedar_case("_leading"), "Leading");
}

#[test]
fn snake_case_separates_uppercase_letters() {
    assert_eq!(to_snake_case("AliceAndBob"), "alice_and_bob");
    assert_eq!(to_snake_case("Alice"), "alice");
    assert_eq!(to_snake_case(""), "");
    assert_eq!(to_snake_case("ABC"), "a_b_c");
    assert_eq!(to_snake_case("alice"), "alice");
}

#[test]
fn snake_dromedar_round_trip_is_identity() {
    assert_eq!(to_snake_case(&to_dromedar_case("alice_and_bob")), "alice_and_bob");
    assert_eq!(to_snake_case(&to_dromedar_case("bob2")), "bob2");
    assert_eq!(to_snake_case(&to_dromedar_case("a")), "a");
}

#[test]
fn upper_snake_case_uppercases_everything() {
    assert_eq!(to_upper_snake_case("MyDatabaseMember"), "MY_DATABASE_MEMBER");
    assert_eq!(to_upper_snake_case("Alice"), "ALICE");
    assert_eq!(to_upper_snake_case(""), "");
}
