use generate_did::User;

#[test]
fn test_user_record() {
    let user = User::new(7, "User 7".to_string());
    assert_eq!(user.id, 7);
    assert_eq!(user.name, "User 7");
}
