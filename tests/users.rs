use proton_cli::users::UserStore;
use proton_cli::Error;

#[test]
fn users_get_ids_and_are_found_by_key() {
    let mut users = UserStore::new();
    assert_eq!(users.add_user("key-a".to_string(), "alice".to_string()).unwrap(), 1);
    assert_eq!(users.add_user("key-b".to_string(), "bob".to_string()).unwrap(), 2);
    assert_eq!(users.get_user_id(&"key-b".to_string()).unwrap(), 2);
    assert_eq!(users.get_user_id(&"key-a".to_string()).unwrap(), 1);
    assert!(matches!(users.get_user_id(&"key-c".to_string()), Err(Error::UserNotFound)));
}

#[test]
fn duplicate_key_or_name_is_refused() {
    let mut users = UserStore::new();
    users.add_user("key-a".to_string(), "alice".to_string()).unwrap();
    match users.add_user("key-a".to_string(), "carol".to_string()) {
        Err(Error::DuplicateUser(k, n)) => {
            assert_eq!(k, "key-a");
            assert_eq!(n, "carol");
        }
        _ => panic!("duplicate key must be refused"),
    }
    assert!(matches!(
        users.add_user("key-z".to_string(), "alice".to_string()),
        Err(Error::DuplicateUser(_, _))
    ));
    assert!(matches!(users.get_user_id(&"key-z".to_string()), Err(Error::UserNotFound)));
    assert_eq!(users.add_user("key-z".to_string(), "zed".to_string()).unwrap(), 2);
}
