use data_intuitive::role::Role;

#[test]
fn test_role_i32_roundtrip() {
    assert_eq!(Role::from_i32(Role::User.to_i32()), Role::User);
    assert_eq!(Role::from_i32(Role::Manager.to_i32()), Role::Manager);
    assert_eq!(Role::from_i32(Role::Admin.to_i32()), Role::Admin);
}

#[test]
fn test_role_string_roundtrip() {
    assert_eq!(Role::from_string(&Role::User.to_string()), Role::User);
    assert_eq!(Role::from_string(&Role::Manager.to_string()), Role::Manager);
    assert_eq!(Role::from_string(&Role::Admin.to_string()), Role::Admin);
}

#[test]
fn test_role_encodings_exact() {
    assert_eq!(Role::User.to_i32(), 0);
    assert_eq!(Role::Manager.to_i32(), 1);
    assert_eq!(Role::Admin.to_i32(), 2);
    assert_eq!(Role::User.to_string(), "User");
    assert_eq!(Role::Manager.to_string(), "Manager");
    assert_eq!(Role::Admin.to_string(), "Admin");
}

#[test]
fn test_unknown_encodings_default_to_user() {
    assert_eq!(Role::from_i32(-1), Role::User);
    assert_eq!(Role::from_i32(3), Role::User);
    assert_eq!(Role::from_i32(99), Role::User);
    assert_eq!(Role::from_string(""), Role::User);
    assert_eq!(Role::from_string("Superuser"), Role::User);
    assert_eq!(Role::from_string("manager"), Role::User);
}

#[test]
fn test_role_default() {
    assert_eq!(Role::default(), Role::User);
}
