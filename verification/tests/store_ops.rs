use data_intuitive::errors::StoreError;
use data_intuitive::role::Role;
use data_intuitive::store::MemoryStore;
use data_intuitive::user::User;

fn random_user() -> User {
    let random_string = uuid::Uuid::new_v4().to_string();
    let email = format!("{}@gmail.com", random_string);
    User {
        id: Some(random_string),
        name: "test".to_string(),
        email,
        password: "password".to_string(),
        created_at: Some(1_700_000_000),
        updated_at: Some(1_700_000_000),
    }
}

#[test]
fn test_create_user() {
    let mut client = MemoryStore::new();
    let user = random_user();
    let user_created = client.create_user(&user).unwrap();
    assert_eq!(user.name, user_created.name);
    assert_eq!(user.email, user_created.email);
    assert_eq!(user.created_at.unwrap(), user_created.created_at.unwrap());
    assert_eq!(user.updated_at.unwrap(), user_created.updated_at.unwrap());
}

#[test]
fn test_get_user() {
    let mut client = MemoryStore::new();
    let user = random_user();
    let user_created = client.create_user(&user).unwrap();
    let user_getted = client.get_user(&user_created.id.clone().unwrap()).unwrap();
    assert_eq!(user.name, user_getted.name);
    assert_eq!(user.email, user_getted.email);
    assert_eq!(user.created_at.unwrap(), user_getted.created_at.unwrap());
    assert_eq!(user.updated_at.unwrap(), user_getted.updated_at.unwrap());
}

#[test]
fn test_get_user_roles() {
    let mut client = MemoryStore::new();
    let user = client.create_user(&random_user()).unwrap();
    let roles = client.get_user_roles(&user.id.unwrap()).unwrap();
    assert_eq!(roles.len(), 1);
    assert_eq!(roles[0], Role::User);
}

#[test]
fn test_update_user_name() {
    let mut client = MemoryStore::new();
    let user = client.create_user(&random_user()).unwrap();
    let user = client
        .update_user_name("new name", &user.id.unwrap())
        .unwrap();
    assert_eq!(user.name, "new name");
}

#[test]
fn test_created_password_is_hashed() {
    let mut client = MemoryStore::new();
    let user = random_user();
    let uid = user.id.clone().unwrap();
    let stored = client.create_user(&user).unwrap();
    assert_ne!(stored.password, "password");
    assert!(client.check_password(&uid, "password").unwrap());
    assert!(!client.check_password(&uid, "wrong").unwrap());
}

#[test]
fn test_create_user_duplicate_id_rejected() {
    let mut client = MemoryStore::new();
    let user = random_user();
    client.create_user(&user).unwrap();
    let err = client.create_user(&user).unwrap_err();
    assert_eq!(err, StoreError::DuplicateId);
    let roles = client.get_user_roles(&user.id.clone().unwrap()).unwrap();
    assert_eq!(roles.len(), 1);
}

#[test]
fn test_create_user_role_failure_rolls_back() {
    let mut client = MemoryStore::new();
    let user = random_user();
    let uid = user.id.clone().unwrap();
    client.set_role_write_failure(true);
    let err = client.create_user(&user).unwrap_err();
    assert_eq!(err, StoreError::RoleWriteFailed);
    assert_eq!(client.get_user(&uid).unwrap_err(), StoreError::NotFound);
    let roles = client.get_user_roles(&uid).unwrap();
    assert_eq!(roles.len(), 0);
    client.set_role_write_failure(false);
    client.create_user(&user).unwrap();
    assert_eq!(client.get_user_roles(&uid).unwrap().len(), 1);
}

#[test]
fn test_unreachable_store_reports_unavailable() {
    let mut client = MemoryStore::new();
    client.set_available(false);
    assert_eq!(client.get_user("x").unwrap_err(), StoreError::Unavailable);
    assert_eq!(
        client.get_user_roles("x").unwrap_err(),
        StoreError::Unavailable
    );
    assert_eq!(
        client.create_user(&random_user()).unwrap_err(),
        StoreError::Unavailable
    );
}

#[test]
fn test_save_user_role_requires_record() {
    let mut client = MemoryStore::new();
    assert_eq!(
        client.save_user_role("ghost", &Role::Manager).unwrap_err(),
        StoreError::NotFound
    );
    let user = client.create_user(&random_user()).unwrap();
    let uid = user.id.unwrap();
    client.save_user_role(&uid, &Role::Manager).unwrap();
    let roles = client.get_user_roles(&uid).unwrap();
    assert_eq!(roles, vec![Role::User, Role::Manager]);
}
