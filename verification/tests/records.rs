use data_intuitive::context::RequestIdentityContext;
use data_intuitive::errors::StoreError;
use data_intuitive::store::MemoryStore;
use data_intuitive::user::User;
use data_intuitive::user_uid::UserUID;

#[test]
fn test_update() {
    let mut uid = UserUID(String::new());
    uid.update("subject-9".to_string());
    assert_eq!(uid.0, "subject-9");
    uid.update("subject-10".to_string());
    assert_eq!(uid.0, "subject-10");
}

#[test]
fn test_to_uuid_accepts_uuid_shape() {
    let fresh = uuid::Uuid::new_v4().to_string();
    let uid = UserUID(fresh.clone());
    let parsed = uid.to_uuid().unwrap();
    assert_eq!(parsed.to_string(), fresh);
}

#[test]
fn test_to_uuid_rejects_other_shapes() {
    assert!(UserUID("".to_string()).to_uuid().is_err());
    assert!(UserUID("abc".to_string()).to_uuid().is_err());
    assert!(UserUID("zzzzzzzz-zzzz-zzzz-zzzz-zzzzzzzzzzzz".to_string())
        .to_uuid()
        .is_err());
}

#[test]
fn test_fill_id() {
    let mut user = User {
        id: None,
        name: "n".to_string(),
        email: "e@example.test".to_string(),
        password: "p".to_string(),
        created_at: None,
        updated_at: None,
    };
    user.fill_id("abc".to_string());
    assert_eq!(user.id.as_deref(), Some("abc"));
    assert_eq!(user.name, "n");
    assert!(user.created_at.is_some());
    assert!(user.updated_at.is_some());
}

#[test]
fn test_context_set_and_get() {
    let mut ctx = RequestIdentityContext::new();
    assert_eq!(ctx.get_subject(), "");
    assert!(ctx.get_user().is_none());
    ctx.set_subject("abc".to_string());
    assert_eq!(ctx.get_subject(), "abc");
    let rec = User {
        id: Some("abc".to_string()),
        name: "n".to_string(),
        email: "e@example.test".to_string(),
        password: "p".to_string(),
        created_at: Some(1),
        updated_at: Some(1),
    };
    ctx.set_user(rec);
    let cached = ctx.get_user().as_ref().unwrap();
    assert_eq!(cached.id.as_deref(), Some("abc"));
    assert_eq!(ctx.get_subject(), "abc");
}

#[test]
fn test_check_password() {
    let mut store = MemoryStore::new();
    let user = User {
        id: Some("abc".to_string()),
        name: "n".to_string(),
        email: "e@example.test".to_string(),
        password: "password123456".to_string(),
        created_at: Some(1),
        updated_at: Some(1),
    };
    store.create_user(&user).unwrap();
    assert!(store.check_password("abc", "password123456").unwrap());
    assert!(!store.check_password("abc", "other").unwrap());
    assert_eq!(
        store.check_password("ghost", "password123456").unwrap_err(),
        StoreError::NotFound
    );
}
