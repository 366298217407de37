use allforone::provider::OAuthProvider;
use allforone::users::{get_or_create_user_if_not_exist, new_user, Model, UserResolution};

fn find_row(rows: &[Model], idp: OAuthProvider, idp_uid: &str) -> Option<Model> {
    rows.iter().find(|m| m.idp == idp.as_str() && m.idp_uid == idp_uid).cloned()
}

fn resolve_in(rows: &mut Vec<Model>, idp: OAuthProvider, idp_uid: &str) -> Model {
    let existing = find_row(rows, idp, idp_uid);
    match get_or_create_user_if_not_exist(existing, idp, idp_uid.to_string()) {
        UserResolution::Existing(user) => user,
        UserResolution::Create(user) => {
            rows.push(user.clone());
            user
        }
    }
}

#[test]
fn test_user_model_creation() {
    let user_id = uuid::Uuid::now_v7().as_u128();
    let now = chrono::Utc::now().timestamp();
    let user = Model {
        id: user_id,
        username: Some("testuser".to_string()),
        email: Some("test@example.com".to_string()),
        is_active: true,
        created_at: now,
        updated_at: now,
        idp: "github".to_string(),
        idp_uid: "12345".to_string(),
    };

    assert_eq!(user.id, user_id);
    assert_eq!(user.username, Some("testuser".to_string()));
    assert_eq!(user.email, Some("test@example.com".to_string()));
    assert!(user.is_active);
    assert_eq!(user.idp, "github");
    assert_eq!(user.idp_uid, "12345");
}

#[test]
fn test_user_model_optional_fields() {
    let user_id = uuid::Uuid::now_v7().as_u128();
    let now = chrono::Utc::now().timestamp();
    let user = Model {
        id: user_id,
        username: None,
        email: None,
        is_active: false,
        created_at: now,
        updated_at: now,
        idp: "github".to_string(),
        idp_uid: "67890".to_string(),
    };

    assert_eq!(user.username, None);
    assert_eq!(user.email, None);
    assert!(!user.is_active);
}

#[test]
fn test_user_model_equality() {
    let user_id = uuid::Uuid::now_v7().as_u128();
    let now = chrono::Utc::now().timestamp();

    let user1 = Model {
        id: user_id,
        username: Some("testuser".to_string()),
        email: Some("test@example.com".to_string()),
        is_active: true,
        created_at: now,
        updated_at: now,
        idp: "github".to_string(),
        idp_uid: "12345".to_string(),
    };

    let user2 = Model {
        id: user_id,
        username: Some("testuser".to_string()),
        email: Some("test@example.com".to_string()),
        is_active: true,
        created_at: now,
        updated_at: now,
        idp: "github".to_string(),
        idp_uid: "12345".to_string(),
    };

    assert_eq!(user1, user2);
}

#[test]
fn test_user_model_debug() {
    let user_id = uuid::Uuid::now_v7().as_u128();
    let now = chrono::Utc::now().timestamp();

    let user = Model {
        id: user_id,
        username: Some("testuser".to_string()),
        email: Some("test@example.com".to_string()),
        is_active: true,
        created_at: now,
        updated_at: now,
        idp: "github".to_string(),
        idp_uid: "12345".to_string(),
    };

    let debug_str = format!("{:?}", user);
    assert!(debug_str.contains("testuser"));
    assert!(debug_str.contains("github"));
}

#[test]
fn new_user_is_active_and_without_profile() {
    let user = new_user(7, OAuthProvider::Github, "42".to_string(), 1_700_000_000);
    assert_eq!(
        user,
        Model {
            id: 7,
            username: None,
            email: None,
            is_active: true,
            idp: "github".to_string(),
            idp_uid: "42".to_string(),
            created_at: 1_700_000_000,
            updated_at: 1_700_000_000,
        }
    );
}

#[test]
fn known_user_is_returned_unchanged() {
    let known = Model {
        id: 99,
        username: Some("octo".to_string()),
        email: Some("octo@example.com".to_string()),
        is_active: false,
        idp: "github".to_string(),
        idp_uid: "42".to_string(),
        created_at: 10,
        updated_at: 20,
    };
    match get_or_create_user_if_not_exist(Some(known.clone()), OAuthProvider::Github, "42".to_string())
    {
        UserResolution::Existing(user) => assert_eq!(user, known),
        UserResolution::Create(_) => panic!("a known user must not be created again"),
    }
}

#[test]
fn unknown_user_is_created_with_a_fresh_id() {
    let before = chrono::Utc::now().timestamp();
    let first = get_or_create_user_if_not_exist(None, OAuthProvider::Github, "42".to_string());
    let second = get_or_create_user_if_not_exist(None, OAuthProvider::Github, "43".to_string());
    let after = chrono::Utc::now().timestamp();
    match (first, second) {
        (UserResolution::Create(a), UserResolution::Create(b)) => {
            assert_ne!(a.id, b.id);
            assert_eq!(a.idp, "github");
            assert_eq!(a.idp_uid, "42");
            assert_eq!(b.idp_uid, "43");
            assert!(a.is_active);
            assert_eq!(a.username, None);
            assert_eq!(a.email, None);
            assert_eq!(a.created_at, a.updated_at);
            assert!(before <= a.created_at && a.created_at <= after);
            assert!(a.created_at.abs() < 0x1_0000_0000_0000);
            assert_eq!(uuid::Uuid::from_u128(a.id).get_version_num(), 7);
        }
        _ => panic!("an unknown user must be created"),
    }
}

#[test]
fn get_or_create_twice_gives_one_row_and_one_id() {
    let mut rows: Vec<Model> = Vec::new();
    let first = resolve_in(&mut rows, OAuthProvider::Github, "42");
    let second = resolve_in(&mut rows, OAuthProvider::Github, "42");
    assert_eq!(first.id, second.id);
    assert_eq!(first, second);
    assert_eq!(rows.len(), 1);
    let other = resolve_in(&mut rows, OAuthProvider::Github, "7");
    assert_ne!(other.id, first.id);
    assert_eq!(rows.len(), 2);
    let again = resolve_in(&mut rows, OAuthProvider::Github, "42");
    assert_eq!(again.id, first.id);
    assert_eq!(rows.len(), 2);
}
