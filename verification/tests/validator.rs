use tagged_values::validator::check_access;
use tagged_values::validator::create_user_safe;
use tagged_values::validator::find_user;
use tagged_values::validator::get_user_permissions;
use tagged_values::validator::process_file;
use tagged_values::validator::process_user;
use tagged_values::validator::validate_age;
use tagged_values::validator::validate_email;
use tagged_values::validator::Role;
use tagged_values::validator::User;
use tagged_values::validator::ValidationError;

#[test]
fn validate_age_accepts_the_whole_range() {
    assert!(matches!(validate_age(0), Ok(0)));
    assert!(matches!(validate_age(150), Ok(150)));
    assert!(matches!(validate_age(30), Ok(30)));
}

#[test]
fn validate_age_rejects_both_boundaries() {
    match validate_age(-1) {
        Err(ValidationError::InvalidAge(reason)) => {
            assert_eq!(reason, "age must be between 0 and 150");
        }
        _ => panic!("-1 must be rejected as an invalid age"),
    }
    assert!(matches!(validate_age(151), Err(ValidationError::InvalidAge(_))));
}

#[test]
fn validate_email_accepts_one_at_with_both_sides() {
    match validate_email("a@b") {
        Ok(kept) => assert_eq!(kept, "a@b"),
        Err(_) => panic!("a@b must be accepted"),
    }
    assert!(validate_email("alice@example.com").is_ok());
}

#[test]
fn validate_email_rejects_wrong_shapes() {
    assert!(matches!(validate_email("ab"), Err(ValidationError::InvalidEmail(_))));
    assert!(matches!(validate_email("@b"), Err(ValidationError::InvalidEmail(_))));
    assert!(matches!(validate_email("a@"), Err(ValidationError::InvalidEmail(_))));
    assert!(matches!(validate_email(""), Err(ValidationError::InvalidEmail(_))));
    assert!(matches!(validate_email("a@b@c"), Err(ValidationError::InvalidEmail(_))));
}

#[test]
fn create_user_safe_builds_a_full_record() {
    match create_user_safe("Alice", 30, "alice@example.com") {
        Ok(user) => {
            assert_eq!(user.name, "Alice");
            assert_eq!(user.age, Some(30));
            assert_eq!(user.email.as_deref(), Some("alice@example.com"));
            assert!(matches!(user.role, Role::User));
            assert!(user.active);
        }
        Err(_) => panic!("a valid name, age and email must build a user"),
    }
}

#[test]
fn create_user_safe_reports_the_age_first() {
    // Both fields are wrong; the age is checked first, so its failure
    // is the one returned, unmodified.
    assert!(matches!(
        create_user_safe("Alice", 200, "not-an-email"),
        Err(ValidationError::InvalidAge(_))
    ));
    assert!(matches!(
        create_user_safe("Alice", 30, "not-an-email"),
        Err(ValidationError::InvalidEmail(_))
    ));
}

#[test]
fn find_user_knows_exactly_two_ids() {
    let alice = find_user(1).expect("id 1 is known");
    assert_eq!(alice.name, "Alice");
    assert!(matches!(alice.role, Role::Admin));
    assert!(alice.active);
    let bob = find_user(2).expect("id 2 is known");
    assert_eq!(bob.name, "Bob");
    assert!(!bob.active);
    assert!(find_user(3).is_none());
    assert!(find_user(0).is_none());
}

#[test]
fn check_access_orders_its_checks() {
    assert_eq!(check_access("", "secret", true), "denied: missing credentials");
    assert_eq!(check_access("alice", "", true), "denied: missing credentials");
    assert_eq!(check_access("", "", false), "denied: missing credentials");
    assert_eq!(check_access("alice", "secret", false), "denied: account inactive");
    assert_eq!(check_access("alice", "secret", true), "access granted");
}

#[test]
fn permissions_follow_role_and_activity() {
    let mut user = User {
        name: "Alice".to_string(),
        age: None,
        email: None,
        role: Role::Admin,
        active: true,
    };
    assert_eq!(get_user_permissions(&user), vec!["read", "write", "delete"]);
    user.role = Role::User;
    assert_eq!(get_user_permissions(&user), vec!["read", "write"]);
    user.role = Role::Guest;
    assert_eq!(get_user_permissions(&user), vec!["read"]);
    user.active = false;
    user.role = Role::Admin;
    assert_eq!(get_user_permissions(&user), Vec::<&str>::new());
}

#[test]
fn process_user_renders_the_age_only_when_known() {
    let with_age = User {
        name: "Alice".to_string(),
        age: Some(25),
        email: None,
        role: Role::User,
        active: true,
    };
    assert_eq!(process_user(&with_age), "Alice -  (age: 25)");
    let without_age = User {
        name: "Bob".to_string(),
        age: None,
        email: None,
        role: Role::User,
        active: true,
    };
    assert_eq!(process_user(&without_age), "Bob - ");
}

#[test]
fn process_file_accepts_only_txt_names() {
    assert_eq!(process_file("notes.txt"), Ok("processed notes.txt".to_string()));
    assert_eq!(process_file(""), Err("no file name given".to_string()));
    assert_eq!(process_file("notes.pdf"), Err("unsupported file type".to_string()));
    assert_eq!(process_file("txt"), Err("unsupported file type".to_string()));
    assert_eq!(process_file(".txt"), Ok("processed .txt".to_string()));
}
