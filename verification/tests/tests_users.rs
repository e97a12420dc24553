use hotel_booking::models::users::{RegisterRequest, UpdateUserRequest, User};
use hotel_booking::routes::users::{
    apply_profile_update, hash_password, login, profile, register_finish, register_prepare,
    register_validate, update_profile, user_creation_error,
};
use hotel_booking::utils::extract_user_from_token;

const SECRET: &str = "test-secret-key";
const HOURS: i64 = 24;
const NOW: i64 = 1_700_000_000;

fn request(email: &str, password: &str) -> RegisterRequest {
    RegisterRequest {
        email: String::from(email),
        password: String::from(password),
        first_name: String::from("John"),
        last_name: String::from("Doe"),
    }
}

fn stored_user(id: i32, email: &str, password_hash: &str) -> User {
    User {
        id,
        email: String::from(email),
        password_hash: String::from(password_hash),
        first_name: String::from("John"),
        last_name: String::from("Doe"),
        created_at: NOW - 100,
        updated_at: NOW - 100,
    }
}

#[test]
fn test_register_400_invalid_email() {
    let r = register_validate(&request("invalid-email", "password123"));
    let e = r.expect_err("email without @ must be rejected");
    assert_eq!(e.0, 400);
    assert!(e.1.contains("Invalid email"));
}

#[test]
fn test_register_400_short_password() {
    let r = register_validate(&request("user_1@example.com", "123"));
    let e = r.expect_err("short password must be rejected");
    assert_eq!(e.0, 400);
    assert!(e.1.contains("Password"));
}

#[test]
fn test_register_password_length_boundary() {
    assert!(register_validate(&request("user_1@example.com", "12345")).is_err());
    assert!(register_validate(&request("user_1@example.com", "123456")).is_ok());
}

#[test]
fn test_register_password_length_counts_bytes() {
    // three two-byte characters: six bytes, three characters — accepted
    assert!(register_validate(&request("user_1@example.com", "ééé")).is_ok());
    // two two-byte characters plus one ASCII: five bytes — rejected
    assert!(register_validate(&request("user_1@example.com", "éé1")).is_err());
    // two three-byte characters: six bytes — accepted
    assert!(register_validate(&request("user_1@example.com", "€€")).is_ok());
}

#[test]
fn test_register_400_email_already_exists() {
    let (status, message) = user_creation_error(true);
    assert_eq!(status, 400);
    assert_eq!(message, "Email already exists");
    let (status, message) = user_creation_error(false);
    assert_eq!(status, 400);
    assert_eq!(message, "Failed to create user");
}

#[test]
fn test_register_prepare_rejects_and_hashes() {
    assert_eq!(register_prepare(&request("invalid-email", "password123")).unwrap_err().0, 400);
    assert_eq!(register_prepare(&request("a@b.c", "12345")).unwrap_err().0, 400);
    let hash = register_prepare(&request("a@b.c", "123456")).expect("valid input must hash");
    assert_ne!(hash, "123456", "the stored hash must not be the raw password");
}

#[test]
fn test_register_201_created() {
    let req = request("user_1@example.com", "password123");
    register_validate(&req).expect("valid registration input");
    let hash = register_prepare(&req).expect("hashing failed");
    let user = stored_user(1, &req.email, &hash);
    let (status, auth) =
        register_finish(&user, SECRET, HOURS, NOW).expect("registration tail failed");
    assert_eq!(status, 201);
    assert_eq!(auth.user.id, 1);
    assert_eq!(auth.user.email, "user_1@example.com");
    assert_eq!(auth.user.first_name, "John");
    assert_eq!(auth.user.last_name, "Doe");
    let claims = extract_user_from_token(&auth.token, SECRET, NOW)
        .expect("freshly minted token must validate");
    assert_eq!(claims.sub, 1);
    assert_eq!(claims.email, "user_1@example.com");
}

#[test]
fn test_login_200_ok() {
    let hash = hash_password("password123").expect("hashing failed");
    let user = stored_user(11, "login_1@example.com", &hash);
    let auth = login(Some(&user), "password123", SECRET, HOURS, NOW).expect("login failed");
    assert_eq!(auth.user.id, 11);
    assert_eq!(auth.user.email, "login_1@example.com");
    let claims = extract_user_from_token(&auth.token, SECRET, NOW).expect("token must validate");
    assert_eq!(claims.sub, 11);
}

#[test]
fn test_login_400_invalid_email() {
    let r = login(None, "password123", SECRET, HOURS, NOW);
    let e = r.expect_err("unknown email must be rejected");
    assert_eq!(e.0, 400);
    assert!(e.1.contains("Invalid"));
    assert_eq!(e.1, "Invalid email or password");
}

#[test]
fn test_login_400_invalid_password() {
    let hash = hash_password("password123").expect("hashing failed");
    let user = stored_user(12, "login_2@example.com", &hash);
    let r = login(Some(&user), "wrongpassword", SECRET, HOURS, NOW);
    let e = r.expect_err("wrong password must be rejected");
    assert_eq!(e.0, 400);
    assert!(e.1.contains("Invalid"));
    let unknown_email = login(None, "wrongpassword", SECRET, HOURS, NOW).unwrap_err();
    assert_eq!(e, unknown_email, "both rejections must be indistinguishable");
}

#[test]
fn test_profile_200_ok() {
    let user = stored_user(21, "profile_1@example.com", "unused-hash");
    let resp = profile(Some(user)).expect("profile of an existing user");
    assert_eq!(resp.id, 21);
    assert_eq!(resp.email, "profile_1@example.com");
    assert_eq!(resp.first_name, "John");
    assert_eq!(resp.last_name, "Doe");
}

#[test]
fn test_profile_404_user_gone() {
    let e = profile(None).expect_err("missing row must answer 404");
    assert_eq!(e.0, 404);
    assert_eq!(e.1, "User not found");
}

#[test]
fn test_update_profile_200_ok() {
    let user = stored_user(22, "update_1@example.com", "unused-hash");
    let request = UpdateUserRequest {
        first_name: Some(String::from("Jane")),
        last_name: Some(String::from("Smith")),
    };
    let updated = apply_profile_update(&user, &request, NOW);
    assert_eq!(updated.first_name, "Jane");
    assert_eq!(updated.last_name, "Smith");
    assert_eq!(updated.email, "update_1@example.com");
    assert_eq!(updated.id, 22);
    assert_eq!(updated.created_at, NOW - 100);
    assert_eq!(updated.updated_at, NOW);
    let resp = update_profile(Some(updated)).expect("updated row must answer 200");
    assert_eq!(resp.first_name, "Jane");
    assert_eq!(resp.last_name, "Smith");
}

#[test]
fn test_update_profile_partial_keeps_absent_field() {
    let user = stored_user(23, "update_2@example.com", "unused-hash");
    let request = UpdateUserRequest { first_name: Some(String::from("Jane")), last_name: None };
    let updated = apply_profile_update(&user, &request, NOW);
    assert_eq!(updated.first_name, "Jane");
    assert_eq!(updated.last_name, "Doe");
}

#[test]
fn test_update_profile_404_user_gone() {
    let e = update_profile(None).expect_err("missing row must answer 404");
    assert_eq!(e.0, 404);
    assert_eq!(e.1, "User not found");
}
