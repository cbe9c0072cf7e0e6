use ticketing::auth::{
    check_login, dev_login, finish_auth, profile_show, root_redirect, sign_in, start_auth, start_page,
    username_known_feedback, username_taken_feedback, AuthStart, AUTH_TOKEN,
};
use ticketing::ctx::Context;
use ticketing::models::UserCreate;
use ticketing::Error;

#[test]
fn dev_login_accepts_only_dev_password() {
    let ok = dev_login("dev", "password").unwrap();
    assert_eq!(ok.auth_token, "user-1.exp.sign");
    assert_eq!(ok.redirect_to, "/");
    assert_eq!(dev_login("dev", "wrong").err(), Some(Error::LoginFail));
    assert_eq!(dev_login("Dev", "password").err(), Some(Error::LoginFail));
    assert_eq!(dev_login("", "").err(), Some(Error::LoginFail));
    // The refusal is not answered with 200.
    let (status, _) = Error::LoginFail.client_status_and_error();
    assert_ne!(status, 200);
}

#[test]
fn registered_user_can_log_in() {
    let user = UserCreate::from_signup("alice".to_string(), "s3cret");
    assert_eq!(user.username, "alice");
    assert_ne!(user.hashed_password, "s3cret");
    assert!(user.hashed_password.starts_with("$2b$"));
    assert_eq!(user.hashed_password.len(), 60);
    assert!(user.hashed_password.starts_with("$2b$10$"));
    assert_eq!(check_login("s3cret", Some(&user.hashed_password)), Ok(()));
    assert_eq!(check_login("wrong", Some(&user.hashed_password)), Err(Error::LoginFail));
}

#[test]
fn unknown_user_login_fails() {
    assert_eq!(check_login("whatever", None), Err(Error::LoginFail));
}

#[test]
fn known_hash_verifies() {
    let hash = "$2y$05$bvIG6Nmid91Mu9RcmmWZfO5HJIMCT8riNW0hEp8f6/FuA2/mHZFpe";
    assert_eq!(check_login("password", Some(hash)), Ok(()));
    assert_eq!(check_login("Password", Some(hash)), Err(Error::LoginFail));
    assert_eq!(check_login("password", Some("not a hash")), Err(Error::LoginFail));
}

#[test]
fn wrong_password_is_refused_not_answered_with_200() {
    let user = UserCreate::from_signup("dev".to_string(), "password");
    let refused = check_login("wrong", Some(&user.hashed_password)).unwrap_err();
    assert_eq!(refused, Error::LoginFail);
    let (status, _) = refused.client_status_and_error();
    assert_ne!(status, 200);
    assert_eq!(check_login("password", Some(&user.hashed_password)), Ok(()));
}

#[test]
fn hash_with_characters_outside_the_table_is_refused() {
    let salt_with_0080 = format!("$2b$10$\u{80}{}", "a".repeat(51));
    assert_eq!(check_login("password", Some(&salt_with_0080)), Err(Error::LoginFail));
    let with_control = format!("$2b$10$\u{1}{}", "a".repeat(52));
    assert_eq!(check_login("password", Some(&with_control)), Err(Error::LoginFail));
}

#[test]
fn sign_in_sets_token_and_home() {
    let s = sign_in(17);
    assert_eq!(s.auth_token, "user-17.exp.sign");
    assert_eq!(s.redirect_to, "/home");
    assert_eq!(AUTH_TOKEN, "auth-token");
}

#[test]
fn auth_start_cases() {
    assert_eq!(
        start_auth(None),
        AuthStart::Rejected { error: Error::AuthFailNoAuthToken, remove_cookie: true }
    );
    assert_eq!(
        start_auth(Some("garbage".to_string())),
        AuthStart::Rejected { error: Error::AuthFailTokenWrongFormat, remove_cookie: false }
    );
    assert_eq!(start_auth(Some(sign_in(23).auth_token)), AuthStart::LookUpUser(23));
    assert_eq!(start_auth(Some("user-2147483647.x.y".to_string())), AuthStart::LookUpUser(i32::MAX));
    assert_eq!(
        start_auth(Some("user-2147483648.x.y".to_string())),
        AuthStart::Rejected { error: Error::AuthFailTokenWrongFormat, remove_cookie: false }
    );
}

#[test]
fn pages_redirect_when_signed_out() {
    assert_eq!(root_redirect(true), "/home");
    assert_eq!(root_redirect(false), "/login");
    assert_eq!(start_page(Some("bob")).ok().map(|p| p.username), Some("bob"));
    assert_eq!(start_page(None).err(), Some("/login"));
}

#[test]
fn profile_shows_context() {
    let ctx = Context::new(5, "carol");
    let p = profile_show(&ctx);
    assert_eq!(p.username, "carol");
    assert_eq!(p.user_id, 5);
    assert_eq!(ctx.user_id(), 5);
    assert_eq!(ctx.username(), "carol");
}

#[test]
fn username_feedback_messages() {
    assert_eq!(username_taken_feedback("bob", true), "Username already taken");
    assert_eq!(username_taken_feedback("bob", false), "");
    assert_eq!(username_taken_feedback("", true), "");
    assert_eq!(username_known_feedback("bob", true), "Looks fine");
    assert_eq!(username_known_feedback("bob", false), "");
    assert_eq!(username_known_feedback("", true), "");
}

#[test]
fn lookup_result_decides_the_context() {
    let ctx = finish_auth(7, Ok("dora".to_string())).unwrap();
    assert_eq!(ctx.user_id(), 7);
    assert_eq!(ctx.username(), "dora");
    assert_eq!(finish_auth(7, Err(Error::UserIdNotFound)).err().map(|e| e), Some(Error::UserIdNotFound));
}
