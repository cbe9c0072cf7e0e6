//! Signing up, signing in, and telling who a request comes from.
use vstd::prelude::*;

use crate::ctx::{Context, ContextView};
use crate::error::Error;
use crate::models::UserCreate;
use crate::templates::{ProfileTemplate, StartTemplate};
use crate::text::chars_of;
use crate::token::{
    auth_token_value, issued_token_parses_back, issued_token_suffix, parse_token,
    signed_decimal, token_fields, token_prefix,
};

verus! {

/// The name of the cookie that carries the authentication token.
pub const AUTH_TOKEN: &'static str = "auth-token";

// ---------------------------------------------------------------------------
// Password hashes
// ---------------------------------------------------------------------------

/// What `pwhash::bcrypt::verify` answers for a password and a stored hash.
pub uninterp spec fn bcrypt_verifies(password: Seq<char>, hash: Seq<char>) -> bool;

/// Whether every character of `s` lies in U+0020..=U+007F. `pwhash` reads
/// the salt of a stored hash through a table indexed by the character's code
/// minus 0x20; a character outside this range can make it panic.
pub open spec fn hash_chars_in_table(s: Seq<char>) -> bool {
    forall|i: int| 0 <= i < s.len() ==> ' ' <= #[trigger] s[i] && s[i] <= '\u{7f}'
}

/// Calls `pwhash::bcrypt::verify`. Trusted: the answer is `bcrypt_verifies`
/// of the password and the hash (the function re-hashes the password with
/// the cost and salt read from the hash and compares). The hash is asked to
/// hold only characters of U+0020..=U+007F: on U+0080 in the salt, or in
/// builds with overflow checks a character below U+0020, the function panics.
#[verifier::external_body]
fn bcrypt_verify(password: &str, hash: &str) -> (r: bool)
    requires
        hash_chars_in_table(hash@),
    ensures
        r == bcrypt_verifies(password@, hash@),
{
    pwhash::bcrypt::verify(password, hash)
}

/// Whether `c` is a character of bcrypt's Base64 alphabet
/// (`./A-Za-z0-9`).
pub open spec fn is_bcrypt_base64(c: char) -> bool {
    c == '.' || c == '/' || ('A' <= c && c <= 'Z') || ('a' <= c && c <= 'z') || ('0' <= c
        && c <= '9')
}

/// `$2b$10$`, how a hash of the `2b` variant at cost 10 starts.
pub open spec fn bcrypt_2b_cost10_prefix() -> Seq<char> {
    seq!['$', '2', 'b', '$', '1', '0', '$']
}

/// Whether `h` has the form of the hashes that `pwhash::bcrypt::hash` makes:
/// `$2b$10$` followed by 53 characters of bcrypt's Base64 alphabet (22 of
/// salt, 31 of checksum).
pub open spec fn bcrypt_hash_form(h: Seq<char>) -> bool {
    &&& h.len() == 60
    &&& h.take(7) == bcrypt_2b_cost10_prefix()
    &&& forall|i: int| 7 <= i < 60 ==> is_bcrypt_base64(#[trigger] h[i])
}

/// Calls `pwhash::bcrypt::hash`, which salts with random bytes. Trusted: it
/// returns a hash (the function has no error path once the random salt is
/// drawn; it panics only when the system's random source fails), the hash
/// has the form `$2b$10$` + 22 salt + 31 checksum characters of bcrypt's
/// Base64 alphabet (default variant and cost), and `pwhash::bcrypt::verify`
/// accepts the password against it. Which salt comes back is left unsaid.
#[verifier::external_body]
fn bcrypt_hash(password: &str) -> (r: Option<String>)
    ensures
        r is Some,
        r matches Some(h) ==> bcrypt_verifies(password@, h@) && bcrypt_hash_form(h@),
{
    pwhash::bcrypt::hash(password).ok()
}

impl UserCreate {
    /// The user to register for a sign-up with the given name and password:
    /// the name as given, and a bcrypt hash of the password.
    pub fn from_signup(username: String, password: &str) -> (u: UserCreate)
        ensures
            u.username@ == username@,
            bcrypt_verifies(password@, u.hashed_password@),
            bcrypt_hash_form(u.hashed_password@),
            !bcrypt_hash_form(password@) ==> u.hashed_password@ != password@,
    {
        let hashed_password = bcrypt_hash(password).unwrap();
        UserCreate { username, hashed_password }
    }
}

/// What a login attempt comes to, given the stored hash of the user's
/// password (none when no such user exists): it succeeds exactly when the
/// user exists and bcrypt accepts the password against the stored hash. A
/// stored hash with a character outside U+0020..=U+007F is never accepted
/// (bcrypt's hashes are printable ASCII).
pub open spec fn login_check(password: Seq<char>, stored_hash: Option<Seq<char>>) -> core::result::Result<(), Error> {
    match stored_hash {
        Some(h) => if hash_chars_in_table(h) && bcrypt_verifies(password, h) {
            Ok(())
        } else {
            Err(Error::LoginFail)
        },
        None => Err(Error::LoginFail),
    }
}

/// Checks a login attempt: it is refused for an unknown user and for a
/// wrong password.
pub fn check_login(password: &str, stored_hash: Option<&str>) -> (r: core::result::Result<(), Error>)
    ensures
        r == login_check(
            password@,
            match stored_hash {
                Some(h) => Some(h@),
                None => None,
            },
        ),
{
    match stored_hash {
        None => Err(Error::LoginFail),
        Some(h) => {
            if chars_in_table(h) && bcrypt_verify(password, h) {
                Ok(())
            } else {
                Err(Error::LoginFail)
            }
        },
    }
}

fn chars_in_table(s: &str) -> (r: bool)
    ensures
        r == hash_chars_in_table(s@),
{
    let chars = chars_of(s);
    let mut i: usize = 0;
    while i < chars.len()
        invariant
            chars@ == s@,
            i <= chars@.len(),
            forall|m: int| 0 <= m < i ==> ' ' <= #[trigger] chars@[m] && chars@[m] <= '\u{7f}',
        decreases chars.len() - i,
    {
        let c = chars[i];
        if c < ' ' || c > '\u{7f}' {
            return false;
        }
        i = i + 1;
    }
    true
}

/// A user who signed up with a password can log in with it: the hash stored
/// at sign-up, which has bcrypt's form and accepts the password, lets the
/// login through.
pub proof fn registered_password_is_accepted(password: Seq<char>, stored_hash: Seq<char>)
    requires
        bcrypt_hash_form(stored_hash),
        bcrypt_verifies(password, stored_hash),
    ensures
        login_check(password, Some(stored_hash)) == Ok::<(), Error>(()),
{
    assert forall|i: int| 0 <= i < stored_hash.len() implies ' ' <= #[trigger] stored_hash[i]
        && stored_hash[i] <= '\u{7f}' by {
        if i < 7 {
            assert(stored_hash[i] == stored_hash.take(7)[i]);
        }
    }
}

/// A wrong password is refused like an unknown user.
pub proof fn wrong_password_is_refused(password: Seq<char>, stored_hash: Seq<char>)
    requires
        !bcrypt_verifies(password, stored_hash),
    ensures
        login_check(password, Some(stored_hash)) == login_check(password, None),
{
}

// ---------------------------------------------------------------------------
// Signing in
// ---------------------------------------------------------------------------

/// What signing a user in sets: the authentication cookie and the page the
/// client is sent to.
pub struct SignIn {
    pub auth_token: String,
    pub redirect_to: &'static str,
}

/// `/home`
pub open spec fn home_path() -> Seq<char> {
    seq!['/', 'h', 'o', 'm', 'e']
}

/// `/login`
pub open spec fn login_path() -> Seq<char> {
    seq!['/', 'l', 'o', 'g', 'i', 'n']
}

/// The token issued to the user with the given id.
pub open spec fn issued_token(user_id: i32) -> Seq<char> {
    token_prefix() + signed_decimal(user_id as int) + issued_token_suffix()
}

/// Signs in the user with the given id, after a login or a sign-up: the
/// cookie carries the user's token and the client goes to the home page.
pub fn sign_in(user_id: i32) -> (s: SignIn)
    ensures
        s.auth_token@ == issued_token(user_id),
        s.redirect_to@ == home_path(),
{
    proof {
        reveal_strlit("/home");
    }
    SignIn { auth_token: auth_token_value(user_id), redirect_to: "/home" }
}

/// The development login: only user `dev` with password `password` gets in,
/// as user 1, and is sent to the root page.
pub fn dev_login(username: &str, password: &str) -> (r: core::result::Result<SignIn, Error>)
    ensures
        match r {
            Ok(s) => username@ == "dev"@ && password@ == "password"@ && s.auth_token@
                == issued_token(1) && s.redirect_to@ == seq!['/'],
            Err(e) => !(username@ == "dev"@ && password@ == "password"@) && e
                == Error::LoginFail,
        },
{
    let dev = "dev".to_owned();
    let secret = "password".to_owned();
    let name = username.to_owned();
    let pass = password.to_owned();
    if name != dev || pass != secret {
        return Err(Error::LoginFail);
    }
    proof {
        reveal_strlit("/");
    }
    Ok(SignIn { auth_token: auth_token_value(1), redirect_to: "/" })
}

// ---------------------------------------------------------------------------
// Telling who a request comes from
// ---------------------------------------------------------------------------

/// The first step of resolving the context of a request from its cookie.
#[derive(Clone, Copy, Debug, PartialEq, Eq, Structural)]
pub enum AuthStart {
    /// The request has no valid context; `remove_cookie` tells whether the
    /// authentication cookie is to be removed.
    Rejected { error: Error, remove_cookie: bool },
    /// The token names this user id, whose user name is to be looked up.
    LookUpUser(i32),
}

/// How a request's authentication token (none when the cookie is missing)
/// starts the resolution of its context. User ids are `i32`; a token whose
/// id is beyond `i32::MAX` names no user and is rejected as malformed.
pub open spec fn auth_start(token: Option<Seq<char>>) -> AuthStart {
    match token {
        None => AuthStart::Rejected { error: Error::AuthFailNoAuthToken, remove_cookie: true },
        Some(t) => match token_fields(t) {
            Err(e) => AuthStart::Rejected { error: e, remove_cookie: false },
            Ok((id, _, _)) => if id <= i32::MAX {
                AuthStart::LookUpUser(id as i32)
            } else {
                AuthStart::Rejected { error: Error::AuthFailTokenWrongFormat, remove_cookie: false }
            },
        },
    }
}

pub fn start_auth(auth_token: Option<String>) -> (s: AuthStart)
    ensures
        s == auth_start(
            match auth_token {
                Some(t) => Some(t@),
                None => None,
            },
        ),
{
    match auth_token {
        None => AuthStart::Rejected { error: Error::AuthFailNoAuthToken, remove_cookie: true },
        Some(t) => match parse_token(t) {
            Err(e) => AuthStart::Rejected { error: e, remove_cookie: false },
            Ok((id, _exp, _sign)) => if id <= 0x7fff_ffff {
                AuthStart::LookUpUser(id as i32)
            } else {
                AuthStart::Rejected { error: Error::AuthFailTokenWrongFormat, remove_cookie: false }
            },
        },
    }
}

/// The cookie set when a user with a non-negative id signs in leads to that
/// user being looked up.
pub proof fn issued_token_names_its_user(user_id: i32)
    requires
        user_id >= 0,
    ensures
        auth_start(Some(issued_token(user_id))) == AuthStart::LookUpUser(user_id),
{
    issued_token_parses_back(user_id);
}

/// Finishes resolving a request's context once the user named by its token
/// has been looked up.
pub fn finish_auth(user_id: i32, username: core::result::Result<String, Error>) -> (r: core::result::Result<Context, Error>)
    ensures
        match (r, username) {
            (Ok(ctx), Ok(name)) => ctx@ == ContextView { user_id, username: name@ },
            (Err(e), Err(spec_e)) => e == spec_e,
            _ => false,
        },
{
    match username {
        Ok(name) => Ok(Context::new(user_id, name.as_str())),
        Err(e) => Err(e),
    }
}

/// Users with different non-negative ids are issued different tokens.
pub proof fn different_users_get_different_tokens(a: i32, b: i32)
    requires
        a >= 0,
        b >= 0,
        a != b,
    ensures
        issued_token(a) != issued_token(b),
{
    issued_token_parses_back(a);
    issued_token_parses_back(b);
}

// ---------------------------------------------------------------------------
// Pages
// ---------------------------------------------------------------------------

/// Where the root page sends the client: home when signed in, to the login
/// page otherwise.
pub fn root_redirect(signed_in: bool) -> (path: &'static str)
    ensures
        path@ == if signed_in {
            home_path()
        } else {
            login_path()
        },
{
    proof {
        reveal_strlit("/home");
        reveal_strlit("/login");
    }
    if signed_in {
        "/home"
    } else {
        "/login"
    }
}

/// The start page for the named user, or, when no one is signed in, the
/// page the client is sent to instead (the login page).
pub fn start_page<'a>(username: Option<&'a str>) -> (r: core::result::Result<StartTemplate<'a>, &'static str>)
    ensures
        match (r, username) {
            (Ok(page), Some(name)) => page.username@ == name@,
            (Err(path), None) => path@ == login_path(),
            _ => false,
        },
{
    proof {
        reveal_strlit("/login");
    }
    match username {
        Some(name) => Ok(StartTemplate { username: name }),
        None => Err("/login"),
    }
}

/// The profile page of the signed-in user.
pub fn profile_show(ctx: &Context) -> (p: ProfileTemplate)
    ensures
        p.username@ == ctx@.username,
        p.user_id == ctx@.user_id,
{
    ProfileTemplate { username: ctx.username().to_owned(), user_id: ctx.user_id() }
}

/// A user name entered in a form, to be checked as it is typed.
pub struct UserValidationPayload {
    pub username: String,
}

/// What the sign-up form shows about a chosen user name: that it is taken,
/// when it is not empty and a user has it, and nothing otherwise.
pub fn username_taken_feedback(username: &str, found: bool) -> (msg: &'static str)
    ensures
        msg@ == if username@.len() > 0 && found {
            "Username already taken"@
        } else {
            ""@
        },
{
    if !username.is_empty() && found {
        "Username already taken"
    } else {
        ""
    }
}

/// What the login form shows about an entered user name: that it looks fine,
/// when it is not empty and a user has it, and nothing otherwise.
pub fn username_known_feedback(username: &str, found: bool) -> (msg: &'static str)
    ensures
        msg@ == if username@.len() > 0 && found {
            "Looks fine"@
        } else {
            ""@
        },
{
    if !username.is_empty() && found {
        "Looks fine"
    } else {
        ""
    }
}

} // verus!
