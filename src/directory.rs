use crate::error::Error;
use crate::jwt::now_timestamp;
use crate::role::{role_from_text, Role};
use crate::token::{create_token_at, expiry_of, issued};
use vstd::prelude::*;

verus! {

/// An entry of the user directory.
pub struct User {
    pub uid: String,
    pub email: String,
    pub password: String,
    /// The canonical text of the user's role.
    pub role: String,
}

/// The credentials presented at login.
pub struct LoginRequest {
    pub email: String,
    pub password: String,
}

/// What a successful login hands back.
pub struct LoginResponse {
    pub token: String,
}

/// `u` has exactly the presented email and password.
pub open spec fn credentials_match(u: User, email: Seq<char>, password: Seq<char>) -> bool {
    u.email@ == email && u.password@ == password
}

/// `i` is the first entry of `users` whose credentials match.
pub open spec fn is_first_match(users: Seq<User>, i: int, email: Seq<char>, password: Seq<char>) -> bool {
    &&& 0 <= i < users.len()
    &&& credentials_match(users[i], email, password)
    &&& forall|j: int| 0 <= j < i ==> !credentials_match(#[trigger] users[j], email, password)
}

/// What logging in as of the time `now` returns: `WrongCredentialError` when
/// no entry matches; for the first matching entry, `JWTTokenCreationError`
/// when its role text is not a role, its subject is empty or the expiry would
/// fall before the epoch, else a token issued at `now` to its subject with its
/// role.
pub open spec fn login_outcome(
    users: Seq<User>,
    email: Seq<char>,
    password: Seq<char>,
    now: i64,
    secret: Seq<u8>,
    r: Result<LoginResponse, Error>,
) -> bool {
    &&& (forall|j: int| 0 <= j < users.len() ==> !credentials_match(#[trigger] users[j], email, password))
        <==> r == Err::<LoginResponse, Error>(Error::WrongCredentialError)
    &&& forall|i: int| #[trigger]
        is_first_match(users, i, email, password) ==> match role_from_text(users[i].role@) {
            None => r == Err::<LoginResponse, Error>(Error::JWTTokenCreationError),
            Some(role) => if users[i].uid@.len() > 0 && expiry_of(now) >= 0 {
                r is Ok && issued(r->Ok_0.token@, users[i].uid@, role, now, secret)
            } else {
                r == Err::<LoginResponse, Error>(Error::JWTTokenCreationError)
            },
        }
}

/// The built-in user directory: one user and one administrator.
pub fn init_users() -> (r: Vec<User>)
    ensures
        r@.len() == 2,
        r@[0].uid@ == "1"@ && r@[0].email@ == "test@example.com"@ && r@[0].password@ == "password"@
            && r@[0].role@ == "user"@,
        r@[1].uid@ == "2"@ && r@[1].email@ == "admin@example.com"@ && r@[1].password@ == "password"@
            && r@[1].role@ == "admin"@,
{
    let mut users: Vec<User> = Vec::new();
    users.push(
        User {
            uid: "1".to_owned(),
            email: "test@example.com".to_owned(),
            password: "password".to_owned(),
            role: "user".to_owned(),
        },
    );
    users.push(
        User {
            uid: "2".to_owned(),
            email: "admin@example.com".to_owned(),
            password: "password".to_owned(),
            role: "admin".to_owned(),
        },
    );
    users
}

/// The index of the first entry with exactly this email and password.
pub fn find_user(users: &[User], email: &str, password: &str) -> (r: Option<usize>)
    ensures
        match r {
            Some(i) => is_first_match(users@, i as int, email@, password@),
            None => forall|j: int|
                0 <= j < users@.len() ==> !credentials_match(#[trigger] users@[j], email@, password@),
        },
{
    let wanted_email = email.to_owned();
    let wanted_password = password.to_owned();
    let mut i: usize = 0;
    while i < users.len()
        invariant
            i <= users@.len(),
            wanted_email@ == email@,
            wanted_password@ == password@,
            forall|j: int| 0 <= j < i ==> !credentials_match(#[trigger] users@[j], email@, password@),
        decreases users@.len() - i,
    {
        let same_email = users[i].email.eq(&wanted_email);
        let same_password = users[i].password.eq(&wanted_password);
        if same_email && same_password {
            return Some(i);
        }
        i += 1;
    }
    None
}

/// Logs in with the presented credentials, as at the time `now`.
pub fn login_at(users: &[User], body: &LoginRequest, now: i64, secret: &[u8]) -> (r: Result<LoginResponse, Error>)
    ensures
        login_outcome(users@, body.email@, body.password@, now, secret@, r),
{
    match find_user(users, body.email.as_str(), body.password.as_str()) {
        None => Err(Error::WrongCredentialError),
        Some(i) => {
            let user = &users[i];
            match Role::from_str(user.role.as_str()) {
                None => Err(Error::JWTTokenCreationError),
                Some(role) => match create_token_at(user.uid.as_str(), &role, now, secret) {
                    Ok(token) => Ok(LoginResponse { token }),
                    Err(e) => Err(e),
                },
            }
        },
    }
}

/// Logs in with the presented credentials at the current time.
pub fn login(users: &[User], body: &LoginRequest, secret: &[u8]) -> (r: Result<LoginResponse, Error>)
    ensures
        exists|now: i64| now >= 0 && #[trigger] login_outcome(users@, body.email@, body.password@, now, secret@, r),
{
    let now = now_timestamp();
    login_at(users, body, now, secret)
}

} // verus!
