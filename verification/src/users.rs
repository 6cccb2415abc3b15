//! The user store: registration and sign-in.

use vstd::prelude::*;
use vstd::string::*;

use crate::store::{keys_of, lookup, upsert, Registry};
use crate::text::hex;
use crate::types::user::{LoginResult, LoginResultView, User, UserView};
use crate::utils::{simple_hash, simple_hash_value};

verus! {

/// Registered users by name, in the order of registration.
pub type UserStore = Registry<User>;

/// The stored form of a password.
pub open spec fn password_hash_text(password: Seq<char>) -> Seq<char> {
    hex(simple_hash_value(password))
}

/// The answer to a registration.
pub open spec fn registration_answer(
    users: Seq<(Seq<char>, UserView)>,
    username: Seq<char>,
    password: Seq<char>,
) -> LoginResultView {
    if username.len() == 0 || password.len() == 0 {
        LoginResultView {
            success: false,
            message: "Username and password cannot be empty"@,
            username: None,
        }
    } else if lookup(users, username) is Some {
        LoginResultView { success: false, message: "Username already exists"@, username: None }
    } else {
        LoginResultView {
            success: true,
            message: "User registered successfully"@,
            username: Some(username),
        }
    }
}

/// The answer to a sign-in.
pub open spec fn login_answer(
    users: Seq<(Seq<char>, UserView)>,
    username: Seq<char>,
    password: Seq<char>,
) -> LoginResultView {
    if username.len() == 0 || password.len() == 0 {
        LoginResultView {
            success: false,
            message: "Username and password cannot be empty"@,
            username: None,
        }
    } else {
        match lookup(users, username) {
            None => LoginResultView { success: false, message: "User not found"@, username: None },
            Some(user) => if user.password_hash == password_hash_text(password) {
                LoginResultView {
                    success: true,
                    message: "Login successful"@,
                    username: Some(username),
                }
            } else {
                LoginResultView { success: false, message: "Invalid password"@, username: None }
            },
        }
    }
}

/// An answer that reports a failure.
fn refusal(message: &str) -> (r: LoginResult)
    ensures
        r@ == (LoginResultView { success: false, message: message@, username: None }),
{
    LoginResult { success: false, message: String::from_str(message), username: None }
}

/// Registers `username` at `now`, unless a name or password is empty or the
/// name is taken; the store changes only on success.
pub fn register_user(users: &mut UserStore, now: u64, username: String, password: String) -> (r:
    LoginResult)
    ensures
        r@ == registration_answer(old(users)@, username@, password@),
        r.success ==> final(users)@ == upsert(
            old(users)@,
            username@,
            UserView {
                username: username@,
                password_hash: password_hash_text(password@),
                created_at: now,
            },
        ),
        !r.success ==> final(users)@ == old(users)@,
{
    if username.as_str().is_empty() || password.as_str().is_empty() {
        return refusal("Username and password cannot be empty");
    }
    if users.contains_key(&username) {
        return refusal("Username already exists");
    }
    let user = User {
        username: username.clone(),
        password_hash: simple_hash(password.as_str()),
        created_at: now,
    };
    users.insert(username.clone(), user);
    LoginResult {
        success: true,
        message: String::from_str("User registered successfully"),
        username: Some(username),
    }
}

/// Signs `username` in where the password's checksum is the stored one.
pub fn login(users: &UserStore, username: String, password: String) -> (r: LoginResult)
    ensures
        r@ == login_answer(users@, username@, password@),
{
    if username.as_str().is_empty() || password.as_str().is_empty() {
        return refusal("Username and password cannot be empty");
    }
    match users.get(&username) {
        None => refusal("User not found"),
        Some(user) => {
            let password_hash = simple_hash(password.as_str());
            if user.password_hash == password_hash {
                LoginResult {
                    success: true,
                    message: String::from_str("Login successful"),
                    username: Some(username),
                }
            } else {
                refusal("Invalid password")
            }
        },
    }
}

/// The names of all users, in the order of registration.
pub fn get_all_users(users: &UserStore) -> (r: Vec<String>)
    ensures
        r.deep_view() == keys_of(users@),
{
    let mut out: Vec<String> = Vec::new();
    let mut i: usize = 0;
    while i < users.len()
        invariant
            i <= users@.len(),
            out.len() == i,
            forall|j: int| 0 <= j < i ==> (#[trigger] out@[j])@ == users@[j].0,
        decreases users@.len() - i,
    {
        out.push(users.key_at(i).clone());
        i = i + 1;
    }
    assert(out.deep_view() =~= keys_of(users@));
    out
}

/// Name and registration time of `username`.
pub fn get_user_info(users: &UserStore, username: &String) -> (r: Option<(String, u64)>)
    ensures
        match lookup(users@, username@) {
            Some(user) => r is Some && ({
                let (name, created_at) = r->0;
                name@ == user.username && created_at == user.created_at
            }),
            None => r is None,
        },
{
    match users.get(username) {
        Some(user) => Some((user.username.clone(), user.created_at)),
        None => None,
    }
}

/// Number of registered users.
pub fn get_user_count(users: &UserStore) -> (n: usize)
    ensures
        n == users@.len(),
{
    users.len()
}

} // verus!
