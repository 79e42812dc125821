use crate::auth::password::{argon2_check, argon2_default_prefix, hash_password};
use vstd::utf8::is_ascii_chars;
use crate::ids::{is_random_uuid, new_uuid_v4};
use vstd::prelude::*;

verus! {

/// A user account to be stored unless one with its e-mail exists.
#[derive(Clone, Debug)]
pub struct NewUser {
    pub id: u128,
    pub full_name: String,
    pub email: String,
    pub hashed_password: String,
    pub role: String,
}

/// `user` is the seeded account with these details, a freshly drawn random
/// identifier, and a hash accepting `password`.
pub open spec fn seeded(
    user: NewUser,
    full_name: Seq<char>,
    email: Seq<char>,
    role: Seq<char>,
    password: Seq<char>,
) -> bool {
    &&& user.full_name@ == full_name
    &&& user.email@ == email
    &&& user.role@ == role
    &&& argon2_check(password, user.hashed_password@) is Ok
    &&& is_random_uuid(user.id)
}

/// Builds one seeded account; the password is short plain text, so its
/// hash cannot fail.
fn seed_user(full_name: &str, email: &str, role: &str, password: &str) -> (r: NewUser)
    requires
        is_ascii_chars(password@),
        password@.len() <= 64,
    ensures
        seeded(r, full_name@, email@, role@, password@),
        argon2_default_prefix().is_prefix_of(r.hashed_password@),
{
    let hashed_password = hash_password(password).unwrap();
    NewUser {
        id: new_uuid_v4(),
        full_name: full_name.to_owned(),
        email: email.to_owned(),
        hashed_password,
        role: role.to_owned(),
    }
}

/// The accounts that seeding stores: an administrator and a member of
/// staff, each with a fresh identifier and the Argon2 hash, under default
/// parameters, of a fixed password.
pub fn seed_users() -> (r: Vec<NewUser>)
    ensures
        r@.len() == 2,
        seeded(r@[0], "Admin"@, "admin@example.com"@, "admin"@, "admin123"@),
        seeded(r@[1], "James Bond"@, "jamesbond@example.com"@, "staff"@, "bond007"@),
        argon2_default_prefix().is_prefix_of(r@[0].hashed_password@),
        argon2_default_prefix().is_prefix_of(r@[1].hashed_password@),
{
    proof {
        reveal_strlit("admin123");
        reveal_strlit("bond007");
    }
    let admin = seed_user("Admin", "admin@example.com", "admin", "admin123");
    let james = seed_user("James Bond", "jamesbond@example.com", "staff", "bond007");
    let mut users: Vec<NewUser> = Vec::new();
    users.push(admin);
    users.push(james);
    users
}

} // verus!
