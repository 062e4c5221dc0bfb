//! The two demonstration accounts created by POST /seed/users.
use vstd::prelude::*;

use crate::clock::is_clock_text;
use crate::errors::AppError;
use crate::models::{SeedResponse, User};
use crate::text::is_uuid_v4_text;
use crate::services::password::{hash_password, is_argon2id_phc, spec_password_matches};

verus! {

/// A demonstration account: name, e-mail, password in clear, role.
#[derive(Debug, Clone, Copy)]
pub struct SeedAccount {
    pub full_name: &'static str,
    pub email: &'static str,
    pub password: &'static str,
    pub role: &'static str,
}

/// The accounts the seed creates: an admin and a staff member.
pub fn seed_accounts() -> (accounts: Vec<SeedAccount>)
    ensures
        accounts@.len() == 2,
        accounts@[0].full_name@ == "Admin User"@,
        accounts@[0].email@ == "admin@example.com"@,
        accounts@[0].password@ == "Admin1234!"@,
        accounts@[0].role@ == "admin"@,
        accounts@[1].full_name@ == "James Bond"@,
        accounts@[1].email@ == "jamesbond@example.com"@,
        accounts@[1].password@ == "Bond007!"@,
        accounts@[1].role@ == "staff"@,
{
    let mut accounts: Vec<SeedAccount> = Vec::new();
    accounts.push(
        SeedAccount {
            full_name: "Admin User",
            email: "admin@example.com",
            password: "Admin1234!",
            role: "admin",
        },
    );
    accounts.push(
        SeedAccount {
            full_name: "James Bond",
            email: "jamesbond@example.com",
            password: "Bond007!",
            role: "staff",
        },
    );
    accounts
}

/// One seed step: an account whose e-mail already exists is skipped; otherwise the
/// user record to insert, with the password hashed.
pub fn seed_user(exists: bool, account: &SeedAccount) -> (user: Result<Option<User>, AppError>)
    ensures
        exists ==> user matches Ok(None),
        !exists ==> match user {
            Ok(Some(u)) => u.full_name@ == account.full_name@ && u.email@ == account.email@
                && u.role@ == account.role@ && spec_password_matches(account.password@, u.hashed_password@)
                == Some(true) && is_argon2id_phc(u.hashed_password@) && (!is_argon2id_phc(
                account.password@,
            ) ==> u.hashed_password@ != account.password@) && is_uuid_v4_text(u.id@)
                && u.created_at@ == u.updated_at@
                && is_clock_text(u.created_at@),
            Ok(None) => false,
            Err(e) => e is Internal,
        },
        !exists && vstd::utf8::encode_utf8(account.password@).len() <= 0xFFFF_FFFF ==> user is Ok,
{
    if exists {
        return Ok(None);
    }
    let hashed = hash_password(account.password)?;
    Ok(Some(User::new(account.full_name, account.email, hashed.as_str(), account.role)))
}

/// The answer of the seed endpoint.
pub fn seed_response() -> (r: SeedResponse)
    ensures
        r.message@ == "Seed complete. Users created (or already existed)."@,
        r.admin_email@ == "admin@example.com"@,
        r.staff_email@ == "jamesbond@example.com"@,
{
    SeedResponse {
        message: "Seed complete. Users created (or already existed).".to_owned(),
        admin_email: "admin@example.com".to_owned(),
        staff_email: "jamesbond@example.com".to_owned(),
    }
}

/// The seed stores no password in clear: each demonstration account that is created
/// gets an Argon2id hash that verifies its password and differs from it.
pub proof fn law_seed_stores_no_plaintext(accounts: Vec<SeedAccount>, i: int, user: User)
    requires
        0 <= i < 2,
        accounts@.len() == 2,
        accounts@[0].password@ == "Admin1234!"@,
        accounts@[1].password@ == "Bond007!"@,
        is_argon2id_phc(user.hashed_password@),
        spec_password_matches(accounts@[i].password@, user.hashed_password@) == Some(true),
    ensures
        user.hashed_password@ != accounts@[i].password@,
        spec_password_matches(accounts@[i].password@, user.hashed_password@) == Some(true),
{
    reveal_strlit("$argon2id$v=19$");
    reveal_strlit("Admin1234!");
    reveal_strlit("Bond007!");
    let h = user.hashed_password@;
    assert(h.subrange(0, 15)[0] == h[0]);
    assert(h[0] == '$');
}

} // verus!
