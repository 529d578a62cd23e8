use vstd::prelude::*;
use crate::strutil::str_eq;

verus! {

/// Closed set of roles a subject can hold. Membership checks are exact:
/// holding `Admin` does not by itself satisfy a `Manager` requirement.
#[derive(Copy, Clone, PartialEq, Eq, Structural, Debug)]
pub enum Role {
    User,
    Manager,
    Admin,
}

/// Canonical string spelling of each role.
pub open spec fn role_name(r: Role) -> Seq<char> {
    match r {
        Role::User => "User"@,
        Role::Manager => "Manager"@,
        Role::Admin => "Admin"@,
    }
}

/// Canonical integer encoding of each role.
pub open spec fn role_code(r: Role) -> i32 {
    match r {
        Role::User => 0,
        Role::Manager => 1,
        Role::Admin => 2,
    }
}

/// Decoding of an integer. Unknown codes deliberately degrade to `User`
/// (lenient default) rather than erroring.
pub open spec fn role_of_code(i: i32) -> Role {
    if i == 1 {
        Role::Manager
    } else if i == 2 {
        Role::Admin
    } else {
        Role::User
    }
}

/// Decoding of a string. Unknown spellings deliberately degrade to `User`
/// (lenient default) rather than erroring.
pub open spec fn role_of_name(s: Seq<char>) -> Role {
    if s == "Manager"@ {
        Role::Manager
    } else if s == "Admin"@ {
        Role::Admin
    } else {
        Role::User
    }
}

impl Role {
    pub fn to_string(&self) -> (r: String)
        ensures
            r@ == role_name(*self),
    {
        match self {
            Role::User => String::from_str("User"),
            Role::Manager => String::from_str("Manager"),
            Role::Admin => String::from_str("Admin"),
        }
    }

    pub fn from_string(s: &str) -> (r: Role)
        ensures
            r == role_of_name(s@),
    {
        if str_eq(s, "Manager") {
            Role::Manager
        } else if str_eq(s, "Admin") {
            Role::Admin
        } else {
            Role::User
        }
    }

    pub fn to_i32(&self) -> (r: i32)
        ensures
            r == role_code(*self),
    {
        match self {
            Role::User => 0,
            Role::Manager => 1,
            Role::Admin => 2,
        }
    }

    pub fn from_i32(i: i32) -> (r: Role)
        ensures
            r == role_of_code(i),
    {
        match i {
            1 => Role::Manager,
            2 => Role::Admin,
            _ => Role::User,
        }
    }
}

impl Default for Role {
    fn default() -> (r: Self)
        ensures
            r == Role::User,
    {
        Role::User
    }
}

/// Law: decoding an encoded role gives the role back, for every defined
/// variant, through both the integer and the string encoding.
pub proof fn lemma_role_roundtrip(r: Role)
    ensures
        role_of_code(role_code(r)) == r,
        role_of_name(role_name(r)) == r,
{
    reveal_strlit("User");
    reveal_strlit("Manager");
    reveal_strlit("Admin");
    assert("User"@.len() == 4);
    assert("Manager"@.len() == 7);
    assert("Admin"@.len() == 5);
}

/// Law: every integer outside the defined encodings decodes to `User`.
pub proof fn lemma_unknown_code_defaults(i: i32)
    requires
        i != role_code(Role::Manager),
        i != role_code(Role::Admin),
    ensures
        role_of_code(i) == Role::User,
{
}

} // verus!
