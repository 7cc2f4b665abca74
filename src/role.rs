use vstd::prelude::*;

verus! {

/// The two privilege levels. An `Admin` may do everything a `User` may.
#[derive(Clone, Copy, Debug, PartialEq, Eq, Structural)]
pub enum Role {
    User,
    Admin,
}

/// The canonical text of a role, as it is embedded in a token.
pub open spec fn role_text(r: Role) -> Seq<char> {
    match r {
        Role::User => "user"@,
        Role::Admin => "admin"@,
    }
}

/// The role whose canonical text is `s`, if any.
pub open spec fn role_from_text(s: Seq<char>) -> Option<Role> {
    if s == "user"@ {
        Some(Role::User)
    } else if s == "admin"@ {
        Some(Role::Admin)
    } else {
        None
    }
}

/// Whether holding `held` is enough for an operation that asks for `required`.
pub open spec fn role_satisfies(held: Role, required: Role) -> bool {
    held == Role::Admin || required == Role::User
}

/// The two canonical texts differ, so parsing a role's text gives the role back.
pub proof fn lemma_role_text_round_trip(r: Role)
    ensures
        role_from_text(role_text(r)) == Some(r),
{
    reveal_strlit("user");
    reveal_strlit("admin");
    assert("user"@[0] != "admin"@[0]);
}

impl Role {
    /// Parses the canonical text of a role; any other text is refused.
    pub fn from_str(role: &str) -> (r: Option<Role>)
        ensures
            r == role_from_text(role@),
    {
        let text = role.to_owned();
        let user = "user".to_owned();
        let admin = "admin".to_owned();
        if text == user {
            Some(Role::User)
        } else if text == admin {
            Some(Role::Admin)
        } else {
            None
        }
    }

    /// The canonical text of the role.
    pub fn as_str(&self) -> (r: &'static str)
        ensures
            r@ == role_text(*self),
    {
        match self {
            Role::User => "user",
            Role::Admin => "admin",
        }
    }

    /// Whether this role is enough for an operation that asks for `required`.
    pub fn satisfies(&self, required: Role) -> (r: bool)
        ensures
            r == role_satisfies(*self, required),
    {
        match self {
            Role::Admin => true,
            Role::User => required == Role::User,
        }
    }
}

} // verus!
