//! Users and their roles.

use vstd::prelude::*;

use crate::calendar::DateTime;
use crate::text::{ascii_lower, eq_ic, eq_ignore_ascii_case, lemma_trim_plain, trim, trim_spec};

verus! {

/// A user's role.
#[derive(Clone, Copy, Debug, PartialEq, Eq, Structural)]
pub enum Role {
    Staff,
    Accountant,
    Admin,
}

/// The role a keyword names, compared ignoring ASCII case.
pub open spec fn role_keyword(k: Seq<char>) -> Option<Role> {
    if eq_ic(k, "staff"@) {
        Some(Role::Staff)
    } else if eq_ic(k, "accountant"@) {
        Some(Role::Accountant)
    } else if eq_ic(k, "admin"@) {
        Some(Role::Admin)
    } else {
        None
    }
}

impl Role {
    pub open spec fn spec_label(self) -> Seq<char> {
        match self {
            Role::Staff => "Staff"@,
            Role::Accountant => "Accountant"@,
            Role::Admin => "Admin"@,
        }
    }

    /// The display label.
    pub fn label(&self) -> (r: String)
        ensures
            r@ == self.spec_label(),
    {
        match self {
            Role::Staff => String::from_str("Staff"),
            Role::Accountant => String::from_str("Accountant"),
            Role::Admin => String::from_str("Admin"),
        }
    }

    /// Parses a role name, ignoring surrounding whitespace and ASCII case.
    pub fn parse(s: &str) -> (r: Option<Role>)
        ensures
            r == role_keyword(trim_spec(s@)),
    {
        // Unicode lowercasing followed by comparison with these ASCII
        // keywords accepts exactly the ASCII case-insensitive matches.
        let t = trim(s);
        if eq_ignore_ascii_case(t, "staff") {
            Some(Role::Staff)
        } else if eq_ignore_ascii_case(t, "accountant") {
            Some(Role::Accountant)
        } else if eq_ignore_ascii_case(t, "admin") {
            Some(Role::Admin)
        } else {
            None
        }
    }

    /// All role labels in declaration order.
    pub fn labels() -> (r: Vec<String>)
        ensures
            r@.map_values(|s: String| s@) == seq!["Staff"@, "Accountant"@, "Admin"@],
    {
        let mut v: Vec<String> = Vec::new();
        v.push(Role::Staff.label());
        v.push(Role::Accountant.label());
        v.push(Role::Admin.label());
        proof {
            assert(v@.map_values(|s: String| s@) =~= seq!["Staff"@, "Accountant"@, "Admin"@]);
        }
        v
    }
}

/// Every role's label parses back to the role.
pub proof fn lemma_role_label_parses(r: Role)
    ensures
        role_keyword(trim_spec(r.spec_label())) == Some(r),
{
    reveal_strlit("Staff");
    reveal_strlit("staff");
    reveal_strlit("Accountant");
    reveal_strlit("accountant");
    reveal_strlit("Admin");
    reveal_strlit("admin");
    let l = r.spec_label();
    lemma_trim_plain(l);
    assert(ascii_lower('S') == 's');
    assert(ascii_lower('A') == 'a');
    match r {
        Role::Staff => {
            assert(eq_ic(l, "staff"@));
        },
        Role::Accountant => {
            assert(!eq_ic(l, "staff"@));
            assert(eq_ic(l, "accountant"@));
        },
        Role::Admin => {
            assert(!eq_ic(l, "staff"@));
            assert(!eq_ic(l, "accountant"@));
            assert(eq_ic(l, "admin"@));
        },
    }
}

/// Whether a user account may sign in.
#[derive(Clone, Copy, Debug, PartialEq, Eq, Structural)]
pub enum UserStatus {
    Active,
    Disabled,
}

/// The status a keyword names, compared ignoring ASCII case.
pub open spec fn user_status_keyword(k: Seq<char>) -> Option<UserStatus> {
    if eq_ic(k, "active"@) {
        Some(UserStatus::Active)
    } else if eq_ic(k, "disabled"@) {
        Some(UserStatus::Disabled)
    } else {
        None
    }
}

impl UserStatus {
    /// Parses a status name, ignoring surrounding whitespace and ASCII case.
    pub fn parse(s: &str) -> (r: Option<UserStatus>)
        ensures
            r == user_status_keyword(trim_spec(s@)),
    {
        // Unicode lowercasing followed by comparison with these ASCII
        // keywords accepts exactly the ASCII case-insensitive matches.
        let t = trim(s);
        if eq_ignore_ascii_case(t, "active") {
            Some(UserStatus::Active)
        } else if eq_ignore_ascii_case(t, "disabled") {
            Some(UserStatus::Disabled)
        } else {
            None
        }
    }

    /// Whether the status is `Disabled`.
    pub fn disabled(&self) -> (r: bool)
        ensures
            r == (*self == UserStatus::Disabled),
    {
        match self {
            UserStatus::Active => false,
            UserStatus::Disabled => true,
        }
    }
}

/// A user record.
#[derive(Clone, Debug)]
pub struct Model {
    pub id: i32,
    pub email: String,
    pub name: String,
    pub password_hash: String,
    pub role: Role,
    pub disabled: bool,
    pub created_at: DateTime,
    pub updated_at: DateTime,
}

} // verus!
