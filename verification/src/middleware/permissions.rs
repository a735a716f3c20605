//! Role sets: which roles a route, or a piece of a page, is open to.

use vstd::prelude::*;

use crate::entity::user::Role;
use crate::text::{eq_ic, eq_ignore_ascii_case, trim, trim_spec};

verus! {

/// A named set of roles.
pub trait RoleSet {
    /// The roles of the set, in order.
    spec fn spec_roles() -> Seq<Role>;

    /// The roles of the set, in order.
    fn roles() -> (r: Vec<Role>)
        ensures
            r@ == Self::spec_roles(),
    ;
}

/// Administrators only.
pub struct AdminOnly;

impl RoleSet for AdminOnly {
    open spec fn spec_roles() -> Seq<Role> {
        seq![Role::Admin]
    }

    fn roles() -> (r: Vec<Role>) {
        let mut v: Vec<Role> = Vec::new();
        v.push(Role::Admin);
        proof {
            assert(v@ =~= seq![Role::Admin]);
        }
        v
    }
}

/// The finance staff: administrators and accountants.
pub struct Finance;

impl RoleSet for Finance {
    open spec fn spec_roles() -> Seq<Role> {
        seq![Role::Admin, Role::Accountant]
    }

    fn roles() -> (r: Vec<Role>) {
        let mut v: Vec<Role> = Vec::new();
        v.push(Role::Admin);
        v.push(Role::Accountant);
        proof {
            assert(v@ =~= seq![Role::Admin, Role::Accountant]);
        }
        v
    }
}

/// The role set a name designates (`admin`, `finance`), compared ignoring
/// ASCII case.
pub open spec fn role_set_keyword(k: Seq<char>) -> Option<Seq<Role>> {
    if eq_ic(k, "admin"@) {
        Some(AdminOnly::spec_roles())
    } else if eq_ic(k, "finance"@) {
        Some(Finance::spec_roles())
    } else {
        None
    }
}

/// The roles of a vector, if any.
pub open spec fn opt_roles(r: Option<Vec<Role>>) -> Option<Seq<Role>> {
    match r {
        Some(v) => Some(v@),
        None => None,
    }
}

/// The role set named (surrounding whitespace ignored), if the name is
/// known.
pub fn role_set(name: &str) -> (r: Option<Vec<Role>>)
    ensures
        opt_roles(r) == role_set_keyword(trim_spec(name@)),
{
    let name = trim(name);
    if eq_ignore_ascii_case(name, "admin") {
        Some(AdminOnly::roles())
    } else if eq_ignore_ascii_case(name, "finance") {
        Some(Finance::roles())
    } else {
        None
    }
}

/// Whether a role is among the roles.
pub fn contains_role(roles: &[Role], role: Role) -> (r: bool)
    ensures
        r == roles@.contains(role),
{
    let mut i: usize = 0;
    while i < roles.len()
        invariant
            0 <= i <= roles@.len(),
            forall|j: int| 0 <= j < i ==> roles@[j] != role,
        decreases roles.len() - i,
    {
        if roles[i] == role {
            proof {
                assert(roles@[i as int] == role);
            }
            return true;
        }
        i = i + 1;
    }
    false
}

/// Whether a route requiring the role set `R` admits a user of the role
/// (otherwise the request is forbidden).
pub fn permits<R: RoleSet>(role: Role) -> (r: bool)
    ensures
        r == R::spec_roles().contains(role),
{
    let roles = R::roles();
    contains_role(roles.as_slice(), role)
}

} // verus!
