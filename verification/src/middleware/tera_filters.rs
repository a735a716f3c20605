//! The value filters the page templates use.

use vstd::prelude::*;

use crate::amount::{decimal_parse, decimal_text_2dp, Amount};
use crate::entity::user::{role_keyword, Role};
use crate::text::{concat, trim_spec};

use super::permissions::{role_set, role_set_keyword};

verus! {

/// The user's role (given by name) is in the named role set.
pub open spec fn can_spec(role: Option<Seq<char>>, set: Option<Seq<char>>) -> bool {
    &&& role matches Some(r) && role_keyword(trim_spec(r)) is Some
    &&& set matches Some(s) && role_set_keyword(trim_spec(s)) is Some
    &&& role_set_keyword(trim_spec(set.unwrap())).unwrap().contains(
        role_keyword(trim_spec(role.unwrap())).unwrap(),
    )
}

/// The text of an optional string slice.
pub open spec fn opt_text(s: Option<&str>) -> Option<Seq<char>> {
    match s {
        Some(t) => Some(t@),
        None => None,
    }
}

/// Showing or hiding a part of a page by role: whether the role named by
/// the value is in the role set named by the `set` argument; false when
/// either is missing or unknown.
pub fn can(role: Option<&str>, set: Option<&str>) -> (r: bool)
    ensures
        r == can_spec(opt_text(role), opt_text(set)),
{
    let parsed = match role {
        Some(t) => Role::parse(t),
        None => None,
    };
    let allowed = match set {
        Some(s) => role_set(s),
        None => None,
    };
    match (parsed, allowed) {
        (Some(r), Some(roles)) => super::permissions::contains_role(roles.as_slice(), r),
        _ => false,
    }
}

/// Money formatting: a value that parses as a decimal is shown as `S$`
/// followed by the amount to two places; any other value is left as it is
/// (`None`).
pub fn money(value: &str) -> (r: Option<String>)
    ensures
        r is Some <==> decimal_parse(value@) is Some,
        r matches Some(t) ==> t@ == "S$"@ + decimal_text_2dp(decimal_parse(value@).unwrap()),
{
    match Amount::parse(value) {
        Some(d) => Some(concat("S$", d.to_text_2dp().as_str())),
        None => None,
    }
}

} // verus!
