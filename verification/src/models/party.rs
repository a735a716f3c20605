//! Parties (customers and vendors): parsing their kinds, building and
//! updating their records, and their statistics.

use vstd::prelude::*;

use crate::calendar::DateTime;
use crate::models::paging::{
    as_ints, clamp_spec, contains_ic, contains_ignore_ascii_case, lemma_page_positions, matching,
    page_of_matches, page_slice, pages_for, search_term, search_term_spec,
};
use crate::entity::party as party_entity;
use crate::entity::party::{PartyStatus, PartyType};
use crate::text::{ascii_lower, clone_opt, eq_ic, lemma_trim_plain, eq_ignore_ascii_case, lowercase_text, to_lowercase, trim, trim_spec};

verus! {

/// The party type a keyword names, compared ignoring ASCII case.
pub open spec fn party_type_keyword(k: Seq<char>) -> Option<PartyType> {
    if eq_ic(k, "customer"@) {
        Some(PartyType::Customer)
    } else if eq_ic(k, "vendor"@) {
        Some(PartyType::Vendor)
    } else {
        None
    }
}

/// The party status a keyword names, compared ignoring ASCII case.
pub open spec fn party_status_keyword(k: Seq<char>) -> Option<PartyStatus> {
    if eq_ic(k, "active"@) {
        Some(PartyStatus::Active)
    } else if eq_ic(k, "inactive"@) {
        Some(PartyStatus::Inactive)
    } else {
        None
    }
}

/// Every party type's label parses back to the type.
pub proof fn lemma_party_type_label_parses(t: PartyType)
    ensures
        party_type_keyword(trim_spec(t.spec_label())) == Some(t),
{
    reveal_strlit("Customer");
    reveal_strlit("customer");
    reveal_strlit("Vendor");
    reveal_strlit("vendor");
    let l = t.spec_label();
    lemma_trim_plain(l);
    assert(ascii_lower('C') == 'c');
    assert(ascii_lower('V') == 'v');
    match t {
        PartyType::Customer => {
            assert(eq_ic(l, "customer"@));
        },
        PartyType::Vendor => {
            assert(!eq_ic(l, "customer"@));
            assert(eq_ic(l, "vendor"@));
        },
    }
}

/// Every party status's label parses back to the status.
pub proof fn lemma_party_status_label_parses(s: PartyStatus)
    ensures
        party_status_keyword(trim_spec(s.spec_label())) == Some(s),
{
    reveal_strlit("Active");
    reveal_strlit("active");
    reveal_strlit("Inactive");
    reveal_strlit("inactive");
    let l = s.spec_label();
    lemma_trim_plain(l);
    assert(ascii_lower('A') == 'a');
    assert(ascii_lower('I') == 'i');
    match s {
        PartyStatus::Active => {
            assert(eq_ic(l, "active"@));
        },
        PartyStatus::Inactive => {
            assert(!eq_ic(l, "active"@));
            assert(eq_ic(l, "inactive"@));
        },
    }
}

impl PartyType {
    /// Parses a party type, ignoring surrounding whitespace and ASCII case.
    pub fn parse(s: &str) -> (r: Option<PartyType>)
        ensures
            r == party_type_keyword(trim_spec(s@)),
    {
        let t = trim(s);
        if eq_ignore_ascii_case(t, "customer") {
            Some(PartyType::Customer)
        } else if eq_ignore_ascii_case(t, "vendor") {
            Some(PartyType::Vendor)
        } else {
            None
        }
    }
}

impl PartyStatus {
    /// Parses a party status, ignoring surrounding whitespace and ASCII case.
    pub fn parse(s: &str) -> (r: Option<PartyStatus>)
        ensures
            r == party_status_keyword(trim_spec(s@)),
    {
        let t = trim(s);
        if eq_ignore_ascii_case(t, "active") {
            Some(PartyStatus::Active)
        } else if eq_ignore_ascii_case(t, "inactive") {
            Some(PartyStatus::Inactive)
        } else {
            None
        }
    }
}

/// A party as the application handles it.
#[derive(Clone, Debug)]
pub struct Party {
    pub id: i32,
    pub party_type: PartyType,
    pub name: String,
    pub company: Option<String>,
    pub email: String,
    pub phone: String,
    pub address: String,
    pub status: PartyStatus,
    pub created_at: DateTime,
    pub updated_at: DateTime,
}

/// A party record to insert (its id is assigned by the database).
#[derive(Clone, Debug)]
pub struct NewParty {
    pub party_type: PartyType,
    pub name: String,
    pub company: Option<String>,
    pub email: String,
    pub phone: String,
    pub address: String,
    pub status: PartyStatus,
    pub created_at: DateTime,
    pub updated_at: DateTime,
}

/// How an e-mail address is stored: trimmed, then lowercased.
pub open spec fn normalized_email(s: Seq<char>) -> Seq<char> {
    lowercase_text(trim_spec(s))
}

fn normalize_email(email: &str) -> (r: String)
    ensures
        r@ == normalized_email(email@),
{
    to_lowercase(trim(email))
}

fn opt_string(s: Option<&str>) -> (r: Option<String>)
    ensures
        match s {
            Some(t) => r matches Some(u) && u@ == t@,
            None => r is None,
        },
{
    match s {
        Some(t) => Some(String::from_str(t)),
        None => None,
    }
}

impl Party {
    /// The party of a record.
    pub fn from_model(m: party_entity::Model) -> (r: Party)
        ensures
            r.id == m.id && r.party_type == m.party_type && r.name == m.name && r.company
                == m.company && r.email == m.email && r.phone == m.phone && r.address == m.address
                && r.status == m.status && r.created_at == m.created_at && r.updated_at
                == m.updated_at,
    {
        Party {
            id: m.id,
            party_type: m.party_type,
            name: m.name,
            company: m.company,
            email: m.email,
            phone: m.phone,
            address: m.address,
            status: m.status,
            created_at: m.created_at,
            updated_at: m.updated_at,
        }
    }

    /// A field-by-field copy.
    pub fn copy(&self) -> (r: Party)
        ensures
            r == *self,
    {
        Party {
            id: self.id,
            party_type: self.party_type,
            name: self.name.clone(),
            company: clone_opt(&self.company),
            email: self.email.clone(),
            phone: self.phone.clone(),
            address: self.address.clone(),
            status: self.status,
            created_at: self.created_at,
            updated_at: self.updated_at,
        }
    }

    /// The record of a new party: active, its e-mail trimmed and lowercased,
    /// created and updated `now`.
    pub fn create(
        party_type: PartyType,
        name: &str,
        company: Option<&str>,
        email: &str,
        phone: &str,
        address: &str,
        now: DateTime,
    ) -> (r: NewParty)
        ensures
            r.party_type == party_type,
            r.name@ == name@,
            match company {
                Some(c) => r.company matches Some(rc) && rc@ == c@,
                None => r.company is None,
            },
            r.email@ == normalized_email(email@),
            r.phone@ == phone@,
            r.address@ == address@,
            r.status == PartyStatus::Active,
            r.created_at == now,
            r.updated_at == now,
    {
        NewParty {
            party_type,
            name: String::from_str(name),
            company: opt_string(company),
            email: normalize_email(email),
            phone: String::from_str(phone),
            address: String::from_str(address),
            status: PartyStatus::Active,
            created_at: now,
            updated_at: now,
        }
    }

    /// The party with each given field replaced (`company: Some(None)` clears
    /// the company), the e-mail trimmed and lowercased, and `updated_at` set
    /// to `now`; the other fields are kept.
    pub fn update(
        &self,
        party_type: Option<PartyType>,
        name: Option<&str>,
        company: Option<Option<&str>>,
        email: Option<&str>,
        phone: Option<&str>,
        address: Option<&str>,
        now: DateTime,
    ) -> (r: Party)
        ensures
            r.id == self.id,
            r.party_type == (match party_type {
                Some(t) => t,
                None => self.party_type,
            }),
            r.name@ == (match name {
                Some(n) => n@,
                None => self.name@,
            }),
            match company {
                Some(Some(c)) => r.company matches Some(rc) && rc@ == c@,
                Some(None) => r.company is None,
                None => r.company == self.company,
            },
            r.email@ == (match email {
                Some(e) => normalized_email(e@),
                None => self.email@,
            }),
            r.phone@ == (match phone {
                Some(p) => p@,
                None => self.phone@,
            }),
            r.address@ == (match address {
                Some(a) => a@,
                None => self.address@,
            }),
            r.status == self.status,
            r.created_at == self.created_at,
            r.updated_at == now,
    {
        let mut party = self.copy();
        if let Some(pt) = party_type {
            party.party_type = pt;
        }
        if let Some(n) = name {
            party.name = String::from_str(n);
        }
        if let Some(c) = company {
            party.company = opt_string(c);
        }
        if let Some(e) = email {
            party.email = normalize_email(e);
        }
        if let Some(p) = phone {
            party.phone = String::from_str(p);
        }
        if let Some(a) = address {
            party.address = String::from_str(a);
        }
        party.updated_at = now;
        party
    }

    /// The party with the given status and `updated_at` set to `now`.
    pub fn set_status(&self, status: PartyStatus, now: DateTime) -> (r: Party)
        ensures
            r.id == self.id && r.party_type == self.party_type && r.name == self.name
                && r.company == self.company && r.email == self.email && r.phone == self.phone
                && r.address == self.address && r.created_at == self.created_at,
            r.status == status,
            r.updated_at == now,
    {
        let mut party = self.copy();
        party.status = status;
        party.updated_at = now;
        party
    }
}

/// How many of the parties, given by type and status, are active parties
/// of type `t`.
pub open spec fn active_count(parties: Seq<(PartyType, PartyStatus)>, t: PartyType) -> nat
    decreases parties.len(),
{
    if parties.len() == 0 {
        0
    } else {
        active_count(parties.drop_last(), t) + if parties.last().0 == t && parties.last().1
            == PartyStatus::Active {
            1nat
        } else {
            0nat
        }
    }
}

proof fn lemma_active_counts_bounded(parties: Seq<(PartyType, PartyStatus)>)
    ensures
        active_count(parties, PartyType::Customer) + active_count(parties, PartyType::Vendor)
            <= parties.len(),
    decreases parties.len(),
{
    if parties.len() > 0 {
        lemma_active_counts_bounded(parties.drop_last());
    }
}

/// Summary statistics for party records.
#[derive(Clone, Copy, Debug)]
pub struct PartyStats {
    pub total: u64,
    pub active_customers: u64,
    pub active_vendors: u64,
}

impl PartyStats {
    /// Counts the parties, given by type and status: all of them, the
    /// active customers and the active vendors.
    pub fn compute(parties: &[(PartyType, PartyStatus)]) -> (r: PartyStats)
        ensures
            r.total == parties@.len(),
            r.active_customers == active_count(parties@, PartyType::Customer),
            r.active_vendors == active_count(parties@, PartyType::Vendor),
    {
        let mut customers: u64 = 0;
        let mut vendors: u64 = 0;
        let mut i: usize = 0;
        proof {
            assert(parties@.take(0) =~= Seq::<(PartyType, PartyStatus)>::empty());
        }
        while i < parties.len()
            invariant
                0 <= i <= parties@.len(),
                customers == active_count(parties@.take(i as int), PartyType::Customer),
                vendors == active_count(parties@.take(i as int), PartyType::Vendor),
                customers + vendors <= i,
            decreases parties.len() - i,
        {
            let (t, st) = parties[i];
            proof {
                assert(parties@.take(i + 1).drop_last() =~= parties@.take(i as int));
                assert(parties@.take(i + 1).last() == (t, st));
                lemma_active_counts_bounded(parties@.take(i + 1));
            }
            if st == PartyStatus::Active {
                if t == PartyType::Customer {
                    customers = customers + 1;
                } else {
                    vendors = vendors + 1;
                }
            }
            i = i + 1;
        }
        proof {
            assert(parties@.take(parties@.len() as int) =~= parties@);
        }
        PartyStats { total: parties.len() as u64, active_customers: customers, active_vendors: vendors }
    }
}

/// A party is found by a search: its name, or its company where it has one,
/// holds the search term (the text trimmed; ASCII letters compared without
/// case; no text or a blank one finds every party), and its type and status
/// are those asked for.
pub open spec fn party_found(
    q: Option<Seq<char>>,
    party_type: Option<PartyType>,
    status: Option<PartyStatus>,
    m: party_entity::Model,
) -> bool {
    &&& match q {
        None => true,
        Some(s) => match search_term_spec(s) {
            None => true,
            Some(t) => contains_ic(m.name@, t) || (m.company matches Some(c) && contains_ic(c@, t)),
        },
    }
    &&& match party_type {
        Some(p) => m.party_type == p,
        None => true,
    }
    &&& match status {
        Some(st) => m.status == st,
        None => true,
    }
}

/// A party meets the search: when a search term is given, its name holds
/// it or it has a company that holds it; when a type or a status is asked
/// for, it has it.
pub open spec fn meets_party_search(
    q: Option<Seq<char>>,
    party_type: Option<PartyType>,
    status: Option<PartyStatus>,
    m: party_entity::Model,
) -> bool {
    &&& (q matches Some(s) ==> (search_term_spec(s) matches Some(t) ==> contains_ic(m.name@, t) || (
    m.company matches Some(c) && contains_ic(c@, t))))
    &&& (party_type matches Some(p) ==> m.party_type == p)
    &&& (status matches Some(st) ==> m.status == st)
}

/// A search finds a party exactly when the party meets it.
pub proof fn lemma_found_exactly_when_search_met(
    q: Option<Seq<char>>,
    party_type: Option<PartyType>,
    status: Option<PartyStatus>,
    m: party_entity::Model,
)
    ensures
        party_found(q, party_type, status, m) <==> meets_party_search(q, party_type, status, m),
{
}

/// Which of the parties a search finds.
pub open spec fn parties_found(
    q: Option<Seq<char>>,
    party_type: Option<PartyType>,
    status: Option<PartyStatus>,
    models: Seq<party_entity::Model>,
) -> Seq<bool> {
    models.map_values(|m: party_entity::Model| party_found(q, party_type, status, m))
}

/// The view of an optional text.
pub open spec fn opt_text(q: Option<&str>) -> Option<Seq<char>> {
    match q {
        Some(s) => Some(s@),
        None => None,
    }
}

impl Party {
    /// Whether a search finds the party.
    pub fn found_by(
        m: &party_entity::Model,
        q: Option<&str>,
        party_type: Option<PartyType>,
        status: Option<PartyStatus>,
    ) -> (r: bool)
        ensures
            r == party_found(opt_text(q), party_type, status, *m),
            r == meets_party_search(opt_text(q), party_type, status, *m),
    {
        match q {
            Some(s) => match search_term(s) {
                Some(t) => {
                    let in_name = contains_ignore_ascii_case(m.name.as_str(), t.as_str());
                    let in_company = match &m.company {
                        Some(c) => contains_ignore_ascii_case(c.as_str(), t.as_str()),
                        None => false,
                    };
                    if !in_name && !in_company {
                        return false;
                    }
                },
                None => {},
            },
            None => {},
        }
        match party_type {
            Some(p) => {
                if m.party_type != p {
                    return false;
                }
            },
            None => {},
        }
        match status {
            Some(st) => m.status == st,
            None => true,
        }
    }

    /// One page of a party search. `models` are the parties newest first;
    /// those the search finds are cut into pages of `per_page`, and the page
    /// asked for (brought within the pages there are) is picked. Gives the
    /// positions in `models` of the parties on the page shown, in order, the
    /// number of pages and the page shown.
    pub fn search_page(
        models: &[party_entity::Model],
        q: Option<&str>,
        party_type: Option<PartyType>,
        status: Option<PartyStatus>,
        page: u32,
        per_page: u64,
    ) -> (r: (Vec<usize>, u32, u32))
        requires
            per_page > 0,
        ensures
            ({
                let keep = parties_found(opt_text(q), party_type, status, models@);
                &&& (r.1, r.2) == clamp_spec(page, pages_for(matching(keep).len(), per_page as nat) as u64)
                &&& as_ints(r.0@) == page_slice(matching(keep), r.2, per_page as nat)
            }),
            1 <= r.2 <= r.1,
            r.0@.len() <= per_page,
            forall|k: int|
                0 <= k < r.0@.len() ==> (#[trigger] r.0@[k] as int) < models@.len() && party_found(
                    opt_text(q),
                    party_type,
                    status,
                    models@[r.0@[k] as int],
                ) && meets_party_search(opt_text(q), party_type, status, models@[r.0@[k] as int]),
            forall|a: int, b: int| 0 <= a < b < r.0@.len() ==> #[trigger] r.0@[a] < #[trigger] r.0@[b],
    {
        let mut keep: Vec<bool> = Vec::new();
        let mut i: usize = 0;
        while i < models.len()
            invariant
                0 <= i <= models@.len(),
                keep@.len() == i,
                forall|j: int|
                    0 <= j < i ==> #[trigger] keep@[j] == party_found(opt_text(q), party_type, status, models@[j]),
            decreases models.len() - i,
        {
            let b = Party::found_by(&models[i], q, party_type, status);
            keep.push(b);
            i = i + 1;
        }
        proof {
            assert(keep@ =~= parties_found(opt_text(q), party_type, status, models@));
        }
        let r = page_of_matches(&keep, page, per_page);
        proof {
            lemma_page_positions(keep@, r.2, per_page as nat, r.0@);
        }
        r
    }
}

} // verus!
