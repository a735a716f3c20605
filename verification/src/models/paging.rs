//! Searching and paging lists: the term a search box holds, matched the way
//! SQLite's `LIKE '%term%'` matches (ASCII letters without case), and the
//! pages a list is cut into.

use vstd::prelude::*;

use crate::text::{eq_ic, eq_ignore_ascii_case, trim, trim_spec};

verus! {

/// `needle` occurs in `hay`, ASCII letters compared without case.
pub open spec fn contains_ic(hay: Seq<char>, needle: Seq<char>) -> bool {
    exists|i: int|
        0 <= i && i + needle.len() <= hay.len() && #[trigger] eq_ic(
            hay.subrange(i, i + needle.len()),
            needle,
        )
}

/// Whether `needle` occurs in `hay`, ASCII letters compared without case.
pub fn contains_ignore_ascii_case(hay: &str, needle: &str) -> (r: bool)
    ensures
        r == contains_ic(hay@, needle@),
{
    let n = hay.unicode_len();
    let m = needle.unicode_len();
    if m > n {
        return false;
    }
    let mut i: usize = 0;
    while i <= n - m
        invariant
            m <= n,
            n == hay@.len(),
            m == needle@.len(),
            i <= n - m + 1,
            forall|k: int|
                0 <= k < i ==> !eq_ic(#[trigger] hay@.subrange(k, k + needle@.len()), needle@),
        decreases n - m + 1 - i,
    {
        let sub = hay.substring_char(i, i + m);
        if eq_ignore_ascii_case(sub, needle) {
            return true;
        }
        i = i + 1;
    }
    proof {
        assert forall|k: int|
            0 <= k && k + needle@.len() <= hay@.len() implies !#[trigger] eq_ic(
            hay@.subrange(k, k + needle@.len()),
            needle@,
        ) by {
            assert(k < i);
        }
    }
    false
}

/// The term a search text stands for: the text without its surrounding
/// whitespace, or none when nothing is left of it.
pub open spec fn search_term_spec(q: Seq<char>) -> Option<Seq<char>> {
    if trim_spec(q).len() == 0 {
        None
    } else {
        Some(trim_spec(q))
    }
}

/// The term a search text stands for: the text trimmed, none when blank.
pub fn search_term(q: &str) -> (r: Option<String>)
    ensures
        match search_term_spec(q@) {
            Some(t) => r matches Some(s) && s@ == t,
            None => r is None,
        },
{
    let t = trim(q);
    if t.unicode_len() == 0 {
        None
    } else {
        Some(t.to_string())
    }
}

/// A text matches an optional search: there is no search, it is blank, or
/// its term occurs in the text.
pub open spec fn search_hits(q: Option<Seq<char>>, text: Seq<char>) -> bool {
    match q {
        None => true,
        Some(s) => match search_term_spec(s) {
            None => true,
            Some(t) => contains_ic(text, t),
        },
    }
}

/// The number of pages of `per_page` items that `n` items fill, the last
/// one possibly partial (how sea_orm's paginator counts).
pub open spec fn pages_for(n: nat, per_page: nat) -> nat {
    if n % per_page == 0 {
        n / per_page
    } else {
        n / per_page + 1
    }
}

/// The pages shown for a list of `num_pages` pages when page `page` is
/// asked for: there is always at least one page (at most `u32::MAX` are
/// counted), and the page shown is the one asked for, brought up to the
/// first or down to the last.
pub open spec fn clamp_spec(page: u32, num_pages: u64) -> (u32, u32) {
    let total: u32 = if num_pages == 0 {
        1
    } else if num_pages > u32::MAX {
        u32::MAX
    } else {
        num_pages as u32
    };
    let current: u32 = if page < 1 {
        1
    } else if page > total {
        total
    } else {
        page
    };
    (total, current)
}

/// The total number of pages and the page to show, as `clamp_spec` says.
pub fn clamp_pagination(page: u32, num_pages: u64) -> (r: (u32, u32))
    ensures
        r == clamp_spec(page, num_pages),
        1 <= r.1 <= r.0,
{
    let total: u32 = if num_pages == 0 {
        1
    } else if num_pages > u32::MAX as u64 {
        u32::MAX
    } else {
        num_pages as u32
    };
    let current: u32 = if page < 1 {
        1
    } else if page > total {
        total
    } else {
        page
    };
    (total, current)
}

/// Positions as integers.
pub open spec fn as_ints(v: Seq<usize>) -> Seq<int> {
    v.map_values(|x: usize| x as int)
}

/// The positions holding `true`, in increasing order.
pub open spec fn matching(keep: Seq<bool>) -> Seq<int>
    decreases keep.len(),
{
    if keep.len() == 0 {
        Seq::empty()
    } else {
        let rest = matching(keep.drop_last());
        if keep.last() {
            rest.push(keep.len() - 1)
        } else {
            rest
        }
    }
}

/// The positions holding `true` are exactly those listed, each once, in
/// increasing order.
pub proof fn lemma_matching(keep: Seq<bool>)
    ensures
        forall|k: int|
            0 <= k < matching(keep).len() ==> 0 <= #[trigger] matching(keep)[k] < keep.len()
                && keep[matching(keep)[k]],
        forall|a: int, b: int|
            0 <= a < b < matching(keep).len() ==> #[trigger] matching(keep)[a] < #[trigger] matching(
                keep,
            )[b],
        forall|i: int| 0 <= i < keep.len() && keep[i] ==> #[trigger] matching(keep).contains(i),
        matching(keep).len() <= keep.len(),
    decreases keep.len(),
{
    if keep.len() > 0 {
        let d = keep.drop_last();
        lemma_matching(d);
        let rest = matching(d);
        assert forall|i: int| 0 <= i < keep.len() && keep[i] implies #[trigger] matching(keep).contains(i) by {
            if i < keep.len() - 1 {
                assert(d[i] == keep[i]);
                assert(rest.contains(i));
                let k = choose|k: int| 0 <= k < rest.len() && rest[k] == i;
                assert(matching(keep)[k] == i);
            } else {
                assert(matching(keep)[rest.len() as int] == i);
            }
        }
        assert forall|k: int|
            0 <= k < matching(keep).len() implies 0 <= #[trigger] matching(keep)[k] < keep.len()
            && keep[matching(keep)[k]] by {
            if k < rest.len() {
                assert(d[rest[k]] == keep[rest[k]]);
            }
        }
    }
}

/// The part of `all` on page `current` (counted from one) of `per_page`
/// items: empty past the end, shorter on the last page.
pub open spec fn page_slice(all: Seq<int>, current: u32, per_page: nat) -> Seq<int> {
    let start = (current - 1) * per_page;
    let end = start + per_page;
    let s = if start < all.len() {
        start
    } else {
        all.len() as int
    };
    let e = if end < all.len() {
        end
    } else {
        all.len() as int
    };
    all.subrange(s, e)
}

/// Cuts the positions holding `true` into pages of `per_page` and picks the
/// page asked for: the positions on the page shown, the number of pages
/// and the page shown (as `clamp_pagination` gives them).
pub fn page_of_matches(keep: &Vec<bool>, page: u32, per_page: u64) -> (r: (Vec<usize>, u32, u32))
    requires
        per_page > 0,
    ensures
        (r.1, r.2) == clamp_spec(page, pages_for(matching(keep@).len(), per_page as nat) as u64),
        as_ints(r.0@) == page_slice(matching(keep@), r.2, per_page as nat),
        r.0@.len() <= per_page,
        1 <= r.2 <= r.1,
{
    let mut all: Vec<usize> = Vec::new();
    let mut i: usize = 0;
    while i < keep.len()
        invariant
            0 <= i <= keep@.len(),
            as_ints(all@) == matching(keep@.take(i as int)),
            all@.len() <= i,
        decreases keep.len() - i,
    {
        proof {
            assert(keep@.take(i + 1).drop_last() =~= keep@.take(i as int));
            assert(keep@.take(i + 1).last() == keep@[i as int]);
        }
        if keep[i] {
            all.push(i);
            proof {
                assert(as_ints(all@) =~= matching(keep@.take(i as int)).push(
                    i as int,
                ));
            }
        }
        i = i + 1;
    }
    proof {
        assert(keep@.take(keep@.len() as int) =~= keep@);
    }
    let ghost full = matching(keep@);
    let n: u64 = all.len() as u64;
    let num_pages: u64 = if n % per_page == 0 {
        n / per_page
    } else {
        assert(n / per_page < 0xFFFF_FFFF_FFFF_FFFFu64) by (nonlinear_arith)
            requires
                n % per_page != 0,
                per_page > 0,
        {
            if per_page == 1 {
                assert(n % per_page == 0);
            } else {
                assert(n / per_page <= n / 2);
            }
        }
        n / per_page + 1
    };
    let (total, current) = clamp_pagination(page, num_pages);
    proof {
        assert(n == full.len());
        if n > 0 {
            assert(num_pages >= 1) by (nonlinear_arith)
                requires
                    n > 0,
                    per_page > 0,
                    num_pages == (if n % per_page == 0 { (n / per_page) as int } else { n / per_page + 1 }),
            ;
        }
        assert((current - 1) * per_page <= n) by (nonlinear_arith)
            requires
                1 <= current,
                (n == 0 ==> current == 1),
                (n > 0 ==> current <= num_pages),
                per_page > 0,
                num_pages == (if n % per_page == 0 { (n / per_page) as int } else { n / per_page + 1 }),
        ;
    }
    let start: u64 = (current - 1) as u64 * per_page;
    let end: u64 = if n - start < per_page {
        n
    } else {
        start + per_page
    };
    let ghost am = as_ints(all@);
    let s_idx: usize = start as usize;
    let e_idx: usize = end as usize;
    let mut out: Vec<usize> = Vec::new();
    let mut j: usize = s_idx;
    while j < e_idx
        invariant
            s_idx <= j <= e_idx <= all@.len(),
            e_idx - s_idx <= per_page,
            am == as_ints(all@),
            as_ints(out@) == am.subrange(s_idx as int, j as int),
        decreases e_idx - j,
    {
        let x = all[j];
        let ghost before = out@;
        out.push(x);
        proof {
            assert(out@ == before.push(x));
            assert(as_ints(before) == am.subrange(s_idx as int, j as int));
            assert(as_ints(before).len() == before.len());
            assert(before.len() == j - s_idx);
            assert(as_ints(out@).len() == out@.len());
            assert(as_ints(out@) =~= am.subrange(s_idx as int, j + 1)) by {
                assert forall|k: int| 0 <= k < out@.len() implies #[trigger] as_ints(out@)[k]
                    == am.subrange(s_idx as int, j + 1)[k] by {
                    if k < before.len() {
                        assert(out@[k] == before[k]);
                        assert(as_ints(before)[k] == am.subrange(s_idx as int, j as int)[k]);
                    } else {
                        assert(k == j - s_idx);
                        assert(out@[k] == x);
                        assert(am[j as int] == all@[j as int] as int);
                        assert(am.subrange(s_idx as int, j + 1)[k] == am[j as int]);
                    }
                }
            }
        }
        j = j + 1;
    }
    proof {
        assert(page_slice(full, current, per_page as nat) =~= full.subrange(start as int, end as int));
    }
    (out, total, current)
}

/// The positions on a page all hold `true`, lie within the list, and come
/// in increasing order.
pub proof fn lemma_page_positions(keep: Seq<bool>, current: u32, per_page: nat, page: Seq<usize>)
    requires
        current >= 1,
        as_ints(page) == page_slice(matching(keep), current, per_page),
    ensures
        forall|k: int| 0 <= k < page.len() ==> (#[trigger] page[k] as int) < keep.len() && keep[page[k] as int],
        forall|a: int, b: int| 0 <= a < b < page.len() ==> #[trigger] page[a] < #[trigger] page[b],
{
    lemma_matching(keep);
    let all = matching(keep);
    let start = (current - 1) * per_page;
    let s = if start < all.len() {
        start
    } else {
        all.len() as int
    };
    assert(0 <= start) by (nonlinear_arith)
        requires
            current >= 1,
            start == (current - 1) * per_page,
    ;
    let end = start + per_page;
    let e = if end < all.len() {
        end
    } else {
        all.len() as int
    };
    assert(s <= e);
    assert(page_slice(all, current, per_page) == all.subrange(s, e));
    assert(as_ints(page).len() == page.len());
    assert(page.len() == e - s);
    assert forall|k: int| 0 <= k < page.len() implies (#[trigger] page[k] as int) < keep.len() && keep[page[k] as int] by {
        assert(as_ints(page)[k] == page[k] as int);
        assert(all.subrange(s, e)[k] == all[s + k]);
        assert(as_ints(page)[k] == all[s + k]);
    }
    assert forall|a: int, b: int| 0 <= a < b < page.len() implies #[trigger] page[a] < #[trigger] page[b] by {
        assert(as_ints(page)[a] == page[a] as int);
        assert(as_ints(page)[b] == page[b] as int);
        assert(all.subrange(s, e)[a] == all[s + a]);
        assert(all.subrange(s, e)[b] == all[s + b]);
        assert(as_ints(page)[a] == all[s + a]);
        assert(as_ints(page)[b] == all[s + b]);
    }
}

} // verus!
