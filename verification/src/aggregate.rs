//! Contribution aggregation: the total of a contributor list, its top
//! contributor, and the top contributor's percentage share.

use vstd::prelude::*;
use vstd::arithmetic::div_mod::{
    lemma_div_by_self, lemma_div_is_ordered, lemma_div_of0, lemma_div_pos_is_pos,
    lemma_multiply_divide_le,
};
use vstd::arithmetic::mul::lemma_mul_left_inequality;
use crate::github::Contributor;

verus! {

/// Login recorded when a repository has no contributors at all.
pub open spec fn spec_placeholder_login() -> Seq<char> {
    "unknown"@
}

/// Sum of all contribution counts in a contributor list.
pub open spec fn spec_total(cs: Seq<Contributor>) -> int
    decreases cs.len(),
{
    if cs.len() == 0 {
        0
    } else {
        spec_total(cs.drop_last()) + cs.last().contributions
    }
}

/// Contribution count of the top contributor: the first list entry, or 0
/// for an empty list (the placeholder has no contributions).
pub open spec fn spec_top_contributions(cs: Seq<Contributor>) -> int {
    if cs.len() > 0 {
        cs[0].contributions as int
    } else {
        0
    }
}

/// Login of the top contributor: the first list entry, or the placeholder
/// login for an empty list.
pub open spec fn spec_top_login(cs: Seq<Contributor>) -> Seq<char> {
    if cs.len() > 0 {
        cs[0].login@
    } else {
        spec_placeholder_login()
    }
}

/// Percentage share of the top contributor, with floor division so a
/// borderline share is never rounded up; defined as 0 when there are no
/// contributions at all, so that an empty or all-zero list never divides
/// by zero.
pub open spec fn spec_percentage(cs: Seq<Contributor>) -> int {
    if spec_total(cs) > 0 {
        100 * spec_top_contributions(cs) / spec_total(cs)
    } else {
        0
    }
}

/// The total of a contributor list is never negative.
pub proof fn lemma_total_nonneg(cs: Seq<Contributor>)
    ensures
        spec_total(cs) >= 0,
    decreases cs.len(),
{
    if cs.len() > 0 {
        lemma_total_nonneg(cs.drop_last());
    }
}

/// No single contribution count exceeds the total of its list.
pub proof fn lemma_element_le_total(cs: Seq<Contributor>, i: int)
    requires
        0 <= i < cs.len(),
    ensures
        cs[i].contributions <= spec_total(cs),
    decreases cs.len(),
{
    if i == cs.len() - 1 {
        lemma_total_nonneg(cs.drop_last());
    } else {
        lemma_element_le_total(cs.drop_last(), i);
    }
}

/// Law: for every contributor list the percentage share lies between 0
/// and 100 — the top entry's count never exceeds the list's total, and
/// floor division never rounds a share up.
pub proof fn lemma_percentage_bounds(cs: Seq<Contributor>)
    ensures
        0 <= spec_percentage(cs) <= 100,
{
    if spec_total(cs) > 0 {
        let top = spec_top_contributions(cs);
        let total = spec_total(cs);
        if cs.len() == 0 {
            assert(spec_total(cs) == 0);
        }
        lemma_element_le_total(cs, 0);
        lemma_div_pos_is_pos(100 * top, total);
        lemma_mul_left_inequality(100, top, total);
        lemma_multiply_divide_le(100 * top, total, 100);
    }
}

/// Law: the percentage share is zero exactly when the list's total is
/// zero or its top contributor has no contributions — provided the top
/// contributor's share is not a positive share below one percent, for
/// floor division sends such a share to zero as well (for example, a top
/// contributor with 1 contribution out of a total of 1000).
pub proof fn lemma_percentage_zero_iff(cs: Seq<Contributor>)
    requires
        spec_top_contributions(cs) == 0 || spec_total(cs) <= 100 * spec_top_contributions(cs),
    ensures
        spec_percentage(cs) == 0 <==> (spec_total(cs) == 0 || spec_top_contributions(cs) == 0),
{
    let top = spec_top_contributions(cs);
    let total = spec_total(cs);
    lemma_total_nonneg(cs);
    if total > 0 {
        if top == 0 {
            assert(100 * top == 0);
            lemma_div_of0(total);
        } else {
            lemma_div_is_ordered(total, 100 * top, total);
            lemma_div_by_self(total);
        }
    }
}

/// Total contributions of a list. A sum of `usize` counts always fits in
/// `u128`, so no bound on the input is needed.
pub fn total_contributions(contributors: &Vec<Contributor>) -> (total: u128)
    ensures
        total == spec_total(contributors@),
{
    let ghost cs = contributors@;
    let mut total: u128 = 0;
    let mut i: usize = 0;
    while i < contributors.len()
        invariant
            i <= cs.len(),
            cs == contributors@,
            total == spec_total(cs.take(i as int)),
            total <= i * (usize::MAX as int),
        decreases cs.len() - i,
    {
        let c = contributors[i].contributions;
        proof {
            assert(cs.take(i + 1).drop_last() =~= cs.take(i as int));
            assert(total + c <= (i + 1) * (usize::MAX as int)) by (nonlinear_arith)
                requires
                    total <= i * (usize::MAX as int),
                    c <= usize::MAX as int,
            {};
            assert(((i + 1) as int) * (usize::MAX as int) <= u128::MAX) by (nonlinear_arith)
                requires
                    i + 1 <= usize::MAX as int + 1,
                    usize::MAX as int <= u64::MAX as int,
            {};
        }
        total = total + c as u128;
        i = i + 1;
    }
    proof {
        assert(cs.take(cs.len() as int) =~= cs);
    }
    total
}

/// The top contributor of a list: a copy of the first entry, or the
/// placeholder contributor when the list is empty.
pub fn top_contributor(contributors: &Vec<Contributor>) -> (top: Contributor)
    ensures
        top.login@ == spec_top_login(contributors@),
        top.contributions == spec_top_contributions(contributors@),
{
    if contributors.len() > 0 {
        let first = &contributors[0];
        Contributor { contributions: first.contributions, login: first.login.clone() }
    } else {
        Contributor { contributions: 0, login: String::from_str("unknown") }
    }
}

/// Percentage share of the top contributor in its list, as an integer in
/// `0..=100`.
pub fn contribution_percentage(contributors: &Vec<Contributor>) -> (percentage: usize)
    ensures
        percentage == spec_percentage(contributors@),
        percentage <= 100,
{
    let ghost cs = contributors@;
    let total = total_contributions(contributors);
    if total == 0 {
        return 0;
    }
    if contributors.len() == 0 {
        proof {
            assert(spec_total(cs) == 0);
        }
        return 0;
    }
    let top = contributors[0].contributions as u128;
    proof {
        lemma_element_le_total(cs, 0);
        lemma_mul_left_inequality(100, top as int, total as int);
        lemma_multiply_divide_le(100 * (top as int), total as int, 100);
    }
    let percentage = (100u128 * top) / total;
    percentage as usize
}

} // verus!
