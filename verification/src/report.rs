//! The report pipeline after all data is in hand: per-repository records,
//! fail-fast collection of the fetch outcomes, and threshold filtering.

use vstd::prelude::*;
use crate::BUS_FACTOR_THRESHOLD;
use crate::aggregate::{
    contribution_percentage, spec_percentage, spec_placeholder_login, spec_top_contributions,
    spec_top_login, spec_total, top_contributor,
};
use crate::github::{BusFactorError, BusFactorRecord, Contributor, FetchFailure, RecordModel, Repo};

verus! {

/// Full name of a repository: owner login, a slash, repository name.
pub open spec fn spec_full_name(repo: Repo) -> Seq<char> {
    repo.owner.login@ + "/"@ + repo.name@
}

/// The record the aggregation stage produces for one repository and its
/// contributor list.
pub open spec fn model_of(repo: Repo, cs: Seq<Contributor>) -> RecordModel {
    RecordModel {
        full_name: spec_full_name(repo),
        top_login: spec_top_login(cs),
        top_contributions: spec_top_contributions(cs),
        percentage: spec_percentage(cs),
        stars: repo.stargazers_count as int,
    }
}

/// The records for index-aligned repositories and contributor lists:
/// record `i` is computed from repository `i` and contributor list `i`.
pub open spec fn models_of(repos: Seq<Repo>, lists: Seq<Seq<Contributor>>) -> Seq<RecordModel> {
    Seq::new(repos.len(), |i: int| model_of(repos[i], lists[i]))
}

/// The records that survive filtering at a threshold, in their original
/// order: exactly those whose percentage lies below the threshold.
pub open spec fn surviving(ms: Seq<RecordModel>, threshold: int) -> Seq<RecordModel>
    decreases ms.len(),
{
    if ms.len() == 0 {
        Seq::empty()
    } else if ms.last().percentage < threshold {
        surviving(ms.drop_last(), threshold).push(ms.last())
    } else {
        surviving(ms.drop_last(), threshold)
    }
}

/// Views of a record list.
pub open spec fn views_of(rs: Seq<BusFactorRecord>) -> Seq<RecordModel> {
    rs.map_values(|r: BusFactorRecord| r@)
}

/// Whether every fetch outcome of a batch succeeded.
pub open spec fn all_ok(outs: Seq<Result<Vec<Contributor>, FetchFailure>>) -> bool {
    forall|i: int| 0 <= i < outs.len() ==> outs[i] is Ok
}

/// The contributor lists of a batch of outcomes, index-aligned with it.
pub open spec fn ok_lists(outs: Seq<Result<Vec<Contributor>, FetchFailure>>) -> Seq<Seq<Contributor>> {
    Seq::new(outs.len(), |i: int| outs[i]->Ok_0@)
}

/// Index of the first failed outcome of a batch.
pub open spec fn first_failure(outs: Seq<Result<Vec<Contributor>, FetchFailure>>) -> int
    decreases outs.len(),
{
    if outs.len() == 0 {
        0
    } else if outs[0] is Err {
        0
    } else {
        1 + first_failure(outs.drop_first())
    }
}

/// The first failed outcome is the failed outcome with the smallest index.
proof fn lemma_first_failure(outs: Seq<Result<Vec<Contributor>, FetchFailure>>, i: int)
    requires
        0 <= i < outs.len(),
        outs[i] is Err,
        forall|j: int| 0 <= j < i ==> outs[j] is Ok,
    ensures
        first_failure(outs) == i,
    decreases i,
{
    if i > 0 {
        lemma_first_failure(outs.drop_first(), i - 1);
    }
}

/// Mapping a record list to its views commutes with appending one record.
proof fn lemma_views_of_push(rs: Seq<BusFactorRecord>, r: BusFactorRecord)
    ensures
        views_of(rs.push(r)) == views_of(rs).push(r@),
{
    assert(views_of(rs.push(r)) =~= views_of(rs).push(r@));
}

/// A record appears among the survivors whenever its percentage lies
/// below the threshold.
pub proof fn lemma_kept_in_survivors(ms: Seq<RecordModel>, threshold: int, i: int)
    requires
        0 <= i < ms.len(),
        ms[i].percentage < threshold,
    ensures
        surviving(ms, threshold).contains(ms[i]),
    decreases ms.len(),
{
    let rest = surviving(ms.drop_last(), threshold);
    if i == ms.len() - 1 {
        assert(rest.push(ms[i])[rest.len() as int] == ms[i]);
    } else {
        lemma_kept_in_survivors(ms.drop_last(), threshold, i);
        let k = choose|k: int| 0 <= k < rest.len() && rest[k] == ms[i];
        if ms.last().percentage < threshold {
            assert(rest.push(ms.last())[k] == ms[i]);
        }
    }
}

/// Law: a repository with no contributors yields the placeholder record —
/// placeholder login and zero percentage — and, zero lying below the
/// threshold, filtering never drops that record.
pub proof fn lemma_placeholder_never_filtered(repo: Repo, ms: Seq<RecordModel>, i: int)
    requires
        0 <= i < ms.len(),
        ms[i] == model_of(repo, Seq::<Contributor>::empty()),
    ensures
        ms[i].top_login == spec_placeholder_login(),
        ms[i].percentage == 0,
        surviving(ms, BUS_FACTOR_THRESHOLD as int).contains(ms[i]),
{
    assert(spec_total(Seq::<Contributor>::empty()) == 0);
    lemma_kept_in_survivors(ms, BUS_FACTOR_THRESHOLD as int, i);
}

/// Law: filtering is monotonic in the threshold — raising the threshold
/// never loses a record: everything kept at the lower threshold is kept
/// at the higher one, and the survivor list is never shorter.
pub proof fn lemma_filter_monotonic(ms: Seq<RecordModel>, low: int, high: int)
    requires
        low <= high,
    ensures
        surviving(ms, low).len() <= surviving(ms, high).len(),
        forall|m: RecordModel| surviving(ms, low).contains(m) ==> surviving(ms, high).contains(m),
    decreases ms.len(),
{
    if ms.len() > 0 {
        lemma_filter_monotonic(ms.drop_last(), low, high);
        let sl = surviving(ms.drop_last(), low);
        let sh = surviving(ms.drop_last(), high);
        assert forall|m: RecordModel|
            surviving(ms, low).contains(m) implies surviving(ms, high).contains(m) by {
            if ms.last().percentage < low {
                let kept = sl.push(ms.last());
                let k = choose|k: int| 0 <= k < kept.len() && kept[k] == m;
                if k < sl.len() {
                    assert(sl.contains(m));
                    assert(sh.contains(m));
                    let j = choose|j: int| 0 <= j < sh.len() && sh[j] == m;
                    assert(sh.push(ms.last())[j] == m);
                } else {
                    assert(m == ms.last());
                    assert(sh.push(ms.last())[sh.len() as int] == m);
                }
            } else {
                assert(sl.contains(m));
                assert(sh.contains(m));
                if ms.last().percentage < high {
                    let j = choose|j: int| 0 <= j < sh.len() && sh[j] == m;
                    assert(sh.push(ms.last())[j] == m);
                }
            }
        };
    }
}

/// Law: filtering never reorders — the survivors of a concatenation are
/// the survivors of its first part followed by the survivors of its
/// second, so the output order is always the input order restricted to
/// the surviving records.
pub proof fn lemma_surviving_ordered(a: Seq<RecordModel>, b: Seq<RecordModel>, threshold: int)
    ensures
        surviving(a + b, threshold) == surviving(a, threshold) + surviving(b, threshold),
    decreases b.len(),
{
    if b.len() == 0 {
        assert(a + b =~= a);
        assert(surviving(a, threshold) + surviving(b, threshold) =~= surviving(a, threshold));
    } else {
        lemma_surviving_ordered(a, b.drop_last(), threshold);
        assert((a + b).drop_last() =~= a + b.drop_last());
        assert((a + b).last() == b.last());
        if b.last().percentage < threshold {
            assert(surviving(a, threshold) + surviving(b.drop_last(), threshold).push(b.last())
                =~= (surviving(a, threshold) + surviving(b.drop_last(), threshold)).push(
                b.last(),
            ));
        }
    }
}

/// Law: one record alone survives exactly when its percentage lies below
/// the threshold.
pub proof fn lemma_surviving_singleton(m: RecordModel, threshold: int)
    ensures
        m.percentage < threshold ==> surviving(seq![m], threshold) == seq![m],
        m.percentage >= threshold ==> surviving(seq![m], threshold) == Seq::<RecordModel>::empty(),
{
    reveal_with_fuel(surviving, 2);
    assert(seq![m].drop_last() =~= Seq::<RecordModel>::empty());
    assert(Seq::<RecordModel>::empty().push(m) =~= seq![m]);
}

/// Builds the repository's full name.
pub fn full_name(repo: &Repo) -> (s: String)
    ensures
        s@ == spec_full_name(*repo),
{
    let mut s = repo.owner.login.clone();
    s.append("/");
    s.append(repo.name.as_str());
    s
}

/// One report record for a repository and its contributor list.
pub fn make_record(repo: &Repo, contributors: &Vec<Contributor>) -> (record: BusFactorRecord)
    ensures
        record@ == model_of(*repo, contributors@),
{
    let top = top_contributor(contributors);
    let percentage = contribution_percentage(contributors);
    let record = BusFactorRecord {
        full_name: full_name(repo),
        top_contributor: top,
        percentage,
        stars: repo.stargazers_count,
    };
    proof {
        assert(record@ =~= model_of(*repo, contributors@));
    }
    record
}

/// A copy of a record.
fn clone_record(record: &BusFactorRecord) -> (copy: BusFactorRecord)
    ensures
        copy == *record,
{
    BusFactorRecord {
        full_name: record.full_name.clone(),
        top_contributor: Contributor {
            contributions: record.top_contributor.contributions,
            login: record.top_contributor.login.clone(),
        },
        percentage: record.percentage,
        stars: record.stars,
    }
}

/// Keeps, in their original order, exactly the records whose percentage
/// lies below the given threshold.
pub fn filter_records_at(records: &Vec<BusFactorRecord>, threshold: usize) -> (kept: Vec<BusFactorRecord>)
    ensures
        views_of(kept@) == surviving(views_of(records@), threshold as int),
{
    let ghost rs = records@;
    let mut kept: Vec<BusFactorRecord> = Vec::new();
    let mut i: usize = 0;
    while i < records.len()
        invariant
            i <= rs.len(),
            rs == records@,
            views_of(kept@) == surviving(views_of(rs.take(i as int)), threshold as int),
        decreases rs.len() - i,
    {
        proof {
            let vs = views_of(rs.take(i as int));
            let m = rs[i as int]@;
            assert(rs.take(i + 1).drop_last() =~= rs.take(i as int));
            assert(views_of(rs.take(i + 1)) =~= vs.push(m));
            assert(vs.push(m).drop_last() =~= vs);
            assert(vs.push(m).last() == m);
        }
        if records[i].percentage < threshold {
            let ghost old_kept = kept@;
            kept.push(clone_record(&records[i]));
            proof {
                lemma_views_of_push(old_kept, rs[i as int]);
            }
        }
        i = i + 1;
    }
    proof {
        assert(rs.take(rs.len() as int) =~= rs);
    }
    kept
}

/// Keeps, in their original order, exactly the records whose top
/// contributor's percentage lies below the dominance threshold.
pub fn filter_records(records: &Vec<BusFactorRecord>) -> (kept: Vec<BusFactorRecord>)
    ensures
        views_of(kept@) == surviving(views_of(records@), BUS_FACTOR_THRESHOLD as int),
{
    filter_records_at(records, BUS_FACTOR_THRESHOLD)
}

/// The whole post-fetch pipeline: collect the per-repository fetch
/// outcomes fail-fast, aggregate each contributor list, and filter at the
/// dominance threshold.
///
/// Outcome `i` must be the fetch result for repository `i`; the records
/// are then aligned the same way, so the output order is the search order
/// restricted to the survivors. If any fetch failed, the whole report
/// fails with the first failure in search order and no records at all.
pub fn build_report(
    repos: &Vec<Repo>,
    outcomes: &Vec<Result<Vec<Contributor>, FetchFailure>>,
) -> (report: Result<Vec<BusFactorRecord>, BusFactorError>)
    requires
        repos@.len() == outcomes@.len(),
    ensures
        report is Ok <==> all_ok(outcomes@),
        report is Ok ==> views_of(report->Ok_0@) == surviving(
            models_of(repos@, ok_lists(outcomes@)),
            BUS_FACTOR_THRESHOLD as int,
        ),
        !all_ok(outcomes@) ==> (report->Err_0 matches BusFactorError::ContributorFetchFailure {
            repo_full_name,
            status,
            message,
        } && repo_full_name@ == spec_full_name(repos@[first_failure(outcomes@)])
            && status == outcomes@[first_failure(outcomes@)]->Err_0.status
            && message@ == outcomes@[first_failure(outcomes@)]->Err_0.message@),
{
    let ghost outs = outcomes@;
    let mut records: Vec<BusFactorRecord> = Vec::new();
    let mut i: usize = 0;
    while i < repos.len()
        invariant
            repos@.len() == outs.len(),
            outs == outcomes@,
            i <= outs.len(),
            records@.len() == i,
            forall|j: int| 0 <= j < i ==> outs[j] is Ok,
            forall|j: int| 0 <= j < i ==> records@[j]@ == model_of(repos@[j], outs[j]->Ok_0@),
        decreases outs.len() - i,
    {
        match &outcomes[i] {
            Ok(contributors) => {
                let record = make_record(&repos[i], contributors);
                records.push(record);
            },
            Err(failure) => {
                proof {
                    lemma_first_failure(outs, i as int);
                }
                return Err(BusFactorError::ContributorFetchFailure {
                    repo_full_name: full_name(&repos[i]),
                    status: failure.status,
                    message: failure.message.clone(),
                });
            },
        }
        i = i + 1;
    }
    proof {
        assert(views_of(records@) =~= models_of(repos@, ok_lists(outs)));
    }
    Ok(filter_records(&records))
}

} // verus!
