use bus_factor::github::{BusFactorError, Contributor, FetchFailure, Owner, Repo};
use bus_factor::report::{build_report, filter_records, filter_records_at, full_name, make_record};

fn repo(owner: &str, name: &str, stars: usize) -> Repo {
    Repo {
        contributors_url: format!("https://api.github.com/repos/{}/{}/contributors", owner, name),
        name: name.to_string(),
        owner: Owner { login: owner.to_string() },
        stargazers_count: stars,
    }
}

fn contributor(login: &str, contributions: usize) -> Contributor {
    Contributor { contributions, login: login.to_string() }
}

#[test]
fn dominated_repositories_are_filtered_out() {
    // A: one contributor holds every contribution; B: the top contributor
    // holds 90 of 100. Both shares are at or above the threshold, so the
    // report is empty.
    let repos = vec![repo("alice", "a", 500), repo("bob", "b", 300)];
    let outcomes: Vec<Result<Vec<Contributor>, FetchFailure>> = vec![
        Ok(vec![contributor("solo", 100)]),
        Ok(vec![contributor("y", 90), contributor("x", 10)]),
    ];
    let report = build_report(&repos, &outcomes).expect("all fetches succeeded");
    assert_eq!(report.len(), 0);
}

#[test]
fn balanced_repository_is_retained() {
    // C: contributors X=20, Y=15, Z=5; total 40, top share floor(100*20/40) = 50.
    let repos = vec![repo("carol", "c", 700)];
    let outcomes: Vec<Result<Vec<Contributor>, FetchFailure>> = vec![Ok(vec![
        contributor("x", 20),
        contributor("y", 15),
        contributor("z", 5),
    ])];
    let report = build_report(&repos, &outcomes).expect("all fetches succeeded");
    assert_eq!(report.len(), 1);
    assert_eq!(report[0].full_name, "carol/c");
    assert_eq!(report[0].top_contributor.login, "x");
    assert_eq!(report[0].top_contributor.contributions, 20);
    assert_eq!(report[0].percentage, 50);
    assert_eq!(report[0].stars, 700);
}

#[test]
fn empty_contributor_list_yields_placeholder_record() {
    // D has no contributors: the record carries the placeholder login and
    // a zero percentage, and is retained.
    let repos = vec![repo("dan", "d", 42)];
    let outcomes: Vec<Result<Vec<Contributor>, FetchFailure>> = vec![Ok(vec![])];
    let report = build_report(&repos, &outcomes).expect("all fetches succeeded");
    assert_eq!(report.len(), 1);
    assert_eq!(report[0].full_name, "dan/d");
    assert_eq!(report[0].top_contributor.login, "unknown");
    assert_eq!(report[0].top_contributor.contributions, 0);
    assert_eq!(report[0].percentage, 0);
    assert_eq!(report[0].stars, 42);
}

#[test]
fn one_failed_fetch_fails_the_whole_report() {
    // E's fetch fails: the pipeline reports a contributor-fetch failure
    // naming E, and no records at all, although A through D succeeded.
    let repos = vec![
        repo("alice", "a", 1),
        repo("bob", "b", 2),
        repo("carol", "c", 3),
        repo("dan", "d", 4),
        repo("erin", "e", 5),
    ];
    let outcomes: Vec<Result<Vec<Contributor>, FetchFailure>> = vec![
        Ok(vec![contributor("a1", 1)]),
        Ok(vec![contributor("b1", 1)]),
        Ok(vec![contributor("c1", 1)]),
        Ok(vec![contributor("d1", 1)]),
        Err(FetchFailure { status: 503, message: "upstream unavailable".to_string() }),
    ];
    match build_report(&repos, &outcomes) {
        Ok(_) => panic!("a failed fetch must fail the report"),
        Err(BusFactorError::ContributorFetchFailure { repo_full_name, status, message }) => {
            assert_eq!(repo_full_name, "erin/e");
            assert_eq!(status, 503);
            assert_eq!(message, "upstream unavailable");
        },
        Err(BusFactorError::SearchFailure { .. }) => {
            panic!("the failure must name the fetch stage, not the search stage")
        },
    }
}

#[test]
fn first_failure_in_search_order_is_reported() {
    let repos = vec![repo("alice", "a", 1), repo("bob", "b", 2), repo("carol", "c", 3)];
    let outcomes: Vec<Result<Vec<Contributor>, FetchFailure>> = vec![
        Ok(vec![contributor("a1", 1)]),
        Err(FetchFailure { status: 404, message: "not found".to_string() }),
        Err(FetchFailure { status: 500, message: "server error".to_string() }),
    ];
    match build_report(&repos, &outcomes) {
        Err(BusFactorError::ContributorFetchFailure { repo_full_name, status, .. }) => {
            assert_eq!(repo_full_name, "bob/b");
            assert_eq!(status, 404);
        },
        _ => panic!("the first failure in search order must be reported"),
    }
}

#[test]
fn output_order_is_search_order_restricted_to_survivors() {
    // Survivors keep the search order; they are not re-sorted by
    // percentage or stars.
    let repos = vec![
        repo("u", "first", 10),
        repo("v", "dominated", 999),
        repo("w", "second", 5),
    ];
    let outcomes: Vec<Result<Vec<Contributor>, FetchFailure>> = vec![
        Ok(vec![contributor("p", 1), contributor("q", 1)]),
        Ok(vec![contributor("lone", 9)]),
        Ok(vec![contributor("r", 1), contributor("s", 3)]),
    ];
    let report = build_report(&repos, &outcomes).expect("all fetches succeeded");
    assert_eq!(report.len(), 2);
    assert_eq!(report[0].full_name, "u/first");
    assert_eq!(report[0].percentage, 50);
    assert_eq!(report[1].full_name, "w/second");
    assert_eq!(report[1].percentage, 25);
}

#[test]
fn raising_the_threshold_only_admits_records() {
    let repos = vec![repo("u", "a", 1), repo("v", "b", 2), repo("w", "c", 3)];
    let outcomes: Vec<Result<Vec<Contributor>, FetchFailure>> = vec![
        Ok(vec![contributor("p", 3), contributor("q", 7)]),
        Ok(vec![contributor("r", 6), contributor("s", 4)]),
        Ok(vec![contributor("t", 9), contributor("o", 1)]),
    ];
    // Percentages are 30, 60 and 90.
    let records = build_report(&repos, &outcomes).expect("all fetches succeeded");
    assert_eq!(records.len(), 2);
    let at_50 = filter_records_at(&records, 50);
    let at_75 = filter_records_at(&records, 75);
    assert!(at_50.len() <= at_75.len());
    assert_eq!(at_50.len(), 1);
    assert_eq!(at_50[0].percentage, 30);
    assert_eq!(at_75.len(), 2);
}

#[test]
fn filter_drops_exactly_the_threshold_and_above() {
    let repos = vec![repo("u", "a", 1), repo("v", "b", 2)];
    let outcomes: Vec<Result<Vec<Contributor>, FetchFailure>> = vec![
        Ok(vec![contributor("p", 3), contributor("q", 1)]),
        Ok(vec![contributor("r", 74), contributor("s", 26)]),
    ];
    // Percentages are exactly 75 and 74: the first is dropped, the second kept.
    let records: Vec<_> = outcomes
        .iter()
        .zip(repos.iter())
        .map(|(outcome, repo)| match outcome {
            Ok(contributors) => make_record(repo, contributors),
            Err(_) => panic!("no failures in this case"),
        })
        .collect();
    assert_eq!(records[0].percentage, 75);
    assert_eq!(records[1].percentage, 74);
    let kept = filter_records(&records);
    assert_eq!(kept.len(), 1);
    assert_eq!(kept[0].full_name, "v/b");
}

#[test]
fn each_record_is_computed_from_its_own_repository_list() {
    // The contributor list at index i belongs to repository i: every
    // record pairs a repository with the top login of its own list.
    let repos = vec![repo("o1", "r1", 1), repo("o2", "r2", 2), repo("o3", "r3", 3)];
    let outcomes: Vec<Result<Vec<Contributor>, FetchFailure>> = vec![
        Ok(vec![contributor("lead1", 1), contributor("m", 1)]),
        Ok(vec![contributor("lead2", 2), contributor("n", 2)]),
        Ok(vec![contributor("lead3", 3), contributor("o", 3)]),
    ];
    let report = build_report(&repos, &outcomes).expect("all fetches succeeded");
    assert_eq!(report.len(), 3);
    for (i, record) in report.iter().enumerate() {
        assert_eq!(record.full_name, full_name(&repos[i]));
        assert_eq!(record.top_contributor.login, format!("lead{}", i + 1));
        assert_eq!(record.stars, repos[i].stargazers_count);
    }
}

#[test]
fn full_name_joins_owner_and_name_with_a_slash() {
    let r = repo("tokio-rs", "tokio", 1);
    assert_eq!(full_name(&r), "tokio-rs/tokio");
}

#[test]
fn error_constructors_carry_their_fields() {
    match BusFactorError::search_failure(403, "rate limited".to_string()) {
        BusFactorError::SearchFailure { status, message } => {
            assert_eq!(status, 403);
            assert_eq!(message, "rate limited");
        },
        _ => panic!("wrong variant"),
    }
    match BusFactorError::contributor_fetch_failure("a/b".to_string(), 500, "boom".to_string()) {
        BusFactorError::ContributorFetchFailure { repo_full_name, status, message } => {
            assert_eq!(repo_full_name, "a/b");
            assert_eq!(status, 500);
            assert_eq!(message, "boom");
        },
        _ => panic!("wrong variant"),
    }
}
