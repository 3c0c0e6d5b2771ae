//! Data model for the pipeline: repositories as the search stage returns
//! them, contributors as the fetch stage returns them, and the record the
//! report is made of.

use vstd::prelude::*;

verus! {

/// The user or organisation a repository belongs to.
#[derive(Debug)]
pub struct Owner {
    /// Login of the owning user or organisation.
    pub login: String,
}

/// One candidate repository, as the search stage returns it.
#[derive(Debug)]
pub struct Repo {
    /// Locator from which the repository's contributor list is fetched.
    pub contributors_url: String,
    /// Name of the repository (without the owner part).
    pub name: String,
    /// Owner metadata.
    pub owner: Owner,
    /// Number of stars the repository has.
    pub stargazers_count: usize,
}

/// One entry of a repository's contributor list. The list order is
/// authoritative: the first entry is the top contributor.
#[derive(Debug)]
pub struct Contributor {
    /// Number of contributions this contributor made to the repository.
    pub contributions: usize,
    /// Login of the contributor.
    pub login: String,
}

/// A page of search results: the ordered list of matching items.
#[derive(Debug)]
pub struct GitHubResponse<T> {
    /// The items of the page, most popular first.
    pub items: Vec<T>,
}

/// The final output unit: one surviving repository together with its top
/// contributor and that contributor's percentage share.
#[derive(Debug)]
pub struct BusFactorRecord {
    /// Repository full name: owner login, a slash, repository name.
    pub full_name: String,
    /// The repository's top contributor, or the placeholder when the
    /// repository has none.
    pub top_contributor: Contributor,
    /// The top contributor's percentage share, an integer in `0..=100`.
    pub percentage: usize,
    /// Star count of the repository.
    pub stars: usize,
}

/// Mathematical model of one record: every field by its view.
#[verifier::ext_equal]
pub struct RecordModel {
    /// View of the repository full name.
    pub full_name: Seq<char>,
    /// View of the top contributor's login.
    pub top_login: Seq<char>,
    /// The top contributor's contribution count.
    pub top_contributions: int,
    /// The top contributor's percentage share.
    pub percentage: int,
    /// The repository's star count.
    pub stars: int,
}

impl View for BusFactorRecord {
    type V = RecordModel;

    open spec fn view(&self) -> RecordModel {
        RecordModel {
            full_name: self.full_name@,
            top_login: self.top_contributor.login@,
            top_contributions: self.top_contributor.contributions as int,
            percentage: self.percentage as int,
            stars: self.stars as int,
        }
    }
}

/// What one failed upstream call carries: the non-success status it
/// returned and the error message of its body.
#[derive(Debug)]
pub struct FetchFailure {
    /// Status code of the non-success response.
    pub status: u16,
    /// Error message the response carried.
    pub message: String,
}

/// A terminal pipeline failure. The variant names the stage it came from,
/// so that a search failure and a contributor-fetch failure stay
/// distinguishable even when the upstream message is opaque.
#[derive(Debug)]
pub enum BusFactorError {
    /// The search call failed: nothing can be ranked at all.
    SearchFailure {
        /// Status code of the non-success response.
        status: u16,
        /// Error message the response carried.
        message: String,
    },
    /// One repository's contributor fetch failed; under fail-fast batch
    /// semantics this aborts the whole run.
    ContributorFetchFailure {
        /// Full name of the repository whose fetch failed.
        repo_full_name: String,
        /// Status code of the non-success response.
        status: u16,
        /// Error message the response carried.
        message: String,
    },
}

impl BusFactorError {
    /// A failure of the search stage.
    pub fn search_failure(status: u16, message: String) -> (e: Self)
        ensures
            (e == BusFactorError::SearchFailure { status, message }),
    {
        BusFactorError::SearchFailure { status, message }
    }

    /// A failure of the contributor fetch for one repository.
    pub fn contributor_fetch_failure(repo_full_name: String, status: u16, message: String) -> (e: Self)
        ensures
            (e == BusFactorError::ContributorFetchFailure { repo_full_name, status, message }),
    {
        BusFactorError::ContributorFetchFailure { repo_full_name, status, message }
    }
}

/// A flattened report row: one repository together with its top
/// contributor's share.
#[derive(Debug)]
pub struct Bus {
    /// Contributions of the repository's top contributor.
    pub contributions: usize,
    /// Full name of the repository.
    pub name: String,
    /// Number of stars the repository has.
    pub stars: usize,
    /// Login of the top contributor.
    pub user: String,
}

} // verus!
