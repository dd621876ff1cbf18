//! The review: every contract in a fixed order, what each found, and the
//! lines to log.

use vstd::prelude::*;
use crate::checkout::{Checkout, CheckoutView};
use crate::contract::{
    asset_paths, copyright_line, gitkeep, law_index_without_gitkeep_passes, law_known_assets_pass,
    law_readme_with_placeholder_fails, law_readme_without_placeholder_passes, readme_placeholders,
    AssetsContract, ContractResult, LicenseContract, NoGitKeepContract, ReadmeContract,
    ReviewContract, Verdict,
};
use crate::record::{announce, outcome_line, report, start_line, LogLine, LogRecord};
use crate::scan::{first_hit, lemma_first_hit_unique};
use crate::text::occurs_in;

verus! {

/// The contracts of a review: a closed set.
#[derive(Debug, Clone, Copy, PartialEq, Eq, Structural)]
pub enum Contract {
    NoGitKeep,
    Readme,
    Assets,
    License,
}

impl ReviewContract for Contract {
    open spec fn label(&self) -> Seq<char> {
        match self {
            Contract::NoGitKeep => NoGitKeepContract.label(),
            Contract::Readme => ReadmeContract.label(),
            Contract::Assets => AssetsContract.label(),
            Contract::License => LicenseContract.label(),
        }
    }

    open spec fn testable(&self, repo: CheckoutView) -> bool {
        match self {
            Contract::NoGitKeep => NoGitKeepContract.testable(repo),
            Contract::Readme => ReadmeContract.testable(repo),
            Contract::Assets => AssetsContract.testable(repo),
            Contract::License => LicenseContract.testable(repo),
        }
    }

    open spec fn verdict(&self, repo: CheckoutView) -> Verdict {
        match self {
            Contract::NoGitKeep => NoGitKeepContract.verdict(repo),
            Contract::Readme => ReadmeContract.verdict(repo),
            Contract::Assets => AssetsContract.verdict(repo),
            Contract::License => LicenseContract.verdict(repo),
        }
    }

    fn name(&self) -> (label: &str) {
        match self {
            Contract::NoGitKeep => NoGitKeepContract.name(),
            Contract::Readme => ReadmeContract.name(),
            Contract::Assets => AssetsContract.name(),
            Contract::License => LicenseContract.name(),
        }
    }

    fn can_test(&self, repo: &Checkout) -> (ready: bool) {
        match self {
            Contract::NoGitKeep => NoGitKeepContract.can_test(repo),
            Contract::Readme => ReadmeContract.can_test(repo),
            Contract::Assets => AssetsContract.can_test(repo),
            Contract::License => LicenseContract.can_test(repo),
        }
    }

    fn test(&self, repo: &Checkout) -> (result: ContractResult) {
        match self {
            Contract::NoGitKeep => NoGitKeepContract.test(repo),
            Contract::Readme => ReadmeContract.test(repo),
            Contract::Assets => AssetsContract.test(repo),
            Contract::License => LicenseContract.test(repo),
        }
    }
}

/// The order in which a review tests the contracts: the assets before the
/// LICENSE.
pub open spec fn contract_sequence() -> Seq<Contract> {
    seq![Contract::NoGitKeep, Contract::Readme, Contract::Assets, Contract::License]
}

/// The contracts, in the order of `contract_sequence`.
pub fn contracts() -> (list: [Contract; 4])
    ensures
        list@ == contract_sequence(),
{
    [Contract::NoGitKeep, Contract::Readme, Contract::Assets, Contract::License]
}

/// A review of one checkout.
#[derive(Debug, PartialEq, Eq)]
pub struct Review {
    /// The lines to log, in order.
    pub records: Vec<LogRecord>,
    /// What the contracts found, in the order in which they were tested.
    pub results: Vec<ContractResult>,
    /// The contract at which the review broke off, because the checkout does
    /// not hold what that contract reads; `None` when every contract was
    /// tested.
    pub broke_off_at: Option<Contract>,
}

/// The mathematical content of a `Review`.
pub struct ReviewView {
    pub records: Seq<LogLine>,
    pub results: Seq<Verdict>,
    pub broke_off_at: Option<Contract>,
}

impl View for Review {
    type V = ReviewView;

    open spec fn view(&self) -> ReviewView {
        ReviewView {
            records: self.records.deep_view(),
            results: self.results.deep_view(),
            broke_off_at: self.broke_off_at,
        }
    }
}

/// The condition "cannot be tested on `repo`" on contracts.
pub open spec fn untestable_on(repo: CheckoutView) -> spec_fn(Contract) -> bool {
    |contract: Contract| !contract.testable(repo)
}

/// How many contracts a review of `repo` tests: all that stand before the
/// first one that cannot be tested.
pub open spec fn tested(repo: CheckoutView) -> int {
    first_hit(contract_sequence(), untestable_on(repo))
}

/// What the first `count` contracts find of `repo`.
pub open spec fn verdicts(repo: CheckoutView, count: int) -> Seq<Verdict> {
    Seq::new(count as nat, |i: int| contract_sequence()[i].verdict(repo))
}

/// The lines that the tests of the first `count` contracts log: for each
/// contract the line that announces it, then the line that says what it
/// found.
pub open spec fn lines(repo: CheckoutView, count: int) -> Seq<LogLine>
    decreases count,
{
    if count <= 0 {
        Seq::empty()
    } else {
        let contract = contract_sequence()[count - 1];
        lines(repo, count - 1).push(start_line(contract.label())).push(
            outcome_line(contract.label(), contract.verdict(repo)),
        )
    }
}

/// The review of `repo`. The contracts are tested in the order of
/// `contract_sequence`, each after a line that announces it. A contract that
/// cannot be tested ends the review, after its announcement.
pub open spec fn reviewed(repo: CheckoutView) -> ReviewView {
    let count = tested(repo);
    if count < contract_sequence().len() {
        ReviewView {
            records: lines(repo, count).push(start_line(contract_sequence()[count].label())),
            results: verdicts(repo, count),
            broke_off_at: Some(contract_sequence()[count]),
        }
    } else {
        ReviewView {
            records: lines(repo, count),
            results: verdicts(repo, count),
            broke_off_at: None,
        }
    }
}

/// Whether one of `results` is a `Fail`.
pub open spec fn any_failed(results: Seq<Verdict>) -> bool {
    exists|i: int| 0 <= i < results.len() && results[i] is Fail
}

/// The exit status that a review ends with: 0 when every contract was tested
/// and none failed, 1 otherwise. A warning does not count.
pub open spec fn exit_status_of(review: ReviewView) -> int {
    if review.broke_off_at is None && !any_failed(review.results) {
        0
    } else {
        1
    }
}

impl Review {
    /// The exit status that the review ends with.
    pub fn exit_status(&self) -> (status: i32)
        ensures
            status == exit_status_of(self@),
    {
        if self.broke_off_at.is_some() {
            return 1;
        }
        let mut i: usize = 0;
        while i < self.results.len()
            invariant
                i <= self.results.len(),
                forall|j: int| 0 <= j < i ==> !(#[trigger] self@.results[j] is Fail),
            decreases self.results.len() - i,
        {
            match &self.results[i] {
                ContractResult::Fail { .. } => {
                    assert(self@.results[i as int] is Fail);
                    return 1;
                },
                _ => {},
            }
            i += 1;
        }
        0
    }
}

/// Reviews `repo`: tests every contract in order and collects what to log.
pub fn review(repo: &Checkout) -> (done: Review)
    ensures
        done@ == reviewed(repo@),
{
    let list = contracts();
    let mut records: Vec<LogRecord> = Vec::new();
    let mut results: Vec<ContractResult> = Vec::new();
    let mut i: usize = 0;
    while i < 4
        invariant
            i <= 4,
            list@ == contract_sequence(),
            records.deep_view() == lines(repo@, i as int),
            results.deep_view() == verdicts(repo@, i as int),
            forall|j: int| 0 <= j < i ==> (#[trigger] contract_sequence()[j]).testable(repo@),
        decreases 4 - i,
    {
        let contract = list[i];
        let name = contract.name();
        records.push(announce(name));
        if !contract.can_test(repo) {
            proof {
                lemma_first_hit_unique(contract_sequence(), untestable_on(repo@), i as int);
                assert(records.deep_view() == lines(repo@, i as int).push(start_line(contract.label())));
            }
            return Review { records, results, broke_off_at: Some(contract) };
        }
        let result = contract.test(repo);
        records.push(report(name, &result));
        let ghost found = result@;
        results.push(result);
        proof {
            assert(verdicts(repo@, i + 1) =~= verdicts(repo@, i as int).push(found));
        }
        i += 1;
    }
    proof {
        lemma_first_hit_unique(contract_sequence(), untestable_on(repo@), 4);
    }
    Review { records, results, broke_off_at: None }
}

/// A checkout that meets every contract: no path of the index contains
/// `.gitkeep`, the README holds no placeholder, the LICENSE carries the
/// copyright line, and all four preview images are known.
pub open spec fn meets_all(repo: CheckoutView) -> bool {
    &&& forall|i: int|
        0 <= i < repo.index_paths.len() ==> !occurs_in(#[trigger] repo.index_paths[i], gitkeep())
    &&& repo.readme is Some
    &&& forall|i: int|
        0 <= i < readme_placeholders().len() ==> !occurs_in(
            repo.readme->0,
            #[trigger] readme_placeholders()[i],
        )
    &&& repo.license is Some
    &&& occurs_in(repo.license->0, copyright_line())
    &&& forall|i: int|
        0 <= i < asset_paths().len() ==> repo.known_paths.contains(#[trigger] asset_paths()[i])
}

/// Where both files can be read, the review tests all four contracts, and
/// each result is what that contract finds on its own.
pub proof fn law_review_runs_through(repo: CheckoutView)
    requires
        repo.readme is Some,
        repo.license is Some,
    ensures
        reviewed(repo).broke_off_at is None,
        reviewed(repo).results == seq![
            NoGitKeepContract.verdict(repo),
            ReadmeContract.verdict(repo),
            AssetsContract.verdict(repo),
            LicenseContract.verdict(repo),
        ],
{
    lemma_first_hit_unique(contract_sequence(), untestable_on(repo), 4);
    assert(verdicts(repo, 4) =~= seq![
        NoGitKeepContract.verdict(repo),
        ReadmeContract.verdict(repo),
        AssetsContract.verdict(repo),
        LicenseContract.verdict(repo),
    ]);
}

/// Where the README cannot be read, the review breaks off at the README
/// contract: only the contract before it has been tested.
pub proof fn law_unreadable_readme_breaks_off(repo: CheckoutView)
    requires
        repo.readme is None,
    ensures
        reviewed(repo).broke_off_at == Some(Contract::Readme),
        reviewed(repo).results == seq![NoGitKeepContract.verdict(repo)],
        exit_status_of(reviewed(repo)) == 1,
{
    lemma_first_hit_unique(contract_sequence(), untestable_on(repo), 1);
    assert(verdicts(repo, 1) =~= seq![NoGitKeepContract.verdict(repo)]);
}

/// Where the README can be read and the LICENSE cannot, the review breaks off
/// at the LICENSE contract: the three contracts before it have been tested.
pub proof fn law_unreadable_license_breaks_off(repo: CheckoutView)
    requires
        repo.readme is Some,
        repo.license is None,
    ensures
        reviewed(repo).broke_off_at == Some(Contract::License),
        reviewed(repo).results == seq![
            NoGitKeepContract.verdict(repo),
            ReadmeContract.verdict(repo),
            AssetsContract.verdict(repo),
        ],
        exit_status_of(reviewed(repo)) == 1,
{
    lemma_first_hit_unique(contract_sequence(), untestable_on(repo), 3);
    assert(verdicts(repo, 3) =~= seq![
        NoGitKeepContract.verdict(repo),
        ReadmeContract.verdict(repo),
        AssetsContract.verdict(repo),
    ]);
}

/// The review of a checkout that meets every contract reports four passes
/// and ends with exit status 0.
pub proof fn law_clean_repository_passes(repo: CheckoutView)
    requires
        meets_all(repo),
    ensures
        reviewed(repo).broke_off_at is None,
        reviewed(repo).results == seq![Verdict::Pass, Verdict::Pass, Verdict::Pass, Verdict::Pass],
        exit_status_of(reviewed(repo)) == 0,
{
    law_review_runs_through(repo);
    law_index_without_gitkeep_passes(repo);
    law_readme_without_placeholder_passes(repo);
    law_known_assets_pass(repo);
}

/// A placeholder left in the README makes the README contract fail and the
/// review end with exit status 1; what the other three contracts find is not
/// touched by it.
pub proof fn law_placeholder_in_readme_fails_review(repo: CheckoutView, which: int)
    requires
        repo.readme is Some,
        repo.license is Some,
        0 <= which < readme_placeholders().len(),
        occurs_in(repo.readme->0, readme_placeholders()[which]),
    ensures
        reviewed(repo).results.len() == 4,
        reviewed(repo).results[0] == NoGitKeepContract.verdict(repo),
        reviewed(repo).results[1] == ReadmeContract.verdict(repo),
        reviewed(repo).results[1] is Fail,
        reviewed(repo).results[2] == AssetsContract.verdict(repo),
        reviewed(repo).results[3] == LicenseContract.verdict(repo),
        exit_status_of(reviewed(repo)) == 1,
{
    law_review_runs_through(repo);
    law_readme_with_placeholder_fails(repo, which);
}

/// A failure of any contract makes the review end with exit status 1.
pub proof fn law_failure_fails_review(review: ReviewView, at: int)
    requires
        0 <= at < review.results.len(),
        review.results[at] is Fail,
    ensures
        exit_status_of(review) == 1,
{
}

/// A warning does not count against the exit status: a review that tested
/// every contract and met no failure ends with status 0.
pub proof fn law_warning_does_not_fail_review(review: ReviewView)
    requires
        review.broke_off_at is None,
        forall|i: int| 0 <= i < review.results.len() ==> !(#[trigger] review.results[i] is Fail),
    ensures
        exit_status_of(review) == 0,
{
}

/// Reviewing a checkout a second time, with nothing changed in between,
/// gives the same results, the same lines and the same exit status.
pub proof fn law_review_is_repeatable(repo: Checkout, first: Review, second: Review)
    requires
        first@ == reviewed(repo@),
        second@ == reviewed(repo@),
    ensures
        first@ == second@,
        exit_status_of(first@) == exit_status_of(second@),
{
}

} // verus!
