//! The contracts that a repository made from the template has to meet.

use vstd::prelude::*;
use vstd::string::StringExecFns;
use crate::checkout::{Checkout, CheckoutView};
use crate::scan::{first_hit, lemma_first_hit_exists, lemma_first_hit_unique};
use crate::text::{contains, lists, occurs_in};

verus! {

/// What a contract found.
#[derive(Debug, PartialEq, Eq)]
pub enum ContractResult {
    /// The contract is broken; `msg` says by what.
    Fail { msg: String },
    /// The contract is met with a reservation; `msg` says which.
    Warn { msg: String },
    /// The contract is met.
    Pass,
}

/// The mathematical content of a `ContractResult`.
pub enum Verdict {
    Fail { msg: Seq<char> },
    Warn { msg: Seq<char> },
    Pass,
}

impl View for ContractResult {
    type V = Verdict;

    open spec fn view(&self) -> Verdict {
        match self {
            ContractResult::Fail { msg } => Verdict::Fail { msg: msg@ },
            ContractResult::Warn { msg } => Verdict::Warn { msg: msg@ },
            ContractResult::Pass => Verdict::Pass,
        }
    }
}

impl DeepView for ContractResult {
    type V = Verdict;

    open spec fn deep_view(&self) -> Verdict {
        self@
    }
}

/// A named, read-only check of a checked-out repository.
pub trait ReviewContract {
    /// The name under which the contract is reported.
    spec fn label(&self) -> Seq<char>;

    /// Whether the checkout holds everything that the contract reads.
    spec fn testable(&self, repo: CheckoutView) -> bool;

    /// What the contract finds of a checkout that holds everything it reads.
    spec fn verdict(&self, repo: CheckoutView) -> Verdict;

    /// The name under which the contract is reported.
    fn name(&self) -> (label: &str)
        ensures
            label@ == self.label(),
    ;

    /// Whether `test` can be called on `repo`.
    fn can_test(&self, repo: &Checkout) -> (ready: bool)
        ensures
            ready == self.testable(repo@),
    ;

    /// Inspects `repo` and says what it found. The repository is only read.
    fn test(&self, repo: &Checkout) -> (result: ContractResult)
        requires
            self.testable(repo@),
        ensures
            result@ == self.verdict(repo@),
    ;
}

/// The condition "contains `needle`" on texts.
pub open spec fn holds(needle: Seq<char>) -> spec_fn(Seq<char>) -> bool {
    |text: Seq<char>| occurs_in(text, needle)
}

/// The file name that marks a directory kept only as a placeholder.
pub open spec fn gitkeep() -> Seq<char> {
    ".gitkeep"@
}

/// `Fail`, citing the first path of the index that contains `.gitkeep`;
/// `Pass` when no path of the index does.
pub open spec fn no_gitkeep_verdict(index_paths: Seq<Seq<char>>) -> Verdict {
    let at = first_hit(index_paths, holds(gitkeep()));
    if at < index_paths.len() {
        Verdict::Fail { msg: "path at "@ + index_paths[at] }
    } else {
        Verdict::Pass
    }
}

/// No placeholder file of the template is left among the tracked files.
pub struct NoGitKeepContract;

impl ReviewContract for NoGitKeepContract {
    open spec fn label(&self) -> Seq<char> {
        "No .gitkeep files"@
    }

    open spec fn testable(&self, repo: CheckoutView) -> bool {
        true
    }

    open spec fn verdict(&self, repo: CheckoutView) -> Verdict {
        no_gitkeep_verdict(repo.index_paths)
    }

    fn name(&self) -> (label: &str) {
        "No .gitkeep files"
    }

    fn can_test(&self, repo: &Checkout) -> (ready: bool) {
        true
    }

    fn test(&self, repo: &Checkout) -> (result: ContractResult) {
        let mut i: usize = 0;
        while i < repo.index_paths.len()
            invariant
                i <= repo.index_paths.len(),
                forall|j: int| 0 <= j < i ==> !occurs_in(#[trigger] repo@.index_paths[j], gitkeep()),
            decreases repo.index_paths.len() - i,
        {
            let path = repo.index_paths[i].as_str();
            if contains(path, ".gitkeep") {
                proof {
                    lemma_first_hit_unique(repo@.index_paths, holds(gitkeep()), i as int);
                }
                return ContractResult::Fail { msg: String::from_str("path at ").concat(path) };
            }
            i += 1;
        }
        proof {
            lemma_first_hit_unique(repo@.index_paths, holds(gitkeep()), i as int);
        }
        ContractResult::Pass
    }
}

/// The condition "is contained in `hay`" on texts.
pub open spec fn held_by(hay: Seq<char>) -> spec_fn(Seq<char>) -> bool {
    |needle: Seq<char>| occurs_in(hay, needle)
}

/// The texts of the template's README that a repository made from it has to
/// replace: three links to the template's own pages, the four preview
/// images, and the attribution line.
pub open spec fn readme_placeholders() -> Seq<Seq<char>> {
    seq![
        "https://github.com/catppuccin/template/stargazers"@,
        "https://github.com/catppuccin/template/issues"@,
        "https://github.com/catppuccin/template/contributors"@,
        "https://raw.githubusercontent.com/catppuccin/catppuccin/main/assets/previews/latte.webp"@,
        "https://raw.githubusercontent.com/catppuccin/catppuccin/main/assets/previews/frappe.webp"@,
        "https://raw.githubusercontent.com/catppuccin/catppuccin/main/assets/previews/macchiato.webp"@,
        "https://raw.githubusercontent.com/catppuccin/catppuccin/main/assets/previews/mocha.webp"@,
        "- [Human](https://github.com/catppuccin)"@,
    ]
}

/// `Fail`, citing the first placeholder, in the order of
/// `readme_placeholders`, that the README contains; `Pass` when it contains
/// none.
pub open spec fn readme_verdict(readme: Seq<char>) -> Verdict {
    let at = first_hit(readme_placeholders(), held_by(readme));
    if at < readme_placeholders().len() {
        Verdict::Fail { msg: "README contains '"@ + readme_placeholders()[at] + "'"@ }
    } else {
        Verdict::Pass
    }
}

/// The README no longer holds any placeholder of the template.
pub struct ReadmeContract;

impl ReadmeContract {
    /// The file that the contract reads, relative to the working directory.
    pub fn file_name() -> (file: &'static str)
        ensures
            file@ == "README.md"@,
    {
        "README.md"
    }

    /// The placeholders, in the order in which the contract looks for them.
    pub fn placeholders() -> (list: [&'static str; 8])
        ensures
            list@.len() == readme_placeholders().len(),
            forall|i: int| 0 <= i < 8 ==> (#[trigger] list@[i])@ == readme_placeholders()[i],
    {
        [
            "https://github.com/catppuccin/template/stargazers",
            "https://github.com/catppuccin/template/issues",
            "https://github.com/catppuccin/template/contributors",
            "https://raw.githubusercontent.com/catppuccin/catppuccin/main/assets/previews/latte.webp",
            "https://raw.githubusercontent.com/catppuccin/catppuccin/main/assets/previews/frappe.webp",
            "https://raw.githubusercontent.com/catppuccin/catppuccin/main/assets/previews/macchiato.webp",
            "https://raw.githubusercontent.com/catppuccin/catppuccin/main/assets/previews/mocha.webp",
            "- [Human](https://github.com/catppuccin)",
        ]
    }
}

impl ReviewContract for ReadmeContract {
    open spec fn label(&self) -> Seq<char> {
        "README is correct"@
    }

    open spec fn testable(&self, repo: CheckoutView) -> bool {
        repo.readme is Some
    }

    open spec fn verdict(&self, repo: CheckoutView) -> Verdict {
        readme_verdict(repo.readme->0)
    }

    fn name(&self) -> (label: &str) {
        "README is correct"
    }

    fn can_test(&self, repo: &Checkout) -> (ready: bool) {
        repo.readme.is_some()
    }

    fn test(&self, repo: &Checkout) -> (result: ContractResult) {
        let readme = repo.readme.as_ref().unwrap().as_str();
        let to_check = Self::placeholders();
        let mut i: usize = 0;
        while i < 8
            invariant
                i <= 8,
                readme@ == repo@.readme->0,
                to_check@.len() == readme_placeholders().len() == 8,
                forall|j: int| 0 <= j < 8 ==> (#[trigger] to_check@[j])@ == readme_placeholders()[j],
                forall|j: int| 0 <= j < i ==> !occurs_in(readme@, #[trigger] readme_placeholders()[j]),
            decreases 8 - i,
        {
            let placeholder = to_check[i];
            if contains(readme, placeholder) {
                proof {
                    lemma_first_hit_unique(readme_placeholders(), held_by(readme@), i as int);
                }
                return ContractResult::Fail {
                    msg: String::from_str("README contains '").concat(placeholder).concat("'"),
                };
            }
            i += 1;
        }
        proof {
            lemma_first_hit_unique(readme_placeholders(), held_by(readme@), 8);
        }
        ContractResult::Pass
    }
}

/// The copyright line that the LICENSE of every such repository carries.
pub open spec fn copyright_line() -> Seq<char> {
    "Copyright (c) 2021 Catppuccin"@
}

/// `Pass` when the LICENSE contains the copyright line; otherwise `Warn`,
/// naming the line that was expected.
pub open spec fn license_verdict(license: Seq<char>) -> Verdict {
    if occurs_in(license, copyright_line()) {
        Verdict::Pass
    } else {
        Verdict::Warn { msg: "LICENSE header is wrong, expected "@ + copyright_line() }
    }
}

/// The LICENSE carries the expected copyright line.
pub struct LicenseContract;

impl LicenseContract {
    /// The file that the contract reads, relative to the working directory.
    pub fn file_name() -> (file: &'static str)
        ensures
            file@ == "LICENSE"@,
    {
        "LICENSE"
    }
}

impl ReviewContract for LicenseContract {
    open spec fn label(&self) -> Seq<char> {
        "LICENSE is correct"@
    }

    open spec fn testable(&self, repo: CheckoutView) -> bool {
        repo.license is Some
    }

    open spec fn verdict(&self, repo: CheckoutView) -> Verdict {
        license_verdict(repo.license->0)
    }

    fn name(&self) -> (label: &str) {
        "LICENSE is correct"
    }

    fn can_test(&self, repo: &Checkout) -> (ready: bool) {
        repo.license.is_some()
    }

    fn test(&self, repo: &Checkout) -> (result: ContractResult) {
        let license = repo.license.as_ref().unwrap().as_str();
        let needle = "Copyright (c) 2021 Catppuccin";
        if !contains(license, needle) {
            return ContractResult::Warn {
                msg: String::from_str("LICENSE header is wrong, expected ").concat(needle),
            };
        }
        ContractResult::Pass
    }
}

/// The condition "is not among `known`" on paths.
pub open spec fn unknown_to(known: Set<Seq<char>>) -> spec_fn(Seq<char>) -> bool {
    |path: Seq<char>| !known.contains(path)
}

/// The preview images that every such repository holds, one for each
/// flavour, in the order in which they are looked for.
pub open spec fn asset_paths() -> Seq<Seq<char>> {
    seq![
        "assets/mocha.webp"@,
        "assets/latte.webp"@,
        "assets/macchiato.webp"@,
        "assets/frappe.webp"@,
    ]
}

/// `Fail`, citing the first path, in the order of `asset_paths`, that is not
/// among `known`; `Pass` when all four are.
pub open spec fn assets_verdict(known: Set<Seq<char>>) -> Verdict {
    let at = first_hit(asset_paths(), unknown_to(known));
    if at < asset_paths().len() {
        Verdict::Fail { msg: "path '"@ + asset_paths()[at] + "' is not valid"@ }
    } else {
        Verdict::Pass
    }
}

/// The four preview images are there and known to the repository.
pub struct AssetsContract;

impl AssetsContract {
    /// The paths whose status the contract asks for, in that order.
    pub fn paths() -> (list: [&'static str; 4])
        ensures
            list@.len() == asset_paths().len(),
            forall|i: int| 0 <= i < 4 ==> (#[trigger] list@[i])@ == asset_paths()[i],
    {
        ["assets/mocha.webp", "assets/latte.webp", "assets/macchiato.webp", "assets/frappe.webp"]
    }
}

impl ReviewContract for AssetsContract {
    open spec fn label(&self) -> Seq<char> {
        "Assets are correct"@
    }

    open spec fn testable(&self, repo: CheckoutView) -> bool {
        true
    }

    open spec fn verdict(&self, repo: CheckoutView) -> Verdict {
        assets_verdict(repo.known_paths)
    }

    fn name(&self) -> (label: &str) {
        "Assets are correct"
    }

    fn can_test(&self, repo: &Checkout) -> (ready: bool) {
        true
    }

    fn test(&self, repo: &Checkout) -> (result: ContractResult) {
        let paths = Self::paths();
        let mut i: usize = 0;
        while i < 4
            invariant
                i <= 4,
                paths@.len() == asset_paths().len() == 4,
                forall|j: int| 0 <= j < 4 ==> (#[trigger] paths@[j])@ == asset_paths()[j],
                forall|j: int| 0 <= j < i ==> repo@.known_paths.contains(#[trigger] asset_paths()[j]),
            decreases 4 - i,
        {
            let path = paths[i];
            if !lists(&repo.known_paths, path) {
                proof {
                    lemma_first_hit_unique(asset_paths(), unknown_to(repo@.known_paths), i as int);
                }
                return ContractResult::Fail {
                    msg: String::from_str("path '").concat(path).concat("' is not valid"),
                };
            }
            i += 1;
        }
        proof {
            lemma_first_hit_unique(asset_paths(), unknown_to(repo@.known_paths), 4);
        }
        ContractResult::Pass
    }
}

/// An index none of whose paths contains `.gitkeep` passes the check for
/// placeholder files.
pub proof fn law_index_without_gitkeep_passes(repo: CheckoutView)
    requires
        forall|i: int|
            0 <= i < repo.index_paths.len() ==> !occurs_in(
                #[trigger] repo.index_paths[i],
                gitkeep(),
            ),
    ensures
        NoGitKeepContract.verdict(repo) == Verdict::Pass,
{
    lemma_first_hit_unique(repo.index_paths, holds(gitkeep()), repo.index_paths.len() as int);
}

/// An index with a path that contains `.gitkeep` fails the check for
/// placeholder files, and the failure cites the first such path of the index.
pub proof fn law_index_with_gitkeep_fails(repo: CheckoutView, at: int)
    requires
        0 <= at < repo.index_paths.len(),
        occurs_in(repo.index_paths[at], gitkeep()),
    ensures
        ({
            let first = first_hit(repo.index_paths, holds(gitkeep()));
            &&& 0 <= first <= at
            &&& occurs_in(repo.index_paths[first], gitkeep())
            &&& forall|j: int| 0 <= j < first ==> !occurs_in(#[trigger] repo.index_paths[j], gitkeep())
            &&& NoGitKeepContract.verdict(repo) == Verdict::Fail {
                msg: "path at "@ + repo.index_paths[first],
            }
        }),
{
    lemma_first_hit_exists(repo.index_paths, holds(gitkeep()));
}

/// A README that contains none of the placeholders passes.
pub proof fn law_readme_without_placeholder_passes(repo: CheckoutView)
    requires
        repo.readme is Some,
        forall|i: int|
            0 <= i < readme_placeholders().len() ==> !occurs_in(
                repo.readme->0,
                #[trigger] readme_placeholders()[i],
            ),
    ensures
        ReadmeContract.verdict(repo) == Verdict::Pass,
{
    lemma_first_hit_unique(
        readme_placeholders(),
        held_by(repo.readme->0),
        readme_placeholders().len() as int,
    );
}

/// A README that contains one of the placeholders fails, and the failure
/// cites, letter for letter, the first placeholder of the list that the
/// README contains.
pub proof fn law_readme_with_placeholder_fails(repo: CheckoutView, which: int)
    requires
        repo.readme is Some,
        0 <= which < readme_placeholders().len(),
        occurs_in(repo.readme->0, readme_placeholders()[which]),
    ensures
        ({
            let first = first_hit(readme_placeholders(), held_by(repo.readme->0));
            &&& 0 <= first <= which
            &&& occurs_in(repo.readme->0, readme_placeholders()[first])
            &&& forall|j: int|
                0 <= j < first ==> !occurs_in(repo.readme->0, #[trigger] readme_placeholders()[j])
            &&& ReadmeContract.verdict(repo) == Verdict::Fail {
                msg: "README contains '"@ + readme_placeholders()[first] + "'"@,
            }
        }),
{
    lemma_first_hit_exists(readme_placeholders(), held_by(repo.readme->0));
}

/// A LICENSE that contains the copyright line passes.
pub proof fn law_license_with_copyright_passes(repo: CheckoutView)
    requires
        repo.license is Some,
        occurs_in(repo.license->0, copyright_line()),
    ensures
        LicenseContract.verdict(repo) == Verdict::Pass,
{
}

/// A LICENSE that lacks the copyright line draws a warning, not a failure,
/// and the warning names the line that was expected.
pub proof fn law_license_without_copyright_warns(repo: CheckoutView)
    requires
        repo.license is Some,
        !occurs_in(repo.license->0, copyright_line()),
    ensures
        LicenseContract.verdict(repo) == (Verdict::Warn {
            msg: "LICENSE header is wrong, expected Copyright (c) 2021 Catppuccin"@,
        }),
{
    reveal_strlit("LICENSE header is wrong, expected ");
    reveal_strlit("Copyright (c) 2021 Catppuccin");
    reveal_strlit("LICENSE header is wrong, expected Copyright (c) 2021 Catppuccin");
    assert("LICENSE header is wrong, expected "@ + "Copyright (c) 2021 Catppuccin"@
        =~= "LICENSE header is wrong, expected Copyright (c) 2021 Catppuccin"@);
}

/// A repository that knows all four preview images passes.
pub proof fn law_known_assets_pass(repo: CheckoutView)
    requires
        forall|i: int|
            0 <= i < asset_paths().len() ==> repo.known_paths.contains(#[trigger] asset_paths()[i]),
    ensures
        AssetsContract.verdict(repo) == Verdict::Pass,
{
    lemma_first_hit_unique(asset_paths(), unknown_to(repo.known_paths), asset_paths().len() as int);
}

/// A repository that does not know one of the four preview images fails, and
/// the failure cites the first of them, in the order mocha, latte, macchiato,
/// frappe, that it does not know.
pub proof fn law_unknown_asset_fails(repo: CheckoutView, which: int)
    requires
        0 <= which < asset_paths().len(),
        !repo.known_paths.contains(asset_paths()[which]),
    ensures
        ({
            let first = first_hit(asset_paths(), unknown_to(repo.known_paths));
            &&& 0 <= first <= which
            &&& !repo.known_paths.contains(asset_paths()[first])
            &&& forall|j: int|
                0 <= j < first ==> repo.known_paths.contains(#[trigger] asset_paths()[j])
            &&& AssetsContract.verdict(repo) == Verdict::Fail {
                msg: "path '"@ + asset_paths()[first] + "' is not valid"@,
            }
        }),
{
    lemma_first_hit_exists(asset_paths(), unknown_to(repo.known_paths));
}

/// What a contract finds depends on nothing but the part of the checkout
/// that it reads: two checkouts that agree in that part get the same verdict
/// from it, whatever else differs between them.
pub proof fn law_contracts_read_their_own_part(one: CheckoutView, other: CheckoutView)
    ensures
        one.index_paths == other.index_paths ==> NoGitKeepContract.verdict(one)
            == NoGitKeepContract.verdict(other),
        one.readme == other.readme ==> ReadmeContract.verdict(one) == ReadmeContract.verdict(other),
        one.license == other.license ==> LicenseContract.verdict(one) == LicenseContract.verdict(
            other,
        ),
        one.known_paths == other.known_paths ==> AssetsContract.verdict(one)
            == AssetsContract.verdict(other),
{
}

} // verus!
