//! What a review reads of a checked-out repository.

use vstd::prelude::*;

verus! {

/// A checked-out repository, as far as the contracts look at it. The contracts
/// only read it.
#[derive(Debug)]
pub struct Checkout {
    /// The paths recorded in the index of tracked files, in index order.
    pub index_paths: Vec<String>,
    /// The text of `README.md` in the working directory; `None` where the file
    /// is missing or is not valid text.
    pub readme: Option<String>,
    /// The text of `LICENSE` in the working directory; `None` where the file
    /// is missing or is not valid text.
    pub license: Option<String>,
    /// The paths for which a status query on the repository succeeds. A path
    /// that is not listed counts as one for which the query fails.
    pub known_paths: Vec<String>,
}

/// The mathematical content of a `Checkout`.
pub struct CheckoutView {
    pub index_paths: Seq<Seq<char>>,
    pub readme: Option<Seq<char>>,
    pub license: Option<Seq<char>>,
    pub known_paths: Set<Seq<char>>,
}

impl View for Checkout {
    type V = CheckoutView;

    open spec fn view(&self) -> CheckoutView {
        CheckoutView {
            index_paths: self.index_paths.deep_view(),
            readme: self.readme.deep_view(),
            license: self.license.deep_view(),
            known_paths: self.known_paths.deep_view().to_set(),
        }
    }
}

} // verus!
