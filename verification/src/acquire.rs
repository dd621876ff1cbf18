//! Where the repository under review comes from: the local directory that a
//! URL stands for, and whether that directory is opened or cloned into.

use vstd::prelude::*;
use vstd::string::{StrSliceExecFns, StringExecFns};
use crate::record::{announce_clone, cloning_line, LogLine, LogRecord};
use crate::text::chars_of;

verus! {

/// The position in `url` that follows its last `/`; 0 where it holds none.
pub open spec fn location_start(url: Seq<char>) -> int
    decreases url.len(),
{
    if url.len() == 0 {
        0
    } else if url.last() == '/' {
        url.len() as int
    } else {
        location_start(url.drop_last())
    }
}

/// The local directory that `url` stands for: what follows its last `/`, and
/// all of it where it holds none.
pub open spec fn location_of(url: Seq<char>) -> Seq<char> {
    url.subrange(location_start(url), url.len() as int)
}

/// A position that follows a `/` or is 0, with no `/` behind it, is the
/// position that `location_start` names.
proof fn lemma_location_start(url: Seq<char>, start: int)
    requires
        0 <= start <= url.len(),
        start > 0 ==> url[start - 1] == '/',
        forall|j: int| start <= j < url.len() ==> url[j] != '/',
    ensures
        location_start(url) == start,
    decreases url.len(),
{
    if start < url.len() {
        lemma_location_start(url.drop_last(), start);
    }
}

/// The location of a URL holds no `/`, and what stands before it in the URL
/// is nothing or ends in `/`: it is the URL's last segment.
pub proof fn law_location_is_last_segment(url: Seq<char>)
    ensures
        0 <= location_start(url) <= url.len(),
        location_start(url) > 0 ==> url[location_start(url) - 1] == '/',
        forall|i: int| 0 <= i < location_of(url).len() ==> location_of(url)[i] != '/',
        url.subrange(0, location_start(url)) + location_of(url) == url,
    decreases url.len(),
{
    if url.len() > 0 && url.last() != '/' {
        let front = url.drop_last();
        law_location_is_last_segment(front);
        assert forall|i: int| 0 <= i < location_of(url).len() implies location_of(url)[i] != '/' by {
            if i < location_of(front).len() {
                assert(location_of(url)[i] == location_of(front)[i]);
            }
        }
    }
}

/// The local directory that `repo_url` stands for.
pub fn extract_repository_location_from_url(repo_url: &str) -> (location: &str)
    ensures
        location@ == location_of(repo_url@),
{
    let chars = chars_of(repo_url);
    let mut start: usize = chars.len();
    while start > 0 && chars[start - 1] != '/'
        invariant
            start <= chars.len(),
            forall|j: int| start <= j < chars.len() ==> chars@[j] != '/',
        decreases start,
    {
        start -= 1;
    }
    proof {
        lemma_location_start(chars@, start as int);
    }
    repo_url.substring_char(start, chars.len())
}

/// The repository under review: its URL and the local directory that the
/// URL stands for. A target is made once and not changed afterwards.
#[derive(Debug, PartialEq, Eq)]
pub struct ReviewTarget {
    pub url: String,
    pub location: String,
}

/// The mathematical content of a `ReviewTarget`.
pub struct ReviewTargetView {
    pub url: Seq<char>,
    pub location: Seq<char>,
}

impl View for ReviewTarget {
    type V = ReviewTargetView;

    open spec fn view(&self) -> ReviewTargetView {
        ReviewTargetView { url: self.url@, location: self.location@ }
    }
}

/// The target that `url` names.
pub open spec fn target_of(url: Seq<char>) -> ReviewTargetView {
    ReviewTargetView { url, location: location_of(url) }
}

impl ReviewTarget {
    /// Whether the location is the one that the URL stands for.
    pub open spec fn wf(&self) -> bool {
        self@ == target_of(self.url@)
    }

    /// The target that `repo_url` names.
    pub fn new(repo_url: &str) -> (target: ReviewTarget)
        ensures
            target@ == target_of(repo_url@),
            target.wf(),
    {
        ReviewTarget {
            url: String::from_str(repo_url),
            location: String::from_str(extract_repository_location_from_url(repo_url)),
        }
    }
}

/// The home directory that is in force while a clone runs, so that the clone
/// sees none of the invoking user's credentials or configuration.
pub open spec fn isolated_home() -> Seq<char> {
    "/tmp/cli-home"@
}

/// How the repository under review is got hold of.
#[derive(Debug, PartialEq, Eq)]
pub enum Acquisition {
    /// Open the repository that is already at the target's location.
    Open { target: ReviewTarget },
    /// Log `notice`, then clone the target's URL into its location; while the
    /// clone runs, the home directory is `home`.
    Clone { target: ReviewTarget, home: String, notice: LogRecord },
}

/// The mathematical content of an `Acquisition`.
pub enum AcquisitionView {
    Open { target: ReviewTargetView },
    Clone { target: ReviewTargetView, home: Seq<char>, notice: LogLine },
}

impl View for Acquisition {
    type V = AcquisitionView;

    open spec fn view(&self) -> AcquisitionView {
        match self {
            Acquisition::Open { target } => AcquisitionView::Open { target: target@ },
            Acquisition::Clone { target, home, notice } => AcquisitionView::Clone {
                target: target@,
                home: home@,
                notice: notice@,
            },
        }
    }
}

/// How the repository at `url` is got hold of: the directory that the URL
/// stands for is opened where the clone is skipped, and cloned into
/// otherwise, after a line that says so.
pub open spec fn acquisition_of(url: Seq<char>, skip_clone: bool) -> AcquisitionView {
    if skip_clone {
        AcquisitionView::Open { target: target_of(url) }
    } else {
        AcquisitionView::Clone {
            target: target_of(url),
            home: isolated_home(),
            notice: cloning_line(url, location_of(url)),
        }
    }
}

/// Decides how the repository at `repo_url` is got hold of.
pub fn plan_acquisition(repo_url: &str, skip_clone: bool) -> (plan: Acquisition)
    ensures
        plan@ == acquisition_of(repo_url@, skip_clone),
{
    let target = ReviewTarget::new(repo_url);
    if skip_clone {
        Acquisition::Open { target }
    } else {
        let notice = announce_clone(target.url.as_str(), target.location.as_str());
        Acquisition::Clone { target, home: String::from_str("/tmp/cli-home"), notice }
    }
}

} // verus!
