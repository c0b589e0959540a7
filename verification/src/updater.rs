//! Which release the updater moves to.

use vstd::prelude::*;
use crate::ipc::{StatusView, UpdateStatus};
use crate::text::{contains_text, has_text, lowercase_of, owned, str_eq, to_lower};

verus! {

/// What is known of a published release.
#[derive(Debug)]
pub struct ReleaseInfo {
    pub name: String,
    pub version: String,
}

/// What a `ReleaseInfo` holds.
pub struct ReleaseView {
    pub name: Seq<char>,
    pub version: Seq<char>,
}

impl View for ReleaseInfo {
    type V = ReleaseView;

    open spec fn view(&self) -> ReleaseView {
        ReleaseView { name: self.name@, version: self.version@ }
    }
}

/// What a list of releases holds.
pub open spec fn release_views(releases: Seq<ReleaseInfo>) -> Seq<ReleaseView> {
    Seq::new(releases.len(), |i: int| releases[i]@)
}

/// A release with this name, already in lower case, and this version is a
/// pre-release: the name speaks of a beta, an alpha, a release candidate or
/// a development build, or the version has a suffix after a hyphen.
pub open spec fn marks_prerelease(lower_name: Seq<char>, version: Seq<char>) -> bool {
    ||| contains_text(lower_name, "beta"@)
    ||| contains_text(lower_name, "alpha"@)
    ||| contains_text(lower_name, "rc"@)
    ||| contains_text(lower_name, "dev"@)
    ||| contains_text(version, "-"@)
}

impl ReleaseView {
    /// The release is a pre-release.
    pub open spec fn is_prerelease(self) -> bool {
        marks_prerelease(lowercase_of(self.name), self.version)
    }

    /// The release may be installed on the chosen channel.
    pub open spec fn eligible(self, use_prereleases: bool) -> bool {
        use_prereleases || !self.is_prerelease()
    }
}

/// `i` is the place of the first release that may be installed.
pub open spec fn is_first_eligible(releases: Seq<ReleaseView>, use_prereleases: bool, i: int) -> bool {
    &&& 0 <= i < releases.len()
    &&& releases[i].eligible(use_prereleases)
    &&& forall|k: int| 0 <= k < i ==> !(#[trigger] releases[k]).eligible(use_prereleases)
}

/// No release of the list may be installed.
pub open spec fn none_eligible(releases: Seq<ReleaseView>, use_prereleases: bool) -> bool {
    forall|k: int| 0 <= k < releases.len() ==> !(#[trigger] releases[k]).eligible(use_prereleases)
}

/// Says whether a name in lower case and a version mark a pre-release.
pub fn classify(lower_name: &str, version: &str) -> (r: bool)
    ensures
        r == marks_prerelease(lower_name@, version@),
{
    has_text(lower_name, "beta") || has_text(lower_name, "alpha") || has_text(lower_name, "rc")
        || has_text(lower_name, "dev") || has_text(version, "-")
}

/// Says whether a release is a pre-release.
pub fn is_prerelease(release: &ReleaseInfo) -> (r: bool)
    ensures
        r == release@.is_prerelease(),
{
    let lower = to_lower(release.name.as_str());
    classify(lower.as_str(), release.version.as_str())
}

/// Picks the release to move to from the published ones, newest first: the
/// first that may be installed on the chosen channel, unless it is the
/// version that is running. Gives its place, or `None` when there is nothing
/// to move to.
pub fn select_release(releases: &Vec<ReleaseInfo>, use_prereleases: bool, current: &str) -> (r:
    Option<usize>)
    ensures
        match r {
            Some(i) => is_first_eligible(release_views(releases@), use_prereleases, i as int)
                && releases[i as int]@.version != current@,
            None => none_eligible(release_views(releases@), use_prereleases) || exists|i: int|
                is_first_eligible(release_views(releases@), use_prereleases, i)
                    && #[trigger] release_views(releases@)[i].version == current@,
        },
{
    let mut i: usize = 0;
    while i < releases.len()
        invariant
            i <= releases.len(),
            forall|k: int|
                0 <= k < i ==> !(#[trigger] release_views(releases@)[k]).eligible(use_prereleases),
        decreases releases.len() - i,
    {
        let release = &releases[i];
        assert(release_views(releases@)[i as int] == release@);
        if use_prereleases || !is_prerelease(release) {
            assert(is_first_eligible(release_views(releases@), use_prereleases, i as int));
            if str_eq(release.version.as_str(), current) {
                assert(release_views(releases@)[i as int].version == current@);
                return None;
            } else {
                return Some(i);
            }
        }
        i += 1;
    }
    None
}

/// What a check of the published releases amounts to: the version to move
/// to is available, or the running version is up to date.
pub open spec fn check_outcome_of(
    releases: Seq<ReleaseView>,
    use_prereleases: bool,
    current: Seq<char>,
) -> StatusView {
    if exists|i: int|
        is_first_eligible(releases, use_prereleases, i) && #[trigger] releases[i].version
            != current {
        let i = choose|i: int|
            is_first_eligible(releases, use_prereleases, i) && #[trigger] releases[i].version
                != current;
        StatusView::Available(releases[i].version)
    } else {
        StatusView::UpToDate(current)
    }
}

/// Says what a check of the published releases, newest first, amounts to.
pub fn check_outcome(releases: &Vec<ReleaseInfo>, use_prereleases: bool, current: &str) -> (r:
    UpdateStatus)
    ensures
        r@ == check_outcome_of(release_views(releases@), use_prereleases, current@),
{
    let ghost views = release_views(releases@);
    match select_release(releases, use_prereleases, current) {
        Some(i) => {
            proof {
                assert(views[i as int] == releases[i as int]@);
                let chosen = choose|k: int|
                    is_first_eligible(views, use_prereleases, k) && #[trigger] views[k].version
                        != current@;
                lemma_first_eligible_is_unique(views, use_prereleases, i as int, chosen);
            }
            UpdateStatus::Available(releases[i].version.clone())
        },
        None => {
            proof {
                if exists|k: int|
                    is_first_eligible(views, use_prereleases, k) && #[trigger] views[k].version
                        != current@ {
                    let k = choose|k: int|
                        is_first_eligible(views, use_prereleases, k) && #[trigger] views[k].version
                            != current@;
                    if none_eligible(views, use_prereleases) {
                        assert(!views[k].eligible(use_prereleases));
                    } else {
                        let j = choose|j: int|
                            is_first_eligible(views, use_prereleases, j) && #[trigger] views[j].version
                                == current@;
                        lemma_first_eligible_is_unique(views, use_prereleases, k, j);
                    }
                }
            }
            UpdateStatus::UpToDate(owned(current))
        },
    }
}

/// The tag under which a version is published: the letter `v`, then the
/// version.
pub fn release_tag(version: &str) -> (r: String)
    ensures
        r@ == "v"@ + version@,
{
    String::from_str("v").concat(version)
}

/// There is at most one first release that may be installed, so the choice
/// of the updater is determined by the list, the channel and the running
/// version.
pub proof fn lemma_first_eligible_is_unique(
    releases: Seq<ReleaseView>,
    use_prereleases: bool,
    i: int,
    j: int,
)
    requires
        is_first_eligible(releases, use_prereleases, i),
        is_first_eligible(releases, use_prereleases, j),
    ensures
        i == j,
{
    if i < j {
        assert(!releases[i].eligible(use_prereleases));
    } else if j < i {
        assert(!releases[j].eligible(use_prereleases));
    }
}

/// On the pre-release channel the newest release is the one to move to; on
/// the stable channel a pre-release is never chosen.
pub proof fn lemma_channels(releases: Seq<ReleaseView>, i: int)
    ensures
        releases.len() > 0 ==> is_first_eligible(releases, true, 0),
        is_first_eligible(releases, false, i) ==> !releases[i].is_prerelease(),
{
}

} // verus!
