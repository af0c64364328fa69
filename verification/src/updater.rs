use vstd::prelude::*;

use crate::text::{code_point, last_index_of, rfind_char};
use crate::ui::taskdialog::{TaskDialogAction, TaskDialogResult};

verus! {

/// Why an update could not be made.
#[derive(Clone, Copy, Debug, PartialEq, Eq, Structural)]
pub enum UpdateError {
    QueryReleases,
    DownloadRelease,
    TokioRuntime,
    Zip,
    Interrupted,
    RemoveOld,
}

/// A release of the application.
#[derive(Debug)]
pub struct ReleaseInfo {
    /// The version of the release, as in "2.1.0".
    pub version: String,
    /// Where the installer of the release can be downloaded.
    pub download_url: String,
}

/// A version number: major, minor and patch.
#[derive(Clone, Copy, Debug, PartialEq, Eq, Structural)]
pub struct Version {
    pub major: u8,
    pub minor: u8,
    pub patch: u8,
}

/// What the user decided about an update that was offered.
#[derive(Clone, Copy, Debug, PartialEq, Eq, Structural)]
pub struct UpdateChoice {
    /// Whether to look for updates at startup from now on.
    pub autoupdate: bool,
    /// Whether to download and install the update now.
    pub install: bool,
}

impl UpdateError {
    /// The message of the error.
    pub open spec fn message(self) -> Seq<char> {
        match self {
            UpdateError::QueryReleases => "unable to query releases from GitHub"@,
            UpdateError::DownloadRelease => "unable to download release from GitHub"@,
            UpdateError::TokioRuntime => "unable to construct Tokio runtime"@,
            UpdateError::Zip => "unable to extract update files"@,
            UpdateError::Interrupted => "update was interrupted by user"@,
            UpdateError::RemoveOld => "failed to remove previous version"@,
        }
    }

    /// Returns the message of the error.
    pub fn as_str(self) -> (r: &'static str)
        ensures
            r@ == self.message(),
    {
        match self {
            UpdateError::QueryReleases => "unable to query releases from GitHub",
            UpdateError::DownloadRelease => "unable to download release from GitHub",
            UpdateError::TokioRuntime => "unable to construct Tokio runtime",
            UpdateError::Zip => "unable to extract update files",
            UpdateError::Interrupted => "update was interrupted by user",
            UpdateError::RemoveOld => "failed to remove previous version",
        }
    }

    /// Returns the message of the error as an owned string.
    pub fn to_string(&self) -> (r: String)
        ensures
            r@ == self.message(),
    {
        String::from_str(self.as_str())
    }
}

/// The value of the decimal digit `c`, if it is one.
pub open spec fn digit_value(c: char) -> Option<u8> {
    if '0' <= c <= '9' {
        Some((c as u32 - 48) as u8)
    } else {
        None
    }
}

impl Version {
    /// The version that has no release.
    pub open spec fn zero() -> Version {
        Version { major: 0, minor: 0, patch: 0 }
    }

    /// The version that a text gives: its first, third and fifth character,
    /// each a single decimal digit, are the major, minor and patch number. A
    /// text with fewer than five characters, or with anything but a digit at
    /// one of the three places, gives none.
    pub open spec fn parsed(text: Seq<char>) -> Option<Version> {
        if text.len() < 5 {
            None
        } else {
            match (digit_value(text[0]), digit_value(text[2]), digit_value(text[4])) {
                (Some(major), Some(minor), Some(patch)) => Some(Version { major, minor, patch }),
                _ => None,
            }
        }
    }

    /// Whether this version is newer than `other`: the major numbers decide,
    /// then the minor numbers, then the patch numbers.
    pub open spec fn newer_than(self, other: Version) -> bool {
        self.major > other.major || (self.major == other.major && self.minor > other.minor) || (
        self.major == other.major && self.minor == other.minor && self.patch > other.patch)
    }

    /// Reads a version from a text such as "2.1.0".
    pub fn parse(text: &str) -> (r: Option<Version>)
        ensures
            r == Self::parsed(text@),
    {
        if text.unicode_len() < 5 {
            return None;
        }
        let major = match digit_of(text.get_char(0)) {
            Some(d) => d,
            None => { return None; },
        };
        let minor = match digit_of(text.get_char(2)) {
            Some(d) => d,
            None => { return None; },
        };
        let patch = match digit_of(text.get_char(4)) {
            Some(d) => d,
            None => { return None; },
        };
        Some(Version { major, minor, patch })
    }

    /// True if this version is newer than `other`.
    pub fn is_newer_than(&self, other: &Version) -> (r: bool)
        ensures
            r == self.newer_than(*other),
    {
        self.major > other.major || (self.major == other.major && self.minor > other.minor) || (
        self.major == other.major && self.minor == other.minor && self.patch > other.patch)
    }
}

/// Returns the value of the decimal digit `c`, if it is one.
fn digit_of(c: char) -> (r: Option<u8>)
    ensures
        r == digit_value(c),
{
    let code = code_point(c);
    if 48 <= code && code <= 57 {
        Some((code - 48) as u8)
    } else {
        None
    }
}

/// "Newer than" is a strict order: no version is newer than itself, and of
/// two different versions exactly one is newer than the other.
pub proof fn lemma_newer_is_strict_order(a: Version, b: Version, c: Version)
    ensures
        !a.newer_than(a),
        a != b ==> (a.newer_than(b) <==> !b.newer_than(a)),
        a.newer_than(b) && b.newer_than(c) ==> a.newer_than(c),
{
}

/// The version of the release that `query_latest` picks among the first
/// `releases`, or the zero version if it picks none.
pub open spec fn latest_version(releases: Seq<ReleaseInfo>) -> Version
    decreases releases.len(),
{
    if releases.len() == 0 {
        Version::zero()
    } else {
        let before = latest_version(releases.drop_last());
        match Version::parsed(releases.last().version@) {
            Some(version) => if version.newer_than(before) {
                version
            } else {
                before
            },
            None => before,
        }
    }
}

/// The position of the release that `query_latest` picks among `releases`:
/// the first one with the newest version. Releases whose version cannot be
/// read, and releases of the zero version, are passed over.
pub open spec fn latest_index(releases: Seq<ReleaseInfo>) -> Option<int>
    decreases releases.len(),
{
    if releases.len() == 0 {
        None
    } else {
        let before = releases.drop_last();
        match Version::parsed(releases.last().version@) {
            Some(version) => if version.newer_than(latest_version(before)) {
                Some(releases.len() - 1)
            } else {
                latest_index(before)
            },
            None => latest_index(before),
        }
    }
}

/// What `latest_index` picks is a release of the list with the newest
/// version, and the first such: no release has a newer version, and none
/// before it has the same.
pub proof fn lemma_latest_is_newest(releases: Seq<ReleaseInfo>)
    ensures
        match latest_index(releases) {
            Some(at) => 0 <= at < releases.len() && Version::parsed(releases[at].version@) == Some(
                latest_version(releases),
            ) && latest_version(releases) != Version::zero(),
            None => latest_version(releases) == Version::zero(),
        },
        forall|i: int|
            0 <= i < releases.len() ==> match Version::parsed((#[trigger] releases[i]).version@) {
                Some(version) => !version.newer_than(latest_version(releases)),
                None => true,
            },
        forall|i: int|
            0 <= i < releases.len() && latest_index(releases) is Some && i < latest_index(
                releases,
            ).unwrap() ==> Version::parsed((#[trigger] releases[i]).version@) != Some(
                latest_version(releases),
            ),
    decreases releases.len(),
{
    if releases.len() > 0 {
        let before = releases.drop_last();
        lemma_latest_is_newest(before);
        assert forall|i: int| 0 <= i < before.len() implies before[i] == releases[i] by {}
        assert forall|i: int| 0 <= i < releases.len() implies match Version::parsed(
            (#[trigger] releases[i]).version@,
        ) {
            Some(version) => !version.newer_than(latest_version(releases)),
            None => true,
        } by {
            if i < before.len() {
                assert(before[i] == releases[i]);
            }
        }
        assert forall|i: int|
            0 <= i < releases.len() && latest_index(releases) is Some && i < latest_index(
                releases,
            ).unwrap() implies Version::parsed((#[trigger] releases[i]).version@) != Some(
            latest_version(releases),
        ) by {
            assert(before[i] == releases[i]);
        }
    }
}

/// Picks the latest of `releases`: the first release with the newest
/// version. Releases whose version cannot be read are passed over; `None` if
/// no release is left then.
pub fn query_latest(releases: &Vec<ReleaseInfo>) -> (r: Option<ReleaseInfo>)
    ensures
        match (r, latest_index(releases@)) {
            (Some(release), Some(at)) => release.version@ == releases@[at].version@
                && release.download_url@ == releases@[at].download_url@,
            (None, None) => true,
            _ => false,
        },
{
    let mut latest_version_found = Version { major: 0, minor: 0, patch: 0 };
    let mut latest: Option<usize> = None;
    let mut i: usize = 0;
    while i < releases.len()
        invariant
            0 <= i <= releases.len(),
            latest_version_found == latest_version(releases@.take(i as int)),
            match (latest, latest_index(releases@.take(i as int))) {
                (Some(found), Some(at)) => found == at && 0 <= at < i,
                (None, None) => true,
                _ => false,
            },
        decreases releases.len() - i,
    {
        proof {
            assert(releases@.take(i + 1).drop_last() =~= releases@.take(i as int));
        }
        match Version::parse(releases[i].version.as_str()) {
            Some(version) => {
                if version.is_newer_than(&latest_version_found) {
                    latest_version_found = version;
                    latest = Some(i);
                }
            },
            None => {},
        }
        i = i + 1;
    }
    proof {
        assert(releases@.take(i as int) =~= releases@);
    }
    match latest {
        Some(at) => Some(
            ReleaseInfo {
                version: releases[at].version.clone(),
                download_url: releases[at].download_url.clone(),
            },
        ),
        None => None,
    }
}

/// Decides whether `latest`, the latest release that exists, is offered as an
/// update to the running version `current`: it is if its version is newer.
/// Nothing is offered if one of the two versions cannot be read.
pub fn check(current: &str, latest: Option<ReleaseInfo>) -> (r: Option<ReleaseInfo>)
    ensures
        r == (match latest {
            Some(release) => match (Version::parsed(release.version@), Version::parsed(current@)) {
                (Some(found), Some(running)) => if found.newer_than(running) {
                    Some(release)
                } else {
                    None
                },
                _ => None,
            },
            None => None,
        }),
{
    let release = match latest {
        Some(release) => release,
        None => { return None; },
    };
    let running = match Version::parse(current) {
        Some(version) => version,
        None => { return None; },
    };
    let found = match Version::parse(release.version.as_str()) {
        Some(version) => version,
        None => { return None; },
    };
    if found.is_newer_than(&running) {
        Some(release)
    } else {
        None
    }
}

/// The address from which the installer of the version `version` is
/// downloaded.
pub open spec fn installer_url(version: Seq<char>) -> Seq<char> {
    "https://github.com/imxela/xterminate/releases/download/v"@ + version
        + "/xterminate-setup.exe"@
}

/// The address from which the portable archive of the version `version` is
/// downloaded.
pub open spec fn archive_url(version: Seq<char>) -> Seq<char> {
    "https://github.com/imxela/xterminate/releases/download/v"@ + version
        + "/xterminate-portable.zip"@
}

/// The version that the name `tag` of a release tag gives, as in
/// "refs/tags/v2.1.0": what stands behind the last slash and the letter that
/// follows it. A name without a slash, or with nothing behind its last
/// slash, gives none.
pub open spec fn tag_version(tag: Seq<char>) -> Option<Seq<char>> {
    let slash = last_index_of(tag, '/');
    if slash >= 0 && slash + 2 <= tag.len() {
        Some(tag.skip(slash + 2))
    } else {
        None
    }
}

/// Returns the address from which the portable archive of `release` is
/// downloaded.
pub fn download_url(release: &ReleaseInfo) -> (r: String)
    ensures
        r@ == archive_url(release.version@),
{
    let mut url = String::from_str("https://github.com/imxela/xterminate/releases/download/v");
    url.append(release.version.as_str());
    url.append("/xterminate-portable.zip");
    url
}

/// Returns what the application calls itself in its requests.
pub fn user_agent(current: &str) -> (r: String)
    ensures
        r@ == "xterminate/"@ + current@,
{
    let mut agent = String::from_str("xterminate/");
    agent.append(current);
    agent
}

/// Reads the release that a release tag of the repository stands for from
/// the name of the tag.
pub fn release_of_tag(tag: &str) -> (r: Option<ReleaseInfo>)
    ensures
        match (r, tag_version(tag@)) {
            (Some(release), Some(version)) => release.version@ == version && release.download_url@
                == installer_url(version),
            (None, None) => true,
            _ => false,
        },
{
    let len = tag.unicode_len();
    proof {
        crate::text::lemma_last_index_of(tag@, '/');
    }
    let slash = match rfind_char(tag, '/') {
        Some(at) => at,
        None => { return None; },
    };
    if len - slash < 2 {
        return None;
    }
    let version = tag.substring_char(slash + 2, len);
    proof {
        assert(tag@.subrange(slash + 2, len as int) =~= tag@.skip(slash + 2));
    }
    let mut url = String::from_str("https://github.com/imxela/xterminate/releases/download/v");
    url.append(version);
    url.append("/xterminate-setup.exe");
    Some(ReleaseInfo { version: String::from_str(version), download_url: url })
}

/// Reads the releases that the release tags `tags` stand for, in the same
/// order. A tag whose name gives no version is left out.
pub fn query_all(tags: &Vec<String>) -> (r: Vec<ReleaseInfo>)
    ensures
        r@.map_values(|release: ReleaseInfo| release.version@) == tags@.filter(
            |tag: String| tag_version(tag@) is Some,
        ).map_values(|tag: String| tag_version(tag@).unwrap()),
        forall|i: int|
            0 <= i < r.len() ==> (#[trigger] r[i]).download_url@ == installer_url(r[i].version@),
{
    let ghost named = |tag: String| tag_version(tag@) is Some;
    let ghost version_of = |tag: String| tag_version(tag@).unwrap();
    let ghost version_in = |release: ReleaseInfo| release.version@;
    let mut releases: Vec<ReleaseInfo> = Vec::new();
    let mut i: usize = 0;
    while i < tags.len()
        invariant
            0 <= i <= tags.len(),
            named == |tag: String| tag_version(tag@) is Some,
            version_of == |tag: String| tag_version(tag@).unwrap(),
            version_in == |release: ReleaseInfo| release.version@,
            releases@.map_values(version_in) == tags@.take(i as int).filter(named).map_values(
                version_of,
            ),
            forall|j: int|
                0 <= j < releases.len() ==> (#[trigger] releases[j]).download_url@
                    == installer_url(releases[j].version@),
        decreases tags.len() - i,
    {
        let ghost before = tags@.take(i as int);
        let ghost tag = tags@[i as int];
        proof {
            assert(tags@.take(i + 1) =~= before.push(tag));
            assert(before.push(tag).drop_last() =~= before);
            reveal(Seq::filter);
        }
        match release_of_tag(tags[i].as_str()) {
            Some(release) => {
                let ghost listed = releases@;
                releases.push(release);
                proof {
                    assert(before.push(tag).filter(named) =~= before.filter(named).push(tag));
                    assert(listed.push(release).map_values(version_in) =~= listed.map_values(
                        version_in,
                    ).push(release.version@));
                    assert(before.filter(named).push(tag).map_values(version_of)
                        =~= before.filter(named).map_values(version_of).push(version_of(tag)));
                }
            },
            None => {
                proof {
                    assert(before.push(tag).filter(named) =~= before.filter(named));
                }
            },
        }
        i = i + 1;
    }
    proof {
        assert(tags@.take(i as int) =~= tags@);
    }
    releases
}

/// How far a download has come, in percent: `written` bytes of `length`.
/// Nothing can be said of a download of unknown or zero length, nor of one
/// so large that the percentage cannot be computed.
pub open spec fn percent(written: usize, length: u64) -> Option<u32> {
    if length == 0 || written * 100 > usize::MAX || length > usize::MAX || written * 100 / (
    length as int) > u32::MAX {
        None
    } else {
        Some((written * 100 / (length as int)) as u32)
    }
}

/// Returns how far a download has come, in percent.
pub fn download_progress(written: usize, length: u64) -> (r: Option<u32>)
    ensures
        r == percent(written, length),
{
    if length == 0 || length > usize::MAX as u64 {
        return None;
    }
    if written > usize::MAX / 100 {
        return None;
    }
    let mapped: usize = written * 100 / (length as usize);
    if mapped > 0xFFFF_FFFF {
        return None;
    }
    Some(mapped as u32)
}

/// Reads the user's answer to the offer of an update: the update is installed
/// if the answer was yes, and updates are looked for at startup from now on
/// unless the checkbox against it was checked.
pub fn update_choice(result: &TaskDialogResult) -> (r: UpdateChoice)
    ensures
        r.autoupdate == !result.verified,
        r.install == (result.action == TaskDialogAction::Yes),
{
    UpdateChoice { autoupdate: !result.verified, install: result.action == TaskDialogAction::Yes }
}

/// Decides how an update ended when its progress dialog was closed: it was
/// completed if the download had reached all 100 percent, and interrupted by
/// the user otherwise.
pub fn update(result: &TaskDialogResult) -> (r: Result<(), UpdateError>)
    ensures
        r == (match result.progress {
            Some(progress) => if progress >= 100 {
                Ok::<(), UpdateError>(())
            } else {
                Err::<(), UpdateError>(UpdateError::Interrupted)
            },
            None => Err::<(), UpdateError>(UpdateError::Interrupted),
        }),
{
    match result.progress {
        Some(progress) => if progress >= 100 {
            Ok(())
        } else {
            Err(UpdateError::Interrupted)
        },
        None => Err(UpdateError::Interrupted),
    }
}

} // verus!
