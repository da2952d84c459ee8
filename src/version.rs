//! Version tags and the reconciliation of the local binary's version with the
//! latest release.
use vstd::prelude::*;

use crate::text::{find_char_from, last_segment_of, scan_to, segment_start, segment_start_before};

verus! {

/// An opaque version tag such as `v1.7.5`; only equality is meaningful.
#[derive(Debug)]
pub struct Version {
    pub inner: String,
}

impl View for Version {
    type V = Seq<char>;

    open spec fn view(&self) -> Seq<char> {
        self.inner@
    }
}

impl PartialEq for Version {
    fn eq(&self, other: &Version) -> (r: bool)
        ensures
            r == (self@ == other@),
    {
        self.inner == other.inner
    }
}

impl vstd::std_specs::cmp::PartialEqSpecImpl for Version {
    open spec fn obeys_eq_spec() -> bool {
        true
    }

    open spec fn eq_spec(&self, other: &Version) -> bool {
        self@ == other@
    }
}

impl Version {
    pub fn from_str(s: &str) -> (r: Version)
        ensures
            r@ == s@,
    {
        Version { inner: s.to_owned() }
    }

    pub fn as_str(&self) -> (r: &str)
        ensures
            r@ == self@,
    {
        self.inner.as_str()
    }
}

/// Why a version could not be worked out.
#[derive(Debug, Clone, Copy, PartialEq, Eq)]
pub enum VersionError {
    /// The binary's `--version` output holds no space, so no second field.
    MalformedOutput,
    /// The release URL does not end in `/tag/<version>`.
    UnexpectedUrl,
}

/// Whether the local binary must be replaced by the latest release.
#[derive(Debug, Clone, Copy, PartialEq, Eq)]
pub enum Decision {
    Upgrade,
    NoAction,
}

/// What startup does with the versions it could resolve.
#[derive(Debug, PartialEq)]
pub enum Plan {
    /// Neither a local binary nor a release could be resolved.
    Fatal,
    /// Start the binary that is already installed.
    KeepCurrent,
    /// Fetch and install this release, then start it.
    Upgrade(Version),
}

/// One step of bringing the managed binary up.
#[derive(Debug, Clone, Copy, PartialEq, Eq)]
pub enum Step {
    Fetch,
    Extract,
    Install,
    Spawn,
}

/// The second space-separated field of `s`, when `s` has one.
pub open spec fn second_field(s: Seq<char>) -> Seq<char> {
    s.subrange(scan_to(s, ' ', 0) + 1, scan_to(s, ' ', scan_to(s, ' ', 0) + 1))
}

/// `s` has a second space-separated field, possibly empty: it holds a space.
pub open spec fn has_second_field(s: Seq<char>) -> bool {
    scan_to(s, ' ', 0) < s.len()
}

/// The segment before the last one of a slash-separated string.
pub open spec fn parent_segment_of(s: Seq<char>) -> Seq<char> {
    let k = segment_start(s, s.len() as int);
    s.subrange(segment_start(s, k - 1), k - 1)
}

/// A release URL names a version when it ends in `/tag/<version>`, with a
/// `/` before `tag` and a non-empty version.
pub open spec fn is_tag_url(s: Seq<char>) -> bool {
    let k = segment_start(s, s.len() as int);
    &&& k > 0
    &&& last_segment_of(s).len() > 0
    &&& segment_start(s, k - 1) > 0
    &&& parent_segment_of(s) == "tag"@
}

pub open spec fn decision_of(current: Seq<char>, latest: Seq<char>) -> Decision {
    if current == latest {
        Decision::NoAction
    } else {
        Decision::Upgrade
    }
}

/// The version number that a `--version` output reports: its second
/// space-separated field (`Xray 1.7.5 (...)` gives `1.7.5`; `Xray  1.7.5`
/// gives the empty field between the two spaces).
pub fn version_field(output: &str) -> (r: Option<String>)
    ensures
        r is Some <==> has_second_field(output@),
        r is Some ==> r->0@ == second_field(output@),
{
    let n = output.unicode_len();
    let i = find_char_from(output, ' ', 0);
    if i == n {
        return None;
    }
    let j = find_char_from(output, ' ', i + 1);
    Some(output.substring_char(i + 1, j).to_owned())
}

/// The version of the installed binary, from its `--version` output: `v`
/// followed by the version number.
pub fn parse_version_output(output: &str) -> (r: Result<Version, VersionError>)
    ensures
        r is Ok <==> has_second_field(output@),
        r is Ok ==> r->Ok_0@ == seq!['v'] + second_field(output@),
        r is Err ==> r->Err_0 == VersionError::MalformedOutput,
{
    match version_field(output) {
        Some(number) => {
            let v = String::from_str("v").concat(number.as_str());
            proof {
                reveal_strlit("v");
            }
            Ok(Version { inner: v })
        },
        None => Err(VersionError::MalformedOutput),
    }
}

/// The version that a release URL names: its last segment, when the URL ends
/// in `/tag/<version>`. An URL of another shape (the `latest` alias that was
/// not redirected, a trailing slash) is refused.
pub fn version_from_release_url(url: &str) -> (r: Result<Version, VersionError>)
    ensures
        r is Ok <==> is_tag_url(url@),
        r is Ok ==> r->Ok_0@ == last_segment_of(url@),
        r is Err ==> r->Err_0 == VersionError::UnexpectedUrl,
{
    let n = url.unicode_len();
    let k = segment_start_before(url, n);
    if k == 0 || k == n {
        return Err(VersionError::UnexpectedUrl);
    }
    let p = segment_start_before(url, k - 1);
    if p == 0 {
        return Err(VersionError::UnexpectedUrl);
    }
    let parent = url.substring_char(p, k - 1).to_owned();
    if parent == String::from_str("tag") {
        Ok(Version { inner: url.substring_char(k, n).to_owned() })
    } else {
        Err(VersionError::UnexpectedUrl)
    }
}

/// Upgrade exactly when the two versions differ.
pub fn decide(current: &Version, latest: &Version) -> (r: Decision)
    ensures
        r == decision_of(current@, latest@),
{
    if current.inner == latest.inner {
        Decision::NoAction
    } else {
        Decision::Upgrade
    }
}

/// Startup's plan from the versions it could resolve: upgrade when the latest
/// release is known and differs from the installed one (or none is
/// installed), keep the installed binary when it is current or the latest
/// release is unknown, and give up when neither is known.
pub open spec fn plan_of(current: Option<Version>, latest: Option<Version>) -> Plan {
    match latest {
        Some(l) => if current is Some && current->0@ == l@ {
            Plan::KeepCurrent
        } else {
            Plan::Upgrade(l)
        },
        None => if current is Some {
            Plan::KeepCurrent
        } else {
            Plan::Fatal
        },
    }
}

/// Works out startup's plan; see `plan_of`.
pub fn reconcile(current: Option<Version>, latest: Option<Version>) -> (r: Plan)
    ensures
        r == plan_of(current, latest),
{
    match latest {
        Some(l) => match current {
            Some(c) => match decide(&c, &l) {
                Decision::Upgrade => Plan::Upgrade(l),
                Decision::NoAction => Plan::KeepCurrent,
            },
            None => Plan::Upgrade(l),
        },
        None => match current {
            Some(_) => Plan::KeepCurrent,
            None => Plan::Fatal,
        },
    }
}

pub open spec fn steps_of(plan: Plan) -> Seq<Step> {
    match plan {
        Plan::Fatal => seq![],
        Plan::KeepCurrent => seq![Step::Spawn],
        Plan::Upgrade(_) => seq![Step::Fetch, Step::Extract, Step::Install, Step::Spawn],
    }
}

/// The plan once an upgrade has failed (the release could not be fetched,
/// extracted or installed): keep the installed binary when there is one,
/// give up otherwise.
pub fn after_failed_upgrade(current: &Option<Version>) -> (r: Plan)
    ensures
        current is Some ==> r == Plan::KeepCurrent,
        current is None ==> r == Plan::Fatal,
{
    match current {
        Some(_) => Plan::KeepCurrent,
        None => Plan::Fatal,
    }
}

/// The steps, in order, that carry out a plan: an upgrade fetches, extracts
/// and installs the release before it spawns it; keeping the current binary
/// only spawns it; a fatal plan does nothing.
pub fn startup_steps(plan: &Plan) -> (r: Vec<Step>)
    ensures
        r@ == steps_of(*plan),
{
    match plan {
        Plan::Fatal => Vec::new(),
        Plan::KeepCurrent => vec![Step::Spawn],
        Plan::Upgrade(_) => vec![Step::Fetch, Step::Extract, Step::Install, Step::Spawn],
    }
}

/// Two versions call for an upgrade exactly when they differ.
pub proof fn lemma_decide_upgrades_iff_different(a: Seq<char>, b: Seq<char>)
    ensures
        a != b ==> decision_of(a, b) == Decision::Upgrade,
        decision_of(a, a) == Decision::NoAction,
{
}

/// When both versions are known, startup fetches, extracts and installs the
/// latest release before it spawns it if the two differ, and spawns the
/// installed binary with no fetch if they are equal.
pub proof fn lemma_startup_fetches_iff_versions_differ(current: Version, latest: Version)
    ensures
        current@ != latest@ ==> steps_of(plan_of(Some(current), Some(latest))) == seq![
            Step::Fetch,
            Step::Extract,
            Step::Install,
            Step::Spawn,
        ],
        current@ == latest@ ==> steps_of(plan_of(Some(current), Some(latest))) == seq![
            Step::Spawn,
        ],
{
}

proof fn lemma_segment_start_after_slash(s: Seq<char>, k: int, end: int)
    requires
        0 < k <= end <= s.len(),
        s[k - 1] == '/',
        forall|j: int| k <= j < end ==> s[j] != '/',
    ensures
        segment_start(s, end) == k,
    decreases end,
{
    if end > k {
        lemma_segment_start_after_slash(s, k, end - 1);
    }
}

/// A URL that ends in `/tag/` and a non-empty version free of `/` names
/// exactly that version.
pub proof fn lemma_tag_url_names_version(prefix: Seq<char>, v: Seq<char>)
    requires
        v.len() > 0,
        forall|j: int| 0 <= j < v.len() ==> v[j] != '/',
    ensures
        is_tag_url(prefix + "/tag/"@ + v),
        last_segment_of(prefix + "/tag/"@ + v) == v,
{
    reveal_strlit("/tag/");
    reveal_strlit("tag");
    let url = prefix + "/tag/"@ + v;
    let p = prefix.len() as int;
    let k = p + 5;
    assert(url[k - 1] == '/');
    assert forall|j: int| k <= j < url.len() implies url[j] != '/' by {
        assert(url[j] == v[j - k]);
    }
    lemma_segment_start_after_slash(url, k, url.len() as int);
    assert(url[p] == '/');
    assert forall|j: int| p + 1 <= j < k - 1 implies url[j] != '/' by {}
    lemma_segment_start_after_slash(url, p + 1, k - 1);
    assert(url.subrange(p + 1, k - 1) =~= "tag"@);
    assert(url.subrange(k, url.len() as int) =~= v);
}

proof fn lemma_scan_to_stops(s: Seq<char>, c: char, from: int, k: int)
    requires
        0 <= from <= k <= s.len(),
        k == s.len() || s[k] == c,
        forall|j: int| from <= j < k ==> s[j] != c,
    ensures
        scan_to(s, c, from) == k,
    decreases k - from,
{
    if from < k {
        lemma_scan_to_stops(s, c, from + 1, k);
    }
}

/// An output that starts with a name, a space and a version number (possibly
/// empty), each free of spaces, reports that number, whatever follows the
/// next space.
pub proof fn lemma_version_output_reports_number(
    name: Seq<char>,
    number: Seq<char>,
    rest: Seq<char>,
)
    requires
        forall|j: int| 0 <= j < name.len() ==> name[j] != ' ',
        forall|j: int| 0 <= j < number.len() ==> number[j] != ' ',
        rest.len() == 0 || rest[0] == ' ',
    ensures
        has_second_field(name + seq![' '] + number + rest),
        second_field(name + seq![' '] + number + rest) == number,
{
    let s = name + seq![' '] + number + rest;
    let i = name.len() as int;
    let j = i + 1 + number.len();
    assert forall|t: int| 0 <= t < i implies s[t] != ' ' by {
        assert(s[t] == name[t]);
    }
    lemma_scan_to_stops(s, ' ', 0, i);
    assert forall|t: int| i + 1 <= t < j implies s[t] != ' ' by {
        assert(s[t] == number[t - i - 1]);
    }
    if rest.len() > 0 {
        assert(s[j] == rest[0]);
    }
    lemma_scan_to_stops(s, ' ', i + 1, j);
    assert(s.subrange(i + 1, j) =~= number);
}

} // verus!
