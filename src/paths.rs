//! The URLs and paths that the engine talks to, built in one place.
use vstd::prelude::*;

verus! {

/// `base` and `path` joined by exactly one `/` at the seam: one is added after
/// `base` unless it ends in one, and a leading `/` of `path` is dropped.
pub open spec fn join_of(base: Seq<char>, path: Seq<char>) -> Seq<char> {
    let head = if base.len() > 0 && base.last() == '/' {
        base
    } else {
        base.push('/')
    };
    let tail = if path.len() > 0 && path[0] == '/' {
        path.drop_first()
    } else {
        path
    };
    head + tail
}

/// Joins a base URL and a path with one `/` between them.
pub fn join_url(base: &str, path: &str) -> (r: String)
    ensures
        r@ == join_of(base@, path@),
{
    let mut url = base.to_owned();
    let n = base.unicode_len();
    proof {
        reveal_strlit("/");
    }
    if n == 0 || base.get_char(n - 1) != '/' {
        url.append("/");
    }
    let m = path.unicode_len();
    if m > 0 && path.get_char(0) == '/' {
        url.append(path.substring_char(1, m));
    } else {
        url.append(path);
    }
    url
}

/// The release index's alias that redirects to the latest release's tag.
pub fn latest_release_url(releases: &str) -> (r: String)
    ensures
        r@ == join_of(releases@, "latest"@),
{
    join_url(releases, "latest")
}

pub open spec fn asset_path_of(version: Seq<char>, os: Seq<char>) -> Seq<char> {
    "download/"@ + version + "/Xray-"@ + os + "-64.zip"@
}

/// Where the archive of a release for an operating system is downloaded from.
pub fn download_url(releases: &str, version: &str, os: &str) -> (r: String)
    ensures
        r@ == join_of(releases@, asset_path_of(version@, os@)),
{
    let path = String::from_str("download/").concat(version).concat("/Xray-").concat(os).concat(
        "-64.zip",
    );
    join_url(releases, path.as_str())
}

pub open spec fn keep_alive_of(slug: Seq<char>, owner: Seq<char>, id: Seq<char>) -> Seq<char> {
    slug + "."@ + owner + ".repl.co/"@ + id
}

/// The public address that heartbeats ping, made from the host's naming and
/// the identity.
pub fn keep_alive_url(slug: &str, owner: &str, identity: &str) -> (r: String)
    ensures
        r@ == keep_alive_of(slug@, owner@, identity@),
{
    slug.to_owned().concat(".").concat(owner).concat(".repl.co/").concat(identity)
}

/// Where the identity store keeps the identity.
pub fn identity_get_url(store: &str) -> (r: String)
    ensures
        r@ == store@ + "/uuid"@,
{
    store.to_owned().concat("/uuid")
}

/// The address that writes `identity` to the identity store.
pub fn identity_set_url(store: &str, identity: &str) -> (r: String)
    ensures
        r@ == store@ + "/uuid="@ + identity@,
{
    store.to_owned().concat("/uuid=").concat(identity)
}

} // verus!
