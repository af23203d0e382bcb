use vstd::prelude::*;
use vstd::string::*;
use crate::orchestrate::Invocation;
use crate::text::{concat2, concat3, join_path, join_spec};

verus! {

/// The launcher's pinned release, used unless another is given.
pub fn default_version() -> (r: &'static str)
    ensures
        r@ == "2.0.0"@,
{
    "2.0.0"
}

/// The per-user cache directory as found on this machine.
pub enum CacheBase {
    /// No cache directory is known.
    Unknown,
    /// The cache directory.
    Found(String),
    /// A cache directory exists but its path is not valid Unicode.
    NotUnicode,
}

/// Relies on dirs::cache_dir for the per-user cache directory. It reads the
/// environment and the user database, so nothing is stated of what it returns.
#[verifier::external_body]
fn user_cache_dir() -> (r: CacheBase) {
    match dirs::cache_dir() {
        None => CacheBase::Unknown,
        Some(p) => match p.into_os_string().into_string() {
            Ok(s) => CacheBase::Found(s),
            Err(_) => CacheBase::NotUnicode,
        },
    }
}

/// `{base}/bldr/{version}`, with `/tmp` as the base when no cache directory is known.
pub open spec fn cache_dir_spec(base: Option<Seq<char>>, version: Seq<char>) -> Seq<char> {
    let root = match base {
        Some(b) => b,
        None => "/tmp"@,
    };
    join_spec(join_spec(root, "bldr"@), version)
}

/// Cache entries are keyed by version: under one base, two versions never
/// share a cache directory.
pub proof fn lemma_versions_cache_apart(base: Option<Seq<char>>, v1: Seq<char>, v2: Seq<char>)
    requires
        v1 != v2,
    ensures
        cache_dir_spec(base, v1) != cache_dir_spec(base, v2),
{
    reveal_strlit("bldr");
    reveal_strlit("/tmp");
    let root = match base {
        Some(b) => b,
        None => "/tmp"@,
    };
    let d = join_spec(root, "bldr"@);
    assert(d.len() > 0 && d.last() == 'r');
    let a = cache_dir_spec(base, v1);
    let b = cache_dir_spec(base, v2);
    assert(a == d + seq!['/'] + v1);
    assert(b == d + seq!['/'] + v2);
    if a == b {
        assert(v1.len() == v2.len());
        assert forall|i: int| 0 <= i < v1.len() implies v1[i] == v2[i] by {
            assert(a[d.len() + 1 + i] == v1[i]);
            assert(b[d.len() + 1 + i] == v2[i]);
        }
        assert(v1 =~= v2);
    }
}

/// The launcher's cache directory for `version` under a given base.
pub fn cache_dir_for(base: &Option<String>, version: &str) -> (r: String)
    ensures
        r@ == cache_dir_spec(
            match base {
                Some(b) => Some(b@),
                None => None,
            },
            version@,
        ),
{
    let tool_dir = match base {
        Some(b) => join_path(b.as_str(), "bldr"),
        None => join_path("/tmp", "bldr"),
    };
    join_path(tool_dir.as_str(), version)
}

/// The launcher's cache directory for `version` on this machine: keyed by
/// tool name and version under the user's cache directory, whichever that is.
/// `None` when that directory's path is not valid Unicode.
pub fn launcher_cache_dir(version: &str) -> (r: Option<String>)
    ensures
        r.is_some() ==> exists|base: Option<Seq<char>>|
            r.unwrap()@ == cache_dir_spec(base, version@),
{
    let base = match user_cache_dir() {
        CacheBase::Unknown => None,
        CacheBase::Found(s) => Some(s),
        CacheBase::NotUnicode => {
            return None;
        },
    };
    let r = cache_dir_for(&base, version);
    let ghost b = match base {
        Some(s) => Some(s@),
        None => None,
    };
    assert(r@ == cache_dir_spec(b, version@));
    Some(r)
}

/// The permission bits set on the fetched executable.
pub fn executable_mode() -> (r: u32)
    ensures
        r == 0o755,
{
    0o755
}

/// The executable's file name.
pub fn binary_name(windows: bool) -> (r: &'static str)
    ensures
        r@ == (if windows { "bldr.exe"@ } else { "bldr"@ }),
{
    if windows {
        "bldr.exe"
    } else {
        "bldr"
    }
}

/// The files of one cache entry, and of the private staging directory it is
/// populated from.
#[derive(Debug, Clone)]
pub struct LauncherPaths {
    pub cache_dir: String,
    pub binary_path: String,
    pub staging_dir: String,
    pub archive_path: String,
    pub staged_binary: String,
}

/// The executable inside a cache directory; the archive and the unpacked
/// executable inside the staging directory `staging_name` there, which one
/// acquisition owns alone. The executable is renamed from the staging
/// directory into place only once it is complete.
pub fn launcher_paths(cache_dir: &str, windows: bool, staging_name: &str) -> (r: LauncherPaths)
    ensures
        ({
            let bin = if windows { "bldr.exe"@ } else { "bldr"@ };
            let staging = join_spec(cache_dir@, staging_name@);
            &&& r.cache_dir@ == cache_dir@
            &&& r.binary_path@ == join_spec(cache_dir@, bin)
            &&& r.staging_dir@ == staging
            &&& r.archive_path@ == join_spec(staging, "bldr.tar.gz"@)
            &&& r.staged_binary@ == join_spec(staging, bin)
        }),
{
    let staging_dir = join_path(cache_dir, staging_name);
    LauncherPaths {
        cache_dir: String::from_str(cache_dir),
        binary_path: join_path(cache_dir, binary_name(windows)),
        archive_path: join_path(staging_dir.as_str(), "bldr.tar.gz"),
        staged_binary: join_path(staging_dir.as_str(), binary_name(windows)),
        staging_dir,
    }
}

/// `bldr-{os}-{arch}`.
pub open spec fn asset_name_spec(os: Seq<char>, arch: Seq<char>) -> Seq<char> {
    "bldr-"@ + os + "-"@ + arch
}

/// The release asset for a platform, in the launcher's platform names.
pub fn asset_name(os: &str, arch: &str) -> (r: String)
    ensures
        r@ == asset_name_spec(os@, arch@),
{
    let head = concat3("bldr-", os, "-");
    concat2(head.as_str(), arch)
}

/// `{host}/{project}/releases/download/v{version}/{asset}.tar.gz`.
pub open spec fn release_url_spec(version: Seq<char>, asset: Seq<char>) -> Seq<char> {
    "https://github.com/GriffinCanCode/bldr/releases/download/v"@ + version + "/"@ + asset
        + ".tar.gz"@
}

/// Where the release asset of a version is downloaded from.
pub fn release_url(version: &str, asset: &str) -> (r: String)
    ensures
        r@ == release_url_spec(version@, asset@),
{
    let head = concat3("https://github.com/GriffinCanCode/bldr/releases/download/v", version, "/");
    concat3(head.as_str(), asset, ".tar.gz")
}

/// A blocking transfer of `url` into `dest` with `curl`, failing on an HTTP error.
pub fn download_command(dest: &str, url: &str) -> (r: Invocation)
    ensures
        r.program@ == "curl"@,
        r.args@.len() == 4,
        r.args@[0]@ == "-fsSL"@,
        r.args@[1]@ == "-o"@,
        r.args@[2]@ == dest@,
        r.args@[3]@ == url@,
        r.workdir.is_none(),
        r.path_override.is_none(),
{
    let mut args: Vec<String> = Vec::new();
    args.push(String::from_str("-fsSL"));
    args.push(String::from_str("-o"));
    args.push(String::from_str(dest));
    args.push(String::from_str(url));
    Invocation { program: String::from_str("curl"), args, workdir: None, path_override: None }
}

/// Unpacking the gzip archive into a directory with `tar`.
pub fn extract_command(archive: &str, cache_dir: &str) -> (r: Invocation)
    ensures
        r.program@ == "tar"@,
        r.args@.len() == 4,
        r.args@[0]@ == "-xzf"@,
        r.args@[1]@ == archive@,
        r.args@[2]@ == "-C"@,
        r.args@[3]@ == cache_dir@,
        r.workdir.is_none(),
        r.path_override.is_none(),
{
    let mut args: Vec<String> = Vec::new();
    args.push(String::from_str("-xzf"));
    args.push(String::from_str(archive));
    args.push(String::from_str("-C"));
    args.push(String::from_str(cache_dir));
    Invocation { program: String::from_str("tar"), args, workdir: None, path_override: None }
}

/// The launcher's exit status: the child's own, or 1 when no binary was
/// obtained or the child reported no status.
pub fn exit_code(binary_found: bool, child_status: Option<i32>) -> (r: i32)
    ensures
        !binary_found ==> r == 1,
        binary_found ==> r == match child_status {
            Some(c) => c,
            None => 1,
        },
{
    if !binary_found {
        1
    } else {
        match child_status {
            Some(c) => c,
            None => 1,
        }
    }
}

} // verus!
