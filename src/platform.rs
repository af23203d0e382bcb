use vstd::prelude::*;
use vstd::string::*;
use crate::text::{same_text, concat2, concat3};

verus! {

/// The platform part of a toolchain archive name, for each supported
/// (operating system, architecture) pair; `None` outside the table.
pub open spec fn toolchain_tag(os: Seq<char>, arch: Seq<char>) -> Option<Seq<char>> {
    if os == "macos"@ && arch == "aarch64"@ {
        Some("osx-arm64"@)
    } else if os == "macos"@ && arch == "x86_64"@ {
        Some("osx-x86_64"@)
    } else if os == "linux"@ && arch == "x86_64"@ {
        Some("linux-x86_64"@)
    } else if os == "linux"@ && arch == "aarch64"@ {
        Some("linux-aarch64"@)
    } else {
        None
    }
}

/// `ldc-{version}-{tag}`: the directory an archive unpacks into.
pub open spec fn install_dir_spec(version: Seq<char>, tag: Seq<char>) -> Seq<char> {
    "ldc-"@ + version + "-"@ + tag
}

/// `ldc-{version}-{tag}.tar.xz`: the archive's file name.
pub open spec fn archive_name_spec(version: Seq<char>, tag: Seq<char>) -> Seq<char> {
    install_dir_spec(version, tag) + ".tar.xz"@
}

/// `{host}/{project}/releases/download/v{version}/{archive}`.
pub open spec fn toolchain_url_spec(version: Seq<char>, tag: Seq<char>) -> Seq<char> {
    "https://github.com/ldc-developers/ldc/releases/download/v"@ + version + "/"@
        + archive_name_spec(version, tag)
}

/// What a toolchain download is: derived from the platform and the pinned version alone.
#[derive(Debug, Clone)]
pub struct ArtifactDescriptor {
    pub archive_name: String,
    pub install_dir_name: String,
    pub download_url: String,
    pub version: String,
}

/// The (operating system, architecture) pair that has no entry in the table.
#[derive(Debug, Clone)]
pub struct UnsupportedPlatform {
    pub os: String,
    pub arch: String,
}

impl ArtifactDescriptor {
    /// The descriptor holds the names that `tag` and `version` determine.
    pub open spec fn describes(&self, version: Seq<char>, tag: Seq<char>) -> bool {
        &&& self.archive_name@ == archive_name_spec(version, tag)
        &&& self.install_dir_name@ == install_dir_spec(version, tag)
        &&& self.download_url@ == toolchain_url_spec(version, tag)
        &&& self.version@ == version
    }
}

fn toolchain_tag_of(os: &str, arch: &str) -> (r: Option<&'static str>)
    ensures
        match toolchain_tag(os@, arch@) {
            Some(t) => r.is_some() && r.unwrap()@ == t,
            None => r.is_none(),
        },
{
    if same_text(os, "macos") && same_text(arch, "aarch64") {
        Some("osx-arm64")
    } else if same_text(os, "macos") && same_text(arch, "x86_64") {
        Some("osx-x86_64")
    } else if same_text(os, "linux") && same_text(arch, "x86_64") {
        Some("linux-x86_64")
    } else if same_text(os, "linux") && same_text(arch, "aarch64") {
        Some("linux-aarch64")
    } else {
        None
    }
}

/// Resolves a target platform and a pinned version to the toolchain archive
/// to fetch. A pair outside the table is refused, naming the pair; nothing
/// else happens on that path.
pub fn resolve_toolchain(os: &str, arch: &str, version: &str) -> (r: Result<
    ArtifactDescriptor,
    UnsupportedPlatform,
>)
    ensures
        match toolchain_tag(os@, arch@) {
            Some(tag) => r.is_ok() && r->Ok_0.describes(version@, tag),
            None => r.is_err() && r->Err_0.os@ == os@ && r->Err_0.arch@ == arch@,
        },
{
    match toolchain_tag_of(os, arch) {
        Some(tag) => {
            let dir_head = concat3("ldc-", version, "-");
            let install_dir_name = concat2(dir_head.as_str(), tag);
            let archive_name = concat2(install_dir_name.as_str(), ".tar.xz");
            let url_head = concat3(
                "https://github.com/ldc-developers/ldc/releases/download/v",
                version,
                "/",
            );
            let download_url = concat2(url_head.as_str(), archive_name.as_str());
            Ok(ArtifactDescriptor {
                archive_name,
                install_dir_name,
                download_url,
                version: String::from_str(version),
            })
        },
        None => Err(UnsupportedPlatform { os: String::from_str(os), arch: String::from_str(arch) }),
    }
}

/// Every supported pair gives non-empty names, and the archive name is the
/// install-directory name with the `.tar.xz` suffix.
pub proof fn lemma_supported_names_well_formed(os: Seq<char>, arch: Seq<char>, version: Seq<char>)
    requires
        toolchain_tag(os, arch).is_some(),
    ensures
        install_dir_spec(version, toolchain_tag(os, arch).unwrap()).len() > 0,
        archive_name_spec(version, toolchain_tag(os, arch).unwrap())
            == install_dir_spec(version, toolchain_tag(os, arch).unwrap()) + ".tar.xz"@,
        archive_name_spec(version, toolchain_tag(os, arch).unwrap()).len()
            > install_dir_spec(version, toolchain_tag(os, arch).unwrap()).len(),
        toolchain_tag(os, arch).unwrap().len() > 0,
{
    reveal_strlit("ldc-");
    reveal_strlit(".tar.xz");
    reveal_strlit("osx-arm64");
    reveal_strlit("osx-x86_64");
    reveal_strlit("linux-x86_64");
    reveal_strlit("linux-aarch64");
}

/// Installs are keyed by version: two versions never share an install
/// directory on one platform, so a version bump never overwrites an install.
pub proof fn lemma_versions_install_apart(v1: Seq<char>, v2: Seq<char>, tag: Seq<char>)
    requires
        v1 != v2,
    ensures
        install_dir_spec(v1, tag) != install_dir_spec(v2, tag),
{
    reveal_strlit("ldc-");
    reveal_strlit("-");
    let a = install_dir_spec(v1, tag);
    let b = install_dir_spec(v2, tag);
    assert("ldc-"@.len() == 4 && "-"@.len() == 1);
    assert(a.len() == v1.len() + 5 + tag.len());
    assert(b.len() == v2.len() + 5 + tag.len());
    if a == b {
        assert(v1.len() == v2.len());
        assert forall|i: int| 0 <= i < v1.len() implies v1[i] == v2[i] by {
            assert(a[4 + i] == v1[i]);
            assert(b[4 + i] == v2[i]);
        }
        assert(v1 =~= v2);
    }
}

/// The launcher's operating-system name for a target operating system;
/// `None` outside the table.
pub open spec fn launcher_os_spec(target_os: Seq<char>) -> Option<Seq<char>> {
    if target_os == "macos"@ {
        Some("darwin"@)
    } else if target_os == "linux"@ {
        Some("linux"@)
    } else if target_os == "windows"@ {
        Some("windows"@)
    } else {
        None
    }
}

/// The launcher's architecture name for a target architecture; `None`
/// outside the table.
pub open spec fn launcher_arch_spec(target_arch: Seq<char>) -> Option<Seq<char>> {
    if target_arch == "aarch64"@ {
        Some("arm64"@)
    } else if target_arch == "x86_64"@ {
        Some("amd64"@)
    } else {
        None
    }
}

/// Maps the target operating system and architecture (as Rust names them) to
/// the names the launcher's release assets use. A pair outside the table is
/// refused, naming the pair; there is no default.
pub fn get_platform(target_os: &str, target_arch: &str) -> (r: Result<
    (&'static str, &'static str),
    UnsupportedPlatform,
>)
    ensures
        match (launcher_os_spec(target_os@), launcher_arch_spec(target_arch@)) {
            (Some(os), Some(arch)) => r.is_ok() && r->Ok_0.0@ == os && r->Ok_0.1@ == arch,
            _ => r.is_err() && r->Err_0.os@ == target_os@ && r->Err_0.arch@ == target_arch@,
        },
{
    let os = if same_text(target_os, "macos") {
        Some("darwin")
    } else if same_text(target_os, "linux") {
        Some("linux")
    } else if same_text(target_os, "windows") {
        Some("windows")
    } else {
        None
    };
    let arch = if same_text(target_arch, "aarch64") {
        Some("arm64")
    } else if same_text(target_arch, "x86_64") {
        Some("amd64")
    } else {
        None
    };
    match (os, arch) {
        (Some(o), Some(a)) => Ok((o, a)),
        _ => Err(
            UnsupportedPlatform {
                os: String::from_str(target_os),
                arch: String::from_str(target_arch),
            },
        ),
    }
}

} // verus!
