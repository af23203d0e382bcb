use vstd::prelude::*;
use vstd::string::*;
use crate::platform::{resolve_toolchain, toolchain_tag, ArtifactDescriptor, UnsupportedPlatform};
use crate::text::{concat2, concat3, join_path, join_spec};

verus! {

/// The stages of one build run, strictly in this order.
#[derive(Debug, Clone, Copy, PartialEq, Eq, Structural)]
pub enum BuildStage {
    /// Wipe and recreate the build directory, then copy the sources into it.
    Workspace,
    /// The native (C) build, run with `make`.
    Native,
    /// The secondary (D) build, run with the resolved build tool.
    Secondary,
}

/// Where a build run stands.
#[derive(Debug, Clone, Copy, PartialEq, Eq, Structural)]
pub enum BuildState {
    /// Waiting for the outcome of this stage.
    Pending(BuildStage),
    /// Terminal: every stage succeeded.
    Done,
    /// Terminal: this stage failed; no later stage runs.
    Failed(BuildStage),
}

/// The build state machine: a failed stage ends the run.
pub open spec fn build_next(s: BuildState, ok: bool) -> BuildState {
    match s {
        BuildState::Pending(stage) => if !ok {
            BuildState::Failed(stage)
        } else {
            match stage {
                BuildStage::Workspace => BuildState::Pending(BuildStage::Native),
                BuildStage::Native => BuildState::Pending(BuildStage::Secondary),
                BuildStage::Secondary => BuildState::Done,
            }
        },
        _ => s,
    }
}

/// The state reached from `s` after the stage outcomes `outcomes`, in order.
pub open spec fn build_run(s: BuildState, outcomes: Seq<bool>) -> BuildState
    decreases outcomes.len(),
{
    if outcomes.len() == 0 {
        s
    } else {
        build_run(build_next(s, outcomes[0]), outcomes.drop_first())
    }
}

/// How many times `stage` is started on the way from `s` through `outcomes`.
pub open spec fn stage_runs(s: BuildState, outcomes: Seq<bool>, stage: BuildStage) -> nat
    decreases outcomes.len(),
{
    if outcomes.len() == 0 {
        0
    } else {
        (if s == BuildState::Pending(stage) { 1nat } else { 0nat }) + stage_runs(
            build_next(s, outcomes[0]),
            outcomes.drop_first(),
            stage,
        )
    }
}

/// One build run in progress.
#[derive(Debug, Clone)]
pub struct BuildRun {
    pub state: BuildState,
}

impl BuildRun {
    /// A new run, about to prepare its workspace.
    pub fn new() -> (r: BuildRun)
        ensures
            r.state == BuildState::Pending(BuildStage::Workspace),
    {
        BuildRun { state: BuildState::Pending(BuildStage::Workspace) }
    }

    /// The stage to run next; `None` once the run has ended.
    pub fn next_stage(&self) -> (r: Option<BuildStage>)
        ensures
            r == match self.state {
                BuildState::Pending(stage) => Some(stage),
                _ => None::<BuildStage>,
            },
    {
        match self.state {
            BuildState::Pending(stage) => Some(stage),
            _ => None,
        }
    }

    /// Records the outcome of the stage just run.
    pub fn advance(&mut self, ok: bool)
        ensures
            final(self).state == build_next(old(self).state, ok),
    {
        let next = match self.state {
            BuildState::Pending(stage) => if !ok {
                BuildState::Failed(stage)
            } else {
                match stage {
                    BuildStage::Workspace => BuildState::Pending(BuildStage::Native),
                    BuildStage::Native => BuildState::Pending(BuildStage::Secondary),
                    BuildStage::Secondary => BuildState::Done,
                }
            },
            other => other,
        };
        self.state = next;
    }

    /// The result once the run has ended: success, or the stage that failed.
    pub fn outcome(&self) -> (r: Option<Result<(), BuildStage>>)
        ensures
            r == match self.state {
                BuildState::Done => Some(Ok(())),
                BuildState::Failed(stage) => Some(Err(stage)),
                _ => None::<Result<(), BuildStage>>,
            },
    {
        match self.state {
            BuildState::Done => Some(Ok(())),
            BuildState::Failed(stage) => Some(Err(stage)),
            _ => None,
        }
    }
}

proof fn lemma_failed_runs_nothing(stage: BuildStage, outcomes: Seq<bool>, other: BuildStage)
    ensures
        build_run(BuildState::Failed(stage), outcomes) == BuildState::Failed(stage),
        stage_runs(BuildState::Failed(stage), outcomes, other) == 0,
    decreases outcomes.len(),
{
    if outcomes.len() > 0 {
        lemma_failed_runs_nothing(stage, outcomes.drop_first(), other);
    }
}

/// Short circuit: when the native stage fails, the run ends failed at that
/// stage and the secondary stage is never started, whatever follows.
pub proof fn lemma_native_failure_stops(outcomes: Seq<bool>)
    requires
        outcomes.len() >= 2,
        outcomes[0],
        !outcomes[1],
    ensures
        build_run(BuildState::Pending(BuildStage::Workspace), outcomes) == BuildState::Failed(
            BuildStage::Native,
        ),
        stage_runs(BuildState::Pending(BuildStage::Workspace), outcomes, BuildStage::Secondary)
            == 0,
{
    let o1 = outcomes.drop_first();
    lemma_failed_runs_nothing(BuildStage::Native, o1.drop_first(), BuildStage::Secondary);
    assert(o1[0] == outcomes[1]);
    let failed = BuildState::Failed(BuildStage::Native);
    let native = BuildState::Pending(BuildStage::Native);
    assert(build_next(native, o1[0]) == failed);
    assert(build_run(native, o1) == failed);
    assert(stage_runs(native, o1, BuildStage::Secondary) == 0);
}

/// Which build failed, in words: the two stages use different toolchains.
pub open spec fn stage_message_spec(stage: BuildStage) -> Seq<char> {
    match stage {
        BuildStage::Workspace => "Failed to prepare the build directory"@,
        BuildStage::Native => "Failed to build C libraries"@,
        BuildStage::Secondary => "Failed to build D library"@,
    }
}

/// The failure message for a stage.
pub fn stage_message(stage: BuildStage) -> (r: &'static str)
    ensures
        r@ == stage_message_spec(stage),
{
    match stage {
        BuildStage::Workspace => "Failed to prepare the build directory",
        BuildStage::Native => "Failed to build C libraries",
        BuildStage::Secondary => "Failed to build D library",
    }
}

/// One outside command: program, arguments, working directory, and a value
/// for the executable search path set for this command alone.
#[derive(Debug, Clone)]
pub struct Invocation {
    pub program: String,
    pub args: Vec<String>,
    pub workdir: Option<String>,
    pub path_override: Option<String>,
}

/// The executables used by the two build stages.
#[derive(Debug, Clone)]
pub struct ToolPaths {
    pub compiler: String,
    pub build_tool: String,
    /// A directory to put first on the search path of the secondary build.
    pub extra_search_path: Option<String>,
    /// The installed toolchain's runtime library directory.
    pub runtime_lib_dir: Option<String>,
}

/// The toolchain is fetched when either tool is missing from the search path.
pub fn needs_toolchain(has_compiler: bool, has_build_tool: bool) -> (r: bool)
    ensures
        r == (!has_compiler || !has_build_tool),
{
    !has_compiler || !has_build_tool
}

/// Where the build tools come from.
#[derive(Debug, Clone)]
pub enum ToolchainPlan {
    /// Both tools answered their version probe on the ambient search path.
    UseSystem,
    /// A tool is missing: fetch and install this toolchain.
    Fetch(ArtifactDescriptor),
}

/// Decides where the build tools come from. The platform is resolved only
/// when a tool is missing; an unsupported platform is then refused before
/// anything is fetched.
pub fn plan_toolchain(
    has_compiler: bool,
    has_build_tool: bool,
    os: &str,
    arch: &str,
    version: &str,
) -> (r: Result<ToolchainPlan, UnsupportedPlatform>)
    ensures
        has_compiler && has_build_tool ==> r matches Ok(ToolchainPlan::UseSystem),
        !(has_compiler && has_build_tool) ==> match toolchain_tag(os@, arch@) {
            Some(tag) => r matches Ok(ToolchainPlan::Fetch(d)) && d.describes(version@, tag),
            None => r.is_err() && r->Err_0.os@ == os@ && r->Err_0.arch@ == arch@,
        },
{
    if !needs_toolchain(has_compiler, has_build_tool) {
        return Ok(ToolchainPlan::UseSystem);
    }
    match resolve_toolchain(os, arch, version) {
        Ok(d) => Ok(ToolchainPlan::Fetch(d)),
        Err(e) => Err(e),
    }
}

/// The tools as found on the ambient search path.
pub fn system_tools() -> (r: ToolPaths)
    ensures
        r.compiler@ == "ldc2"@,
        r.build_tool@ == "dub"@,
        r.extra_search_path.is_none(),
        r.runtime_lib_dir.is_none(),
{
    ToolPaths {
        compiler: String::from_str("ldc2"),
        build_tool: String::from_str("dub"),
        extra_search_path: None,
        runtime_lib_dir: None,
    }
}

/// The directory a toolchain is installed to under the tools directory.
pub open spec fn install_path_spec(tools_dir: Seq<char>, install_dir_name: Seq<char>) -> Seq<char> {
    join_spec(tools_dir, install_dir_name)
}

/// The tools of a toolchain installed under `tools_dir`: both executables in
/// its `bin/`, that directory added to the search path, its `lib/` as the
/// runtime library directory.
pub fn installed_tools(tools_dir: &str, artifact: &ArtifactDescriptor) -> (r: ToolPaths)
    ensures
        ({
            let install = install_path_spec(tools_dir@, artifact.install_dir_name@);
            let bin = join_spec(install, "bin"@);
            &&& r.compiler@ == join_spec(bin, "ldc2"@)
            &&& r.build_tool@ == join_spec(bin, "dub"@)
            &&& r.extra_search_path.is_some() && r.extra_search_path.unwrap()@ == bin
            &&& r.runtime_lib_dir.is_some() && r.runtime_lib_dir.unwrap()@ == join_spec(
                install,
                "lib"@,
            )
        }),
{
    let install = join_path(tools_dir, artifact.install_dir_name.as_str());
    let bin = join_path(install.as_str(), "bin");
    let compiler = join_path(bin.as_str(), "ldc2");
    let build_tool = join_path(bin.as_str(), "dub");
    let lib = join_path(install.as_str(), "lib");
    ToolPaths { compiler, build_tool, extra_search_path: Some(bin), runtime_lib_dir: Some(lib) }
}

/// The search path for the secondary build: the extra directory first, then
/// the current search path; no override without an extra directory.
pub fn search_path_override(extra: &Option<String>, current: &Option<String>) -> (r: Option<
    String,
>)
    ensures
        match extra {
            None => r.is_none(),
            Some(e) => r.is_some() && r.unwrap()@ == match current {
                Some(c) => e@ + ":"@ + c@,
                None => e@,
            },
        },
{
    match extra {
        None => None,
        Some(e) => match current {
            Some(c) => Some(concat3(e.as_str(), ":", c.as_str())),
            None => Some(e.clone()),
        },
    }
}

/// The native build: `make build-c` in the build directory.
pub fn native_build(build_dir: &str) -> (r: Invocation)
    ensures
        r.program@ == "make"@,
        r.args@.len() == 1,
        r.args@[0]@ == "build-c"@,
        r.workdir.is_some() && r.workdir.unwrap()@ == build_dir@,
        r.path_override.is_none(),
{
    let mut args: Vec<String> = Vec::new();
    args.push(String::from_str("build-c"));
    Invocation {
        program: String::from_str("make"),
        args,
        workdir: Some(String::from_str(build_dir)),
        path_override: None,
    }
}

/// The secondary build: the build tool asked for a release library, with the
/// compiler named explicitly and the search path overridden for this command.
pub fn secondary_build(build_dir: &str, tools: &ToolPaths, current_path: &Option<String>) -> (r:
    Invocation)
    ensures
        r.program@ == tools.build_tool@,
        r.args@.len() == 4,
        r.args@[0]@ == "build"@,
        r.args@[1]@ == "--config=library"@,
        r.args@[2]@ == "--build=release"@,
        r.args@[3]@ == "--compiler="@ + tools.compiler@,
        r.workdir.is_some() && r.workdir.unwrap()@ == build_dir@,
        match tools.extra_search_path {
            None => r.path_override.is_none(),
            Some(e) => r.path_override.is_some() && r.path_override.unwrap()@ == match current_path {
                Some(c) => e@ + ":"@ + c@,
                None => e@,
            },
        },
{
    let mut args: Vec<String> = Vec::new();
    args.push(String::from_str("build"));
    args.push(String::from_str("--config=library"));
    args.push(String::from_str("--build=release"));
    args.push(concat2("--compiler=", tools.compiler.as_str()));
    Invocation {
        program: tools.build_tool.clone(),
        args,
        workdir: Some(String::from_str(build_dir)),
        path_override: search_path_override(&tools.extra_search_path, current_path),
    }
}

/// Where an unpacked toolchain stands in the staging directory before it is
/// renamed into the tools directory.
pub fn staged_install_path(staging_dir: &str, artifact: &ArtifactDescriptor) -> (r: String)
    ensures
        r@ == join_spec(staging_dir@, artifact.install_dir_name@),
{
    join_path(staging_dir, artifact.install_dir_name.as_str())
}

/// The source root: the manifest directory itself when it holds a bundled
/// copy of the sources, else the repository root above it.
pub fn choose_source_root(manifest_dir: &str, bundled: bool, repo_root: &str) -> (r: String)
    ensures
        r@ == (if bundled { manifest_dir@ } else { repo_root@ }),
{
    if bundled {
        String::from_str(manifest_dir)
    } else {
        String::from_str(repo_root)
    }
}

/// The build directory and the tools directory under the output directory.
pub fn output_dirs(out_dir: &str) -> (r: (String, String))
    ensures
        r.0@ == join_spec(out_dir@, "build"@),
        r.1@ == join_spec(out_dir@, "tools"@),
{
    (join_path(out_dir, "build"), join_path(out_dir, "tools"))
}

/// Where the toolchain archive is downloaded to: inside the private staging
/// directory, from which the unpacked toolchain is renamed into place.
pub fn toolchain_archive_path(staging_dir: &str, artifact: &ArtifactDescriptor) -> (r: String)
    ensures
        r@ == join_spec(staging_dir@, artifact.archive_name@),
{
    join_path(staging_dir, artifact.archive_name.as_str())
}

/// The toolchain's blocking download with `curl`, following redirects.
pub fn toolchain_download(staging_dir: &str, artifact: &ArtifactDescriptor) -> (r: Invocation)
    ensures
        r.program@ == "curl"@,
        r.args@.len() == 4,
        r.args@[0]@ == "-L"@,
        r.args@[1]@ == "-o"@,
        r.args@[2]@ == join_spec(staging_dir@, artifact.archive_name@),
        r.args@[3]@ == artifact.download_url@,
        r.workdir.is_none(),
        r.path_override.is_none(),
{
    let mut args: Vec<String> = Vec::new();
    args.push(String::from_str("-L"));
    args.push(String::from_str("-o"));
    args.push(toolchain_archive_path(staging_dir, artifact));
    args.push(artifact.download_url.clone());
    Invocation { program: String::from_str("curl"), args, workdir: None, path_override: None }
}

/// Unpacking the toolchain archive inside the staging directory with `tar`.
pub fn toolchain_extract(staging_dir: &str, artifact: &ArtifactDescriptor) -> (r: Invocation)
    ensures
        r.program@ == "tar"@,
        r.args@.len() == 2,
        r.args@[0]@ == "-xf"@,
        r.args@[1]@ == join_spec(staging_dir@, artifact.archive_name@),
        r.workdir.is_some() && r.workdir.unwrap()@ == staging_dir@,
        r.path_override.is_none(),
{
    let mut args: Vec<String> = Vec::new();
    args.push(String::from_str("-xf"));
    args.push(toolchain_archive_path(staging_dir, artifact));
    Invocation {
        program: String::from_str("tar"),
        args,
        workdir: Some(String::from_str(staging_dir)),
        path_override: None,
    }
}

} // verus!
