use bldr_launcher::aggregate::{archive_command, has_object_extension, object_archive_path, select_objects, NoObjects};
use bldr_launcher::link::{dependency_directives, link_plan, render, watched_paths, LinkDirective, Provenance};
use bldr_launcher::orchestrate::{
    installed_tools, native_build, needs_toolchain, output_dirs, search_path_override,
    secondary_build, stage_message, system_tools, plan_toolchain, ToolchainPlan,
    choose_source_root, staged_install_path, toolchain_download, toolchain_extract,
    BuildRun, BuildStage, BuildState,
};
use bldr_launcher::platform::resolve_toolchain;

fn drive(run: &mut BuildRun, outcomes: &[bool]) -> Vec<BuildStage> {
    let mut stages = Vec::new();
    for &ok in outcomes {
        match run.next_stage() {
            Some(s) => {
                stages.push(s);
                run.advance(ok);
            }
            None => break,
        }
    }
    stages
}

#[test]
fn native_failure_never_starts_secondary() {
    let mut run = BuildRun::new();
    let stages = drive(&mut run, &[true, false, true, true]);
    assert_eq!(stages, vec![BuildStage::Workspace, BuildStage::Native]);
    assert_eq!(run.state, BuildState::Failed(BuildStage::Native));
    assert_eq!(run.outcome(), Some(Err(BuildStage::Native)));
}

#[test]
fn successful_run_runs_stages_in_order() {
    let mut run = BuildRun::new();
    let stages = drive(&mut run, &[true, true, true]);
    assert_eq!(stages, vec![BuildStage::Workspace, BuildStage::Native, BuildStage::Secondary]);
    assert_eq!(run.outcome(), Some(Ok(())));
    let mut failing = BuildRun::new();
    drive(&mut failing, &[true, true, false]);
    assert_eq!(failing.outcome(), Some(Err(BuildStage::Secondary)));
}

#[test]
fn stage_failures_name_the_stage() {
    assert_eq!(stage_message(BuildStage::Native), "Failed to build C libraries");
    assert_eq!(stage_message(BuildStage::Secondary), "Failed to build D library");
    assert_ne!(stage_message(BuildStage::Native), stage_message(BuildStage::Secondary));
}

#[test]
fn empty_object_set_is_distinguishable() {
    let none: Vec<String> = Vec::new();
    assert_eq!(archive_command("/o/libbuilder-c.a", &none).unwrap_err(), NoObjects);
    let objs = vec!["/o/a.o".to_string(), "/o/b.o".to_string()];
    let c = archive_command("/o/libbuilder-c.a", &objs).unwrap();
    assert_eq!(c.program, "ar");
    assert_eq!(c.args, vec!["rcs", "/o/libbuilder-c.a", "/o/a.o", "/o/b.o"]);
    assert_eq!(object_archive_path("/o"), "/o/libbuilder-c.a");
}

#[test]
fn selects_object_files_only() {
    let entries = vec![
        "/o/a.o".to_string(),
        "/o/libbuilder-c.a".to_string(),
        "/o/.o".to_string(),
        "/o/b.c".to_string(),
        "/o/c.o".to_string(),
        "/o/d.oo".to_string(),
    ];
    assert_eq!(select_objects(&entries), vec!["/o/a.o", "/o/c.o"]);
    assert!(has_object_extension("x.o"));
    assert!(!has_object_extension(".o"));
    assert!(!has_object_extension("o"));
}

#[test]
fn toolchain_needed_when_either_tool_missing() {
    assert!(!needs_toolchain(true, true));
    assert!(needs_toolchain(false, true));
    assert!(needs_toolchain(true, false));
    let t = system_tools();
    assert_eq!(t.compiler, "ldc2");
    assert_eq!(t.build_tool, "dub");
    assert!(t.extra_search_path.is_none());
}

#[test]
fn installed_toolchain_paths() {
    let d = resolve_toolchain("linux", "x86_64", "1.35.0").unwrap();
    let t = installed_tools("/out/tools", &d);
    assert_eq!(t.compiler, "/out/tools/ldc-1.35.0-linux-x86_64/bin/ldc2");
    assert_eq!(t.build_tool, "/out/tools/ldc-1.35.0-linux-x86_64/bin/dub");
    assert_eq!(t.extra_search_path.as_deref(), Some("/out/tools/ldc-1.35.0-linux-x86_64/bin"));
    assert_eq!(t.runtime_lib_dir.as_deref(), Some("/out/tools/ldc-1.35.0-linux-x86_64/lib"));
    assert_eq!(staged_install_path("/out/tools/.s", &d), "/out/tools/.s/ldc-1.35.0-linux-x86_64");
    assert_eq!(choose_source_root("/m", true, "/r"), "/m");
    assert_eq!(choose_source_root("/m", false, "/r"), "/r");
    let dl = toolchain_download("/out/tools", &d);
    assert_eq!(dl.program, "curl");
    assert_eq!(dl.args[2], "/out/tools/ldc-1.35.0-linux-x86_64.tar.xz");
    assert_eq!(dl.args[3], d.download_url);
    let x = toolchain_extract("/out/tools", &d);
    assert_eq!(x.args, vec!["-xf", "/out/tools/ldc-1.35.0-linux-x86_64.tar.xz"]);
    assert_eq!(x.workdir.as_deref(), Some("/out/tools"));
    assert_eq!(output_dirs("/out"), ("/out/build".to_string(), "/out/tools".to_string()));
}

#[test]
fn secondary_build_gets_explicit_compiler_and_path() {
    let d = resolve_toolchain("macos", "aarch64", "1.35.0").unwrap();
    let t = installed_tools("/t", &d);
    let c = secondary_build("/b", &t, &Some("/usr/bin".to_string()));
    assert_eq!(c.program, "/t/ldc-1.35.0-osx-arm64/bin/dub");
    assert_eq!(
        c.args,
        vec!["build", "--config=library", "--build=release", "--compiler=/t/ldc-1.35.0-osx-arm64/bin/ldc2"]
    );
    assert_eq!(c.path_override.as_deref(), Some("/t/ldc-1.35.0-osx-arm64/bin:/usr/bin"));
    let s = secondary_build("/b", &system_tools(), &Some("/usr/bin".to_string()));
    assert!(s.path_override.is_none());
    assert_eq!(s.args[3], "--compiler=ldc2");
    let n = native_build("/b");
    assert_eq!(n.program, "make");
    assert_eq!(n.args, vec!["build-c"]);
    assert_eq!(n.workdir.as_deref(), Some("/b"));
}

#[test]
fn search_path_override_cases() {
    assert_eq!(search_path_override(&None, &Some("/usr/bin".to_string())), None);
    assert_eq!(
        search_path_override(&Some("/x/bin".to_string()), &None).as_deref(),
        Some("/x/bin")
    );
    assert_eq!(
        search_path_override(&Some("/x/bin".to_string()), &Some("/a:/b".to_string())).as_deref(),
        Some("/x/bin:/a:/b")
    );
}

fn rendered(v: &[LinkDirective]) -> Vec<String> {
    v.iter().map(render).collect()
}

#[test]
fn link_plan_on_linux_with_probe() {
    let probe = Some((vec!["/usr/lib/ts".to_string()], vec!["tree-sitter".to_string()]));
    let (provenance, dep) = dependency_directives("tree-sitter", &probe);
    assert_eq!(provenance, Provenance::Probed);
    let plan = link_plan(&None, "/b", &Some("/b/bin/obj".to_string()), &dep, "linux");
    assert_eq!(
        rendered(&plan),
        vec![
            "cargo:rustc-link-search=native=/b/bin",
            "cargo:rustc-link-lib=static=builder-core",
            "cargo:rustc-link-search=native=/b/bin/obj",
            "cargo:rustc-link-lib=static=builder-c",
            "cargo:rustc-link-search=native=/usr/lib/ts",
            "cargo:rustc-link-lib=tree-sitter",
            "cargo:rustc-link-lib=phobos2-ldc",
            "cargo:rustc-link-lib=druntime-ldc",
        ]
    );
}

#[test]
fn link_plan_on_macos_with_fallback() {
    let (provenance, dep) = dependency_directives("tree-sitter", &None);
    assert_eq!(provenance, Provenance::Assumed);
    let plan = link_plan(&Some("/t/lib".to_string()), "/b", &None, &dep, "macos");
    assert_eq!(
        rendered(&plan),
        vec![
            "cargo:rustc-link-search=native=/t/lib",
            "cargo:rustc-link-search=native=/b/bin",
            "cargo:rustc-link-lib=static=builder-core",
            "cargo:rustc-link-lib=tree-sitter",
            "cargo:rustc-link-search=native=/opt/homebrew/lib",
            "cargo:rustc-link-search=native=/usr/local/lib",
            "cargo:rustc-link-lib=c++",
            "cargo:rustc-link-lib=phobos2-ldc",
            "cargo:rustc-link-lib=druntime-ldc",
        ]
    );
}

#[test]
fn watched_source_locations() {
    assert_eq!(watched_paths("/src"), vec!["/src/source", "/src/dub.json", "/src/Makefile"]);
}

#[test]
fn toolchain_plan_prefers_system_tools() {
    assert!(matches!(
        plan_toolchain(true, true, "windows", "x86_64", "1.35.0"),
        Ok(ToolchainPlan::UseSystem)
    ));
    match plan_toolchain(false, true, "linux", "x86_64", "1.35.0") {
        Ok(ToolchainPlan::Fetch(d)) => assert_eq!(d.install_dir_name, "ldc-1.35.0-linux-x86_64"),
        other => panic!("unexpected plan: {:?}", other),
    }
    let e = plan_toolchain(true, false, "windows", "x86_64", "1.35.0").unwrap_err();
    assert_eq!((e.os.as_str(), e.arch.as_str()), ("windows", "x86_64"));
}
