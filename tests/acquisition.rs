use bldr_launcher::acquire::{AcqState, Acquisition, Step};
use bldr_launcher::launcher::{
    binary_name, cache_dir_for, default_version, download_command, exit_code, extract_command,
    executable_mode, launcher_cache_dir, launcher_paths,
};

/// Drives an acquisition with the given step outcomes; returns the steps performed.
fn drive(a: &mut Acquisition, outcomes: &[bool]) -> Vec<Step> {
    let mut steps = Vec::new();
    for &ok in outcomes {
        match a.next_step() {
            Some(s) => {
                steps.push(s);
                a.advance(ok);
            }
            None => break,
        }
    }
    steps
}

#[test]
fn populated_cache_performs_no_download() {
    let mut a = Acquisition::new(true);
    let steps = drive(&mut a, &[true, true, true, true]);
    assert_eq!(steps, vec![Step::Probe]);
    assert_eq!(a.state, AcqState::Cached);
    assert_eq!(a.outcome(), Some(Ok(())));
    assert_eq!(a.next_step(), None);
}

#[test]
fn second_invocation_of_same_version_does_not_download() {
    let mut first = Acquisition::new(true);
    let steps = drive(&mut first, &[false, true, true, true, true, true, true, true, true]);
    assert_eq!(steps.iter().filter(|s| **s == Step::Download).count(), 1);
    assert_eq!(first.outcome(), Some(Ok(())));
    let mut second = Acquisition::new(true);
    let steps = drive(&mut second, &[true]);
    assert!(!steps.contains(&Step::Download));
    assert_eq!(second.state, AcqState::Cached);
}

#[test]
fn empty_cache_full_cycle_sets_executable_bit() {
    let mut a = Acquisition::new(true);
    let steps = drive(&mut a, &[false, true, true, true, true, true, true, true, true]);
    assert_eq!(
        steps,
        vec![
            Step::Probe,
            Step::Resolve,
            Step::CreateRoot,
            Step::Download,
            Step::Extract,
            Step::MarkExecutable,
            Step::Publish,
            Step::RemoveStaging,
            Step::Confirm,
        ]
    );
    assert_eq!(a.state, AcqState::Ready);
    assert_eq!(executable_mode(), 0o755);
}

#[test]
fn toolchain_cycle_has_no_permission_step() {
    let mut a = Acquisition::new(false);
    let steps = drive(&mut a, &[false, true, true, true, true, true, true, true]);
    assert!(!steps.contains(&Step::MarkExecutable));
    assert!(steps.contains(&Step::Publish));
    assert_eq!(a.state, AcqState::Ready);
}

#[test]
fn failed_download_is_unavailable_and_exits_one() {
    let mut a = Acquisition::new(true);
    let steps = drive(&mut a, &[false, true, true, false, true, true]);
    assert_eq!(
        steps,
        vec![Step::Probe, Step::Resolve, Step::CreateRoot, Step::Download, Step::RemoveStaging]
    );
    assert_eq!(a.outcome(), Some(Err(Step::Download)));
    assert_eq!(exit_code(false, None), 1);
}

#[test]
fn missing_binary_after_extraction_fails() {
    let mut a = Acquisition::new(true);
    drive(&mut a, &[false, true, true, true, true, true, true, true, false]);
    assert_eq!(a.outcome(), Some(Err(Step::Confirm)));
    let mut b = Acquisition::new(true);
    drive(&mut b, &[false, true, true, true, false, true]);
    assert_eq!(b.outcome(), Some(Err(Step::Extract)));
    let mut c = Acquisition::new(true);
    drive(&mut c, &[false, true, false]);
    assert_eq!(c.outcome(), Some(Err(Step::CreateRoot)));
    let mut d = Acquisition::new(true);
    let steps = drive(&mut d, &[false, true, true, true, true, true, false, true, true]);
    assert_eq!(steps.last(), Some(&Step::RemoveStaging));
    assert_eq!(d.outcome(), Some(Err(Step::Publish)));
}

#[test]
fn unsupported_platform_fails_before_any_effect() {
    let mut a = Acquisition::new(true);
    let steps = drive(&mut a, &[false, false, true, true]);
    assert_eq!(steps, vec![Step::Probe, Step::Resolve]);
    assert_eq!(a.outcome(), Some(Err(Step::Resolve)));
}

#[test]
fn exit_code_forwards_child_status() {
    assert_eq!(exit_code(true, Some(0)), 0);
    assert_eq!(exit_code(true, Some(42)), 42);
    assert_eq!(exit_code(true, None), 1);
    assert_eq!(exit_code(false, Some(0)), 1);
}

#[test]
fn cache_paths_are_keyed_by_version() {
    assert_eq!(default_version(), "2.0.0");
    assert_eq!(cache_dir_for(&None, "2.0.0"), "/tmp/bldr/2.0.0");
    assert_eq!(
        cache_dir_for(&Some("/home/a/.cache".to_string()), "2.0.0"),
        "/home/a/.cache/bldr/2.0.0"
    );
    assert_eq!(cache_dir_for(&Some("/c/".to_string()), "2.1.0"), "/c/bldr/2.1.0");
    if let Some(dir) = launcher_cache_dir("2.0.0") {
        assert!(dir.ends_with("/bldr/2.0.0"));
    }
    let p = launcher_paths("/tmp/bldr/2.0.0", false, ".staging-7");
    assert_eq!(p.binary_path, "/tmp/bldr/2.0.0/bldr");
    assert_eq!(p.staging_dir, "/tmp/bldr/2.0.0/.staging-7");
    assert_eq!(p.archive_path, "/tmp/bldr/2.0.0/.staging-7/bldr.tar.gz");
    assert_eq!(p.staged_binary, "/tmp/bldr/2.0.0/.staging-7/bldr");
    assert_eq!(launcher_paths("/x", true, "s").binary_path, "/x/bldr.exe");
    assert_eq!(binary_name(false), "bldr");
    assert_ne!(cache_dir_for(&None, "2.0.0"), cache_dir_for(&None, "2.0.1"));
}

#[test]
fn launcher_commands() {
    let d = download_command("/c/bldr.tar.gz", "https://h/a.tar.gz");
    assert_eq!(d.program, "curl");
    assert_eq!(d.args, vec!["-fsSL", "-o", "/c/bldr.tar.gz", "https://h/a.tar.gz"]);
    let x = extract_command("/c/bldr.tar.gz", "/c");
    assert_eq!(x.program, "tar");
    assert_eq!(x.args, vec!["-xzf", "/c/bldr.tar.gz", "-C", "/c"]);
}
