use boxstrap::isolate::{proceed_after_isolation, IsolationOutcome};
use boxstrap::sandbox::{prepare_steps, SandboxStep};

#[test]
fn plan_has_five_steps_in_strict_order() {
    let steps = prepare_steps("/sandbox");
    assert_eq!(steps.len(), 5);
    match &steps[0] {
        SandboxStep::CreateDirAll(p) => assert_eq!(p, "/sandbox/usr/local/bin"),
        _ => panic!("first step must create the staging directory"),
    }
    match &steps[1] {
        SandboxStep::CopyFile(src, dst) => {
            assert_eq!(src, "/usr/local/bin/docker-explorer");
            assert_eq!(dst, "/sandbox/usr/local/bin/docker-explorer");
        }
        _ => panic!("second step must stage the companion binary"),
    }
    match &steps[2] {
        SandboxStep::ChangeRoot(p) => assert_eq!(p, "/sandbox"),
        _ => panic!("third step must change the root"),
    }
    match &steps[3] {
        SandboxStep::SetCurrentDir(p) => assert_eq!(p, "/"),
        _ => panic!("fourth step must reset the working directory"),
    }
    match &steps[4] {
        SandboxStep::CreateDirAll(p) => assert_eq!(p, "dev/null"),
        _ => panic!("fifth step must create the null-device stand-in"),
    }
}

#[test]
fn copy_comes_before_root_change_for_any_root() {
    let steps = prepare_steps("/some/other/root");
    let copy_at = steps
        .iter()
        .position(|s| matches!(s, SandboxStep::CopyFile(_, _)))
        .unwrap();
    let root_change_at = steps
        .iter()
        .position(|s| matches!(s, SandboxStep::ChangeRoot(_)))
        .unwrap();
    let cwd_reset_at = steps
        .iter()
        .position(|s| matches!(s, SandboxStep::SetCurrentDir(_)))
        .unwrap();
    assert!(copy_at < root_change_at);
    assert!(root_change_at < cwd_reset_at);
}

#[test]
fn isolation_denial_is_not_fatal() {
    assert!(proceed_after_isolation(&IsolationOutcome::Denied));
    assert!(proceed_after_isolation(&IsolationOutcome::Granted));
}
