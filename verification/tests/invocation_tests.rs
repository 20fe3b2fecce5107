use boxstrap::error::PipelineError;
use boxstrap::invocation::parse_invocation;

fn strings(parts: &[&str]) -> Vec<String> {
    parts.iter().map(|p| p.to_string()).collect()
}

#[test]
fn usage_error_on_no_args() {
    let r = parse_invocation(&Vec::new());
    assert!(matches!(r, Err(PipelineError::Usage)));
}

#[test]
fn usage_error_on_four_args() {
    let r = parse_invocation(&strings(&["self", "run", "alpine", "echo"]));
    assert!(matches!(r, Err(PipelineError::Usage)));
}

#[test]
fn parses_minimal_invocation() {
    let inv = parse_invocation(&strings(&["self", "run", "alpine", "echo", "hi"])).unwrap();
    assert_eq!(inv.image, "alpine");
    assert_eq!(inv.command, "echo");
    assert_eq!(inv.command_args, vec!["hi".to_string()]);
}

#[test]
fn preserves_argument_order() {
    let inv = parse_invocation(&strings(&["self", "run", "busybox", "ls", "-l", "/tmp", "-a"]))
        .unwrap();
    assert_eq!(inv.image, "busybox");
    assert_eq!(inv.command, "ls");
    assert_eq!(
        inv.command_args,
        vec!["-l".to_string(), "/tmp".to_string(), "-a".to_string()]
    );
}
