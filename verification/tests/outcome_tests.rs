use ssh_probe::classify_outcome;
use ssh_probe::respond;
use ssh_probe::SpawnOutcome;
use ssh_probe::SshError;

fn completed(success: bool, stdout: &str, stderr: &str) -> SpawnOutcome {
    SpawnOutcome::Completed {
        success,
        stdout: stdout.to_string(),
        stderr: stderr.to_string(),
    }
}

#[test]
fn nonzero_exit_prefers_stderr() {
    let r = classify_outcome(completed(false, "", "Permission denied (publickey)."));
    assert_eq!(
        r,
        Err(SshError::RemoteCommand {
            message: "Permission denied (publickey).".to_string()
        })
    );
}

#[test]
fn nonzero_exit_falls_back_to_stdout() {
    let r = classify_outcome(completed(false, "some stdout", ""));
    assert_eq!(
        r,
        Err(SshError::RemoteCommand {
            message: "some stdout".to_string()
        })
    );
}

#[test]
fn nonzero_exit_trims_both_streams() {
    let r = classify_outcome(completed(false, "", "  connection refused\r\n"));
    assert_eq!(
        r,
        Err(SshError::RemoteCommand {
            message: "connection refused".to_string()
        })
    );
    let r = classify_outcome(completed(false, "\n noted \n", " \t"));
    assert_eq!(
        r,
        Err(SshError::RemoteCommand {
            message: "noted".to_string()
        })
    );
}

#[test]
fn nonzero_exit_with_nothing_said_renders_bare_marker() {
    let r = respond(completed(false, "", ""));
    assert_eq!(r, Err("ssh failed: ".to_string()));
}

#[test]
fn zero_exit_with_output_succeeds() {
    let r = classify_outcome(completed(true, "  myhost.local\n", ""));
    let resp = r.unwrap();
    assert!(resp.ok);
    assert_eq!(resp.message, "Connected. Hostname: myhost.local");
}

#[test]
fn zero_exit_with_empty_stdout_fails() {
    let r = classify_outcome(completed(true, "", ""));
    assert_eq!(r, Err(SshError::EmptyOutput));
}

#[test]
fn zero_exit_with_whitespace_stdout_fails() {
    let r = classify_outcome(completed(true, " \n\t ", "a warning"));
    assert_eq!(r, Err(SshError::EmptyOutput));
    let msg = respond(completed(true, " \n\t ", "")).unwrap_err();
    assert_eq!(msg, "ssh succeeded but stdout is empty");
}

#[test]
fn spawn_failure_names_the_spawn_attempt() {
    let r = classify_outcome(SpawnOutcome::SpawnFailed {
        error: "No such file or directory (os error 2)".to_string(),
    });
    assert_eq!(
        r,
        Err(SshError::Spawn {
            error: "No such file or directory (os error 2)".to_string()
        })
    );
    let msg = respond(SpawnOutcome::SpawnFailed {
        error: "No such file or directory (os error 2)".to_string(),
    })
    .unwrap_err();
    assert_eq!(
        msg,
        "failed to spawn ssh command: No such file or directory (os error 2)"
    );
    assert!(msg.starts_with("failed to spawn ssh command"));
    assert!(!msg.contains("ssh failed"));
}

#[test]
fn error_descriptions() {
    let spawn = SshError::Spawn {
        error: "permission denied".to_string(),
    };
    assert_eq!(
        spawn.describe(),
        "failed to spawn ssh command: permission denied"
    );
    let remote = SshError::RemoteCommand {
        message: "Connection timed out".to_string(),
    };
    assert_eq!(remote.describe(), "ssh failed: Connection timed out");
    assert_eq!(
        SshError::EmptyOutput.describe(),
        "ssh succeeded but stdout is empty"
    );
}

#[test]
fn each_outcome_yields_its_own_response() {
    let first = respond(completed(true, "host-a\n", ""));
    let second = respond(completed(true, "host-b\n", ""));
    let third = respond(completed(false, "", "Permission denied (publickey)."));
    assert_eq!(first.unwrap().message, "Connected. Hostname: host-a");
    assert_eq!(second.unwrap().message, "Connected. Hostname: host-b");
    assert_eq!(
        third.unwrap_err(),
        "ssh failed: Permission denied (publickey)."
    );
}
